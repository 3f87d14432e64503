use vstd::prelude::*;
use vstd::string::*;
use crate::error::CatalogError;

verus! {

/// Smallest number of characters in a tenant identifier.
pub const MIN_TENANT_ID_LEN: usize = 3;

/// Largest number of characters in a tenant identifier.
pub const MAX_TENANT_ID_LEN: usize = 63;

/// Characters allowed in a tenant identifier: lowercase ASCII letters,
/// digits, hyphen and underscore.
pub open spec fn is_tenant_id_char(c: char) -> bool {
    ('a' <= c && c <= 'z') || ('0' <= c && c <= '9') || c == '-' || c == '_'
}

/// A separator character, which may not lead an identifier.
pub open spec fn is_separator(c: char) -> bool {
    c == '-' || c == '_'
}

/// The tenant identifier policy.
pub open spec fn valid_tenant_id(s: Seq<char>) -> bool {
    &&& MIN_TENANT_ID_LEN <= s.len() <= MAX_TENANT_ID_LEN
    &&& forall|i: int| 0 <= i < s.len() ==> is_tenant_id_char(#[trigger] s[i])
    &&& !is_separator(s[0])
}

fn tenant_id_char(c: char) -> (r: bool)
    ensures
        r == is_tenant_id_char(c),
{
    ('a' <= c && c <= 'z') || ('0' <= c && c <= '9') || c == '-' || c == '_'
}

/// Checks `s` against the tenant identifier policy.
pub fn is_valid_tenant_id(s: &str) -> (r: bool)
    ensures
        r == valid_tenant_id(s@),
{
    let n = s.unicode_len();
    if n < MIN_TENANT_ID_LEN || n > MAX_TENANT_ID_LEN {
        return false;
    }
    let first = s.get_char(0);
    if first == '-' || first == '_' {
        return false;
    }
    let mut i: usize = 0;
    while i < n
        invariant
            n == s@.len(),
            i <= n,
            forall|j: int| 0 <= j < i ==> is_tenant_id_char(#[trigger] s@[j]),
        decreases n - i,
    {
        if !tenant_id_char(s.get_char(i)) {
            return false;
        }
        i = i + 1;
    }
    true
}

/// A validated tenant identifier.
#[derive(Clone, Debug, PartialEq, Eq)]
pub struct TenantContext {
    tenant_id: String,
}

impl View for TenantContext {
    type V = Seq<char>;

    closed spec fn view(&self) -> Seq<char> {
        self.tenant_id@
    }
}

impl TenantContext {
    /// Every value of this type satisfies the identifier policy.
    pub closed spec fn wf(&self) -> bool {
        valid_tenant_id(self.tenant_id@)
    }

    /// Validates `tenant_id`; this is the only way to build a tenant context.
    pub fn new(tenant_id: &str) -> (r: Result<TenantContext, CatalogError>)
        ensures
            valid_tenant_id(tenant_id@) ==> (r matches Ok(c) && c@ == tenant_id@ && c.wf()),
            !valid_tenant_id(tenant_id@) ==> (r matches Err(e) && e.is_validation()),
    {
        if is_valid_tenant_id(tenant_id) {
            Ok(TenantContext { tenant_id: tenant_id.to_owned() })
        } else {
            let mut msg = String::from_str("invalid tenant ID '");
            msg.append(tenant_id);
            msg.append("': expected 3 to 63 characters of a-z, 0-9, '-' or '_', not starting with a separator");
            Err(CatalogError::ValidationError(msg))
        }
    }

    /// The identifier as text.
    pub fn tenant_id(&self) -> (r: &str)
        ensures
            r@ == self@,
    {
        self.tenant_id.as_str()
    }
}

/// Access level granted to a tenant API key.
#[derive(Clone, Copy, Debug, PartialEq, Eq, Structural)]
pub enum TenantRole {
    Admin,
    Editor,
    Viewer,
}

/// Reading is open to every role.
pub open spec fn role_can_read(r: TenantRole) -> bool {
    true
}

/// Writing needs Editor or Admin.
pub open spec fn role_can_write(r: TenantRole) -> bool {
    r == TenantRole::Editor || r == TenantRole::Admin
}

/// Deleting is reserved to Admin.
pub open spec fn role_can_delete(r: TenantRole) -> bool {
    r == TenantRole::Admin
}

/// Managing API keys is reserved to Admin.
pub open spec fn role_can_manage_keys(r: TenantRole) -> bool {
    r == TenantRole::Admin
}

/// The lowercase name of a role.
pub open spec fn role_name(r: TenantRole) -> Seq<char> {
    match r {
        TenantRole::Admin => "admin"@,
        TenantRole::Editor => "editor"@,
        TenantRole::Viewer => "viewer"@,
    }
}

impl TenantRole {
    pub fn can_read(&self) -> (r: bool)
        ensures
            r == role_can_read(*self),
    {
        true
    }

    pub fn can_write(&self) -> (r: bool)
        ensures
            r == role_can_write(*self),
    {
        match self {
            TenantRole::Admin | TenantRole::Editor => true,
            TenantRole::Viewer => false,
        }
    }

    pub fn can_delete(&self) -> (r: bool)
        ensures
            r == role_can_delete(*self),
    {
        match self {
            TenantRole::Admin => true,
            _ => false,
        }
    }

    pub fn can_manage_keys(&self) -> (r: bool)
        ensures
            r == role_can_manage_keys(*self),
    {
        match self {
            TenantRole::Admin => true,
            _ => false,
        }
    }

    /// The lowercase name of the role.
    pub fn as_str(&self) -> (r: &'static str)
        ensures
            r@ == role_name(*self),
    {
        proof {
            reveal_strlit("admin");
            reveal_strlit("editor");
            reveal_strlit("viewer");
        }
        match self {
            TenantRole::Admin => "admin",
            TenantRole::Editor => "editor",
            TenantRole::Viewer => "viewer",
        }
    }
}

/// A tenant API key that the control plane accepted.
#[derive(Clone, Debug)]
pub struct ValidatedTenantKey {
    pub key_hash: String,
    pub tenant_id: String,
    pub name: String,
    pub role: TenantRole,
}

/// How the tenant of a request was resolved.
#[derive(Clone, Copy, Debug, PartialEq, Eq, Structural)]
pub enum TenantSource {
    /// From a tenant API key.
    ApiKey,
    /// From the `X-Tenant-ID` header alone.
    Header,
    /// From a tenant API key and a matching header.
    Both,
}

/// What a resolved tenant says: who, with which role, from which credential.
pub struct TenantIdentity {
    pub tenant_id: Seq<char>,
    pub role: Option<TenantRole>,
    pub source: TenantSource,
}

/// The role a request acts with: the resolved one, or Viewer without one.
pub open spec fn effective_role_of(role: Option<TenantRole>) -> TenantRole {
    match role {
        Some(r) => r,
        None => TenantRole::Viewer,
    }
}

/// The tenant a request acts for, once resolution succeeded.
#[derive(Clone, Debug)]
pub struct ResolvedTenant {
    context: TenantContext,
    role: Option<TenantRole>,
    source: TenantSource,
}

impl View for ResolvedTenant {
    type V = TenantIdentity;

    closed spec fn view(&self) -> TenantIdentity {
        TenantIdentity { tenant_id: self.context@, role: self.role, source: self.source }
    }
}

/// A resolved identity is well formed when its tenant identifier meets the
/// policy and a missing role only comes with header resolution.
pub open spec fn identity_wf(t: TenantIdentity) -> bool {
    valid_tenant_id(t.tenant_id) && (t.role is None ==> t.source == TenantSource::Header)
}

impl ResolvedTenant {
    pub closed spec fn wf(&self) -> bool {
        self.context.wf() && identity_wf(self@)
    }

    /// Resolution from a tenant API key alone.
    pub fn from_api_key(key: &ValidatedTenantKey) -> (r: Result<ResolvedTenant, String>)
        ensures
            r is Ok <==> valid_tenant_id(key.tenant_id@),
            r matches Ok(t) ==> t.wf() && t@ == (TenantIdentity {
                tenant_id: key.tenant_id@,
                role: Some(key.role),
                source: TenantSource::ApiKey,
            }),
    {
        match TenantContext::new(key.tenant_id.as_str()) {
            Ok(context) => Ok(ResolvedTenant { context, role: Some(key.role), source: TenantSource::ApiKey }),
            Err(e) => {
                let mut msg = String::from_str("Invalid tenant ID from API key: ");
                msg.append(e.message());
                Err(msg)
            },
        }
    }

    /// Resolution from the `X-Tenant-ID` header alone; carries no role.
    pub fn from_header(tenant_id: &str) -> (r: Result<ResolvedTenant, String>)
        ensures
            r is Ok <==> valid_tenant_id(tenant_id@),
            r matches Ok(t) ==> t.wf() && t@ == (TenantIdentity {
                tenant_id: tenant_id@,
                role: None,
                source: TenantSource::Header,
            }),
    {
        match TenantContext::new(tenant_id) {
            Ok(context) => Ok(ResolvedTenant { context, role: None, source: TenantSource::Header }),
            Err(e) => {
                let mut msg = String::from_str("Invalid tenant ID in header: ");
                msg.append(e.message());
                Err(msg)
            },
        }
    }

    /// Resolution from a tenant API key and a header naming the same tenant.
    pub fn from_both(key: &ValidatedTenantKey) -> (r: Result<ResolvedTenant, String>)
        ensures
            r is Ok <==> valid_tenant_id(key.tenant_id@),
            r matches Ok(t) ==> t.wf() && t@ == (TenantIdentity {
                tenant_id: key.tenant_id@,
                role: Some(key.role),
                source: TenantSource::Both,
            }),
    {
        match TenantContext::new(key.tenant_id.as_str()) {
            Ok(context) => Ok(ResolvedTenant { context, role: Some(key.role), source: TenantSource::Both }),
            Err(e) => {
                let mut msg = String::from_str("Invalid tenant ID: ");
                msg.append(e.message());
                Err(msg)
            },
        }
    }

    /// Builds a resolved tenant directly, for tests and fixtures.
    pub fn for_testing(tenant_id: &str, role: Option<TenantRole>, source: TenantSource) -> (r: ResolvedTenant)
        requires
            valid_tenant_id(tenant_id@),
            role is None ==> source == TenantSource::Header,
        ensures
            r.wf(),
            r@ == (TenantIdentity { tenant_id: tenant_id@, role, source }),
    {
        let context = TenantContext { tenant_id: tenant_id.to_owned() };
        ResolvedTenant { context, role, source }
    }

    pub fn tenant_id(&self) -> (r: &str)
        ensures
            r@ == self@.tenant_id,
    {
        self.context.tenant_id()
    }

    pub fn context(&self) -> (r: &TenantContext)
        ensures
            r@ == self@.tenant_id,
    {
        &self.context
    }

    pub fn role(&self) -> (r: Option<TenantRole>)
        ensures
            r == self@.role,
    {
        self.role
    }

    pub fn source(&self) -> (r: TenantSource)
        ensures
            r == self@.source,
    {
        self.source
    }

    /// The resolved role, or Viewer when resolution carried none.
    pub fn effective_role(&self) -> (r: TenantRole)
        ensures
            r == effective_role_of(self@.role),
    {
        match self.role {
            Some(r) => r,
            None => TenantRole::Viewer,
        }
    }

    pub fn can_read(&self) -> (r: bool)
        ensures
            r == role_can_read(effective_role_of(self@.role)),
    {
        self.effective_role().can_read()
    }

    pub fn can_write(&self) -> (r: bool)
        ensures
            r == role_can_write(effective_role_of(self@.role)),
    {
        self.effective_role().can_write()
    }

    pub fn can_delete(&self) -> (r: bool)
        ensures
            r == role_can_delete(effective_role_of(self@.role)),
    {
        self.effective_role().can_delete()
    }

    pub fn can_manage_keys(&self) -> (r: bool)
        ensures
            r == role_can_manage_keys(effective_role_of(self@.role)),
    {
        self.effective_role().can_manage_keys()
    }

    /// `tenant(source)`, as in `acme-corp(api_key)`.
    pub fn to_display_string(&self) -> (r: String)
        ensures
            r@ == self@.tenant_id + "("@ + source_name(self@.source) + ")"@,
    {
        let mut s = self.context.tenant_id().to_owned();
        s.append("(");
        s.append(self.source.as_str());
        s.append(")");
        s
    }
}

/// The name of a resolution source.
pub open spec fn source_name(s: TenantSource) -> Seq<char> {
    match s {
        TenantSource::ApiKey => "api_key"@,
        TenantSource::Header => "header"@,
        TenantSource::Both => "both"@,
    }
}

impl TenantSource {
    pub fn as_str(&self) -> (r: &'static str)
        ensures
            r@ == source_name(*self),
    {
        proof {
            reveal_strlit("api_key");
            reveal_strlit("header");
            reveal_strlit("both");
        }
        match self {
            TenantSource::ApiKey => "api_key",
            TenantSource::Header => "header",
            TenantSource::Both => "both",
        }
    }
}

/// Identifiers that are too short, hold a character outside the policy, or
/// start with a separator are all refused.
pub proof fn lemma_malformed_tenant_ids(s: Seq<char>, i: int)
    ensures
        s.len() < MIN_TENANT_ID_LEN ==> !valid_tenant_id(s),
        s.len() > MAX_TENANT_ID_LEN ==> !valid_tenant_id(s),
        (0 <= i < s.len() && !is_tenant_id_char(s[i])) ==> !valid_tenant_id(s),
        (s.len() > 0 && is_separator(s[0])) ==> !valid_tenant_id(s),
{
}

/// The capability table: Viewer reads; Editor reads and writes; Admin also
/// deletes and manages keys; no other role deletes or manages keys.
pub proof fn lemma_role_capabilities(r: TenantRole)
    ensures
        role_can_read(r),
        role_can_write(r) <==> (r == TenantRole::Editor || r == TenantRole::Admin),
        role_can_delete(r) <==> r == TenantRole::Admin,
        role_can_manage_keys(r) <==> r == TenantRole::Admin,
        r == TenantRole::Viewer ==> !role_can_write(r) && !role_can_delete(r) && !role_can_manage_keys(r),
        r == TenantRole::Editor ==> role_can_write(r) && !role_can_delete(r) && !role_can_manage_keys(r),
        r == TenantRole::Admin ==> role_can_write(r) && role_can_delete(r) && role_can_manage_keys(r),
{
}

} // verus!
