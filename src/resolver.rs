use vstd::prelude::*;
use vstd::string::*;
use crate::tenant::{
    effective_role_of, identity_wf, role_can_read, role_can_write, valid_tenant_id,
    ResolvedTenant, TenantIdentity, TenantRole, TenantSource, ValidatedTenantKey,
};
use crate::text::{has_prefix, starts_with, suffix_from, trim_of, trim_str};

verus! {

/// Settings of tenant resolution.
#[derive(Clone, Debug)]
pub struct TenantResolverConfig {
    /// Accept `X-Tenant-ID` without a tenant API key. Off by default.
    pub allow_header_only_resolution: bool,
}

impl TenantResolverConfig {
    /// A configuration that accepts header-only resolution.
    pub fn with_header_resolution() -> (r: TenantResolverConfig)
        ensures
            r.allow_header_only_resolution,
    {
        TenantResolverConfig { allow_header_only_resolution: true }
    }
}

impl Default for TenantResolverConfig {
    /// The secure default: header-only resolution is refused.
    fn default() -> (r: TenantResolverConfig)
        ensures
            !r.allow_header_only_resolution,
    {
        TenantResolverConfig { allow_header_only_resolution: false }
    }
}

/// Why a request was refused.
#[derive(Clone, Copy, Debug, PartialEq, Eq, Structural)]
pub enum TenantErrorKind {
    /// Malformed tenant identifier (400).
    BadRequest,
    /// Missing, invalid or refused credential (401).
    Unauthorized,
    /// Authenticated but not entitled (403).
    Forbidden,
    /// Unknown tenant (404).
    NotFound,
    /// A collaborator failed (500).
    InternalError,
}

/// The HTTP status of each kind of refusal.
pub open spec fn status_of(k: TenantErrorKind) -> u16 {
    match k {
        TenantErrorKind::BadRequest => 400,
        TenantErrorKind::Unauthorized => 401,
        TenantErrorKind::Forbidden => 403,
        TenantErrorKind::NotFound => 404,
        TenantErrorKind::InternalError => 500,
    }
}

impl TenantErrorKind {
    pub fn status_code(&self) -> (r: u16)
        ensures
            r == status_of(*self),
    {
        match self {
            TenantErrorKind::BadRequest => 400,
            TenantErrorKind::Unauthorized => 401,
            TenantErrorKind::Forbidden => 403,
            TenantErrorKind::NotFound => 404,
            TenantErrorKind::InternalError => 500,
        }
    }

    /// The short label of the error body's `error` field.
    pub fn label(&self) -> (r: &'static str)
        ensures
            r@ == match *self {
                TenantErrorKind::BadRequest => "Bad Request"@,
                TenantErrorKind::Unauthorized => "Unauthorized"@,
                TenantErrorKind::Forbidden => "Forbidden"@,
                TenantErrorKind::NotFound => "Not Found"@,
                TenantErrorKind::InternalError => "Internal Server Error"@,
            },
    {
        match self {
            TenantErrorKind::BadRequest => "Bad Request",
            TenantErrorKind::Unauthorized => "Unauthorized",
            TenantErrorKind::Forbidden => "Forbidden",
            TenantErrorKind::NotFound => "Not Found",
            TenantErrorKind::InternalError => "Internal Server Error",
        }
    }
}

/// A refusal, with the text shown to the client.
#[derive(Clone, Debug)]
pub struct TenantError {
    pub kind: TenantErrorKind,
    pub message: String,
}

pub(crate) fn tenant_error(kind: TenantErrorKind, message: &str) -> (r: TenantError)
    ensures
        r.kind == kind,
        r.message@ == message@,
{
    TenantError { kind, message: message.to_owned() }
}

/// What the control plane answered about a tenant API key.
#[derive(Clone, Debug)]
pub enum KeyValidation {
    /// The key is valid.
    Valid(ValidatedTenantKey),
    /// The key is unknown, revoked or expired.
    Invalid,
    /// The control plane could not answer.
    Failed,
}

/// Lifecycle status of a tenant.
#[derive(Clone, Copy, Debug, PartialEq, Eq, Structural)]
pub enum TenantStatus {
    Active,
    Suspended,
    PendingDeletion,
    Deleted,
}

/// Only an active tenant may be served.
pub open spec fn status_operational(s: TenantStatus) -> bool {
    s == TenantStatus::Active
}

/// The lowercase name of a status.
pub open spec fn status_name(s: TenantStatus) -> Seq<char> {
    match s {
        TenantStatus::Active => "active"@,
        TenantStatus::Suspended => "suspended"@,
        TenantStatus::PendingDeletion => "pending_deletion"@,
        TenantStatus::Deleted => "deleted"@,
    }
}

impl TenantStatus {
    pub fn is_operational(&self) -> (r: bool)
        ensures
            r == status_operational(*self),
    {
        match self {
            TenantStatus::Active => true,
            _ => false,
        }
    }

    pub fn as_str(&self) -> (r: &'static str)
        ensures
            r@ == status_name(*self),
    {
        match self {
            TenantStatus::Active => "active",
            TenantStatus::Suspended => "suspended",
            TenantStatus::PendingDeletion => "pending_deletion",
            TenantStatus::Deleted => "deleted",
        }
    }
}

/// What the control plane answered about a tenant identifier.
#[derive(Clone, Copy, Debug, PartialEq, Eq, Structural)]
pub enum TenantLookup {
    /// The tenant exists, with this status.
    Found(TenantStatus),
    /// No such tenant.
    NotFound,
    /// The control plane could not answer.
    Failed,
}

/// The next thing to do for a request's tenant.
#[derive(Clone, Debug)]
pub enum ResolutionStep {
    /// Ask the control plane to validate this tenant API key.
    ValidateKey(String),
    /// Ask the control plane about this tenant identifier.
    LookupTenant(String),
    /// Refuse the request.
    Reject(TenantError),
    /// Let the request through without a tenant.
    PassThrough,
}

/// The shape of a resolution step, over plain values.
pub enum PlannedStep {
    ValidateKey(Seq<char>),
    LookupTenant(Seq<char>),
    Reject(TenantErrorKind),
    PassThrough,
}

impl View for ResolutionStep {
    type V = PlannedStep;

    open spec fn view(&self) -> PlannedStep {
        match self {
            ResolutionStep::ValidateKey(k) => PlannedStep::ValidateKey(k@),
            ResolutionStep::LookupTenant(t) => PlannedStep::LookupTenant(t@),
            ResolutionStep::Reject(e) => PlannedStep::Reject(e.kind),
            ResolutionStep::PassThrough => PlannedStep::PassThrough,
        }
    }
}

/// Prefix of tenant-scoped API keys.
pub open spec fn tenant_key_prefix() -> Seq<char> {
    "mft_"@
}

/// Prefix of global API keys, which carry no tenant.
pub open spec fn global_key_prefix() -> Seq<char> {
    "mf_"@
}

/// The characters of an optional string.
pub open spec fn opt_chars(o: Option<String>) -> Option<Seq<char>> {
    match o {
        Some(s) => Some(s@),
        None => None,
    }
}

/// Whether a credential is a tenant-scoped API key.
pub open spec fn is_tenant_key(key: Option<Seq<char>>) -> bool {
    key matches Some(k) && has_prefix(k, tenant_key_prefix())
}

/// The first step of enforcing resolution.
pub open spec fn resolution_plan(
    allow_header_only: bool,
    key: Option<Seq<char>>,
    header: Option<Seq<char>>,
) -> PlannedStep {
    if is_tenant_key(key) {
        PlannedStep::ValidateKey(key->0)
    } else if header is Some {
        if !allow_header_only {
            PlannedStep::Reject(TenantErrorKind::Unauthorized)
        } else if !valid_tenant_id(header->0) {
            PlannedStep::Reject(TenantErrorKind::BadRequest)
        } else {
            PlannedStep::LookupTenant(header->0)
        }
    } else {
        PlannedStep::PassThrough
    }
}

/// The first step of non-enforcing resolution: never a refusal.
pub open spec fn identity_plan(
    allow_header_only: bool,
    key: Option<Seq<char>>,
    header: Option<Seq<char>>,
) -> PlannedStep {
    if is_tenant_key(key) {
        PlannedStep::ValidateKey(key->0)
    } else if header is Some && allow_header_only {
        PlannedStep::LookupTenant(header->0)
    } else {
        PlannedStep::PassThrough
    }
}

/// Whether a key is tenant-scoped (`mft_`); global keys (`mf_`) are not.
pub fn is_tenant_api_key(key: &str) -> (r: bool)
    ensures
        r == has_prefix(key@, tenant_key_prefix()),
{
    starts_with(key, "mft_")
}

/// Starts enforcing resolution from the request's credentials.
pub fn begin_resolution(
    config: &TenantResolverConfig,
    api_key: &Option<String>,
    header_tenant: &Option<String>,
) -> (r: ResolutionStep)
    ensures
        r@ == resolution_plan(
            config.allow_header_only_resolution,
            opt_chars(*api_key),
            opt_chars(*header_tenant),
        ),
{
    if let Some(key) = api_key {
        if is_tenant_api_key(key.as_str()) {
            return ResolutionStep::ValidateKey(key.clone());
        }
    }
    match header_tenant {
        Some(tenant_id) => {
            if !config.allow_header_only_resolution {
                ResolutionStep::Reject(
                    tenant_error(
                        TenantErrorKind::Unauthorized,
                        "Tenant API key required. Header-only resolution is disabled.",
                    ),
                )
            } else if !crate::tenant::is_valid_tenant_id(tenant_id.as_str()) {
                let mut msg = String::from_str("Invalid tenant ID format: '");
                msg.append(tenant_id.as_str());
                msg.append("'");
                ResolutionStep::Reject(TenantError { kind: TenantErrorKind::BadRequest, message: msg })
            } else {
                ResolutionStep::LookupTenant(tenant_id.clone())
            }
        },
        None => ResolutionStep::PassThrough,
    }
}

/// Starts non-enforcing resolution: the same checks, but nothing is refused.
pub fn begin_identity(
    config: &TenantResolverConfig,
    api_key: &Option<String>,
    header_tenant: &Option<String>,
) -> (r: ResolutionStep)
    ensures
        r@ == identity_plan(
            config.allow_header_only_resolution,
            opt_chars(*api_key),
            opt_chars(*header_tenant),
        ),
{
    if let Some(key) = api_key {
        if is_tenant_api_key(key.as_str()) {
            return ResolutionStep::ValidateKey(key.clone());
        }
    }
    match header_tenant {
        Some(tenant_id) => {
            if config.allow_header_only_resolution {
                ResolutionStep::LookupTenant(tenant_id.clone())
            } else {
                ResolutionStep::PassThrough
            }
        },
        None => ResolutionStep::PassThrough,
    }
}

/// The identity built by a successful resolution.
pub open spec fn identity(tenant_id: Seq<char>, role: Option<TenantRole>, source: TenantSource) -> TenantIdentity {
    TenantIdentity { tenant_id, role, source }
}

/// What a resolution result says, over plain values.
pub open spec fn outcome_of(r: Result<ResolvedTenant, TenantError>) -> Result<TenantIdentity, TenantErrorKind> {
    match r {
        Ok(t) => Ok(t@),
        Err(e) => Err(e.kind),
    }
}

/// The text of a refusal for a key and a header naming different tenants.
pub open spec fn mismatch_message(key_tenant: Seq<char>, header_tenant: Seq<char>) -> Seq<char> {
    "Tenant ID mismatch: API key belongs to '"@ + key_tenant + "' but header specifies '"@
        + header_tenant + "'"@
}

/// How enforcing resolution ends once the control plane judged the key.
pub open spec fn key_outcome(v: KeyValidation, header: Option<Seq<char>>) -> Result<TenantIdentity, TenantErrorKind> {
    match v {
        KeyValidation::Invalid => Err(TenantErrorKind::Unauthorized),
        KeyValidation::Failed => Err(TenantErrorKind::InternalError),
        KeyValidation::Valid(k) => {
            if header matches Some(h) && h != k.tenant_id@ {
                Err(TenantErrorKind::Forbidden)
            } else if !valid_tenant_id(k.tenant_id@) {
                Err(TenantErrorKind::InternalError)
            } else if header is Some {
                Ok(identity(k.tenant_id@, Some(k.role), TenantSource::Both))
            } else {
                Ok(identity(k.tenant_id@, Some(k.role), TenantSource::ApiKey))
            }
        },
    }
}

/// How enforcing resolution ends once the control plane looked up the header's tenant.
pub open spec fn header_outcome(tenant_id: Seq<char>, lookup: TenantLookup) -> Result<TenantIdentity, TenantErrorKind> {
    if !valid_tenant_id(tenant_id) {
        Err(TenantErrorKind::BadRequest)
    } else {
        match lookup {
            TenantLookup::Found(status) => {
                if status_operational(status) {
                    Ok(identity(tenant_id, None, TenantSource::Header))
                } else {
                    Err(TenantErrorKind::Forbidden)
                }
            },
            TenantLookup::NotFound => Err(TenantErrorKind::NotFound),
            TenantLookup::Failed => Err(TenantErrorKind::InternalError),
        }
    }
}

/// Ends enforcing resolution with the control plane's verdict on the key.
/// A key and a header naming different tenants are always refused; the
/// text of a collaborator failure never repeats the key.
pub fn complete_key_resolution(validation: KeyValidation, header_tenant: &Option<String>) -> (r: Result<ResolvedTenant, TenantError>)
    ensures
        outcome_of(r) == key_outcome(validation, opt_chars(*header_tenant)),
        r matches Ok(t) ==> t.wf(),
        validation is Invalid ==> (r matches Err(e) && e.message@ == "Invalid or expired API key"@),
        validation is Failed ==> (r matches Err(e) && e.message@ == "Failed to validate API key"@),
        validation matches KeyValidation::Valid(k) ==> (*header_tenant matches Some(h) ==> (h@ != k.tenant_id@
            ==> (r matches Err(e) && e.message@ == mismatch_message(k.tenant_id@, h@)))),
{
    match validation {
        KeyValidation::Invalid => Err(tenant_error(TenantErrorKind::Unauthorized, "Invalid or expired API key")),
        KeyValidation::Failed => Err(tenant_error(TenantErrorKind::InternalError, "Failed to validate API key")),
        KeyValidation::Valid(key) => {
            match header_tenant {
                Some(header_id) => {
                    if !header_id.eq(&key.tenant_id) {
                        let mut msg = String::from_str("Tenant ID mismatch: API key belongs to '");
                        msg.append(key.tenant_id.as_str());
                        msg.append("' but header specifies '");
                        msg.append(header_id.as_str());
                        msg.append("'");
                        return Err(TenantError { kind: TenantErrorKind::Forbidden, message: msg });
                    }
                    match ResolvedTenant::from_both(&key) {
                        Ok(t) => Ok(t),
                        Err(m) => Err(TenantError { kind: TenantErrorKind::InternalError, message: m }),
                    }
                },
                None => {
                    match ResolvedTenant::from_api_key(&key) {
                        Ok(t) => Ok(t),
                        Err(m) => Err(TenantError { kind: TenantErrorKind::InternalError, message: m }),
                    }
                },
            }
        },
    }
}

/// Ends enforcing header-only resolution with the control plane's lookup.
pub fn complete_header_resolution(tenant_id: &str, lookup: TenantLookup) -> (r: Result<ResolvedTenant, TenantError>)
    ensures
        outcome_of(r) == header_outcome(tenant_id@, lookup),
        r matches Ok(t) ==> t.wf(),
        (valid_tenant_id(tenant_id@) && lookup is Failed) ==> (r matches Err(e) && e.message@ == "Failed to verify tenant"@),
{
    match ResolvedTenant::from_header(tenant_id) {
        Err(m) => {
            let mut msg = String::from_str("Invalid tenant ID format: ");
            msg.append(m.as_str());
            Err(TenantError { kind: TenantErrorKind::BadRequest, message: msg })
        },
        Ok(resolved) => {
            match lookup {
                TenantLookup::Found(status) => {
                    if status.is_operational() {
                        Ok(resolved)
                    } else {
                        let mut msg = String::from_str("Tenant '");
                        msg.append(tenant_id);
                        msg.append("' is not active (status: ");
                        msg.append(status.as_str());
                        msg.append(")");
                        Err(TenantError { kind: TenantErrorKind::Forbidden, message: msg })
                    }
                },
                TenantLookup::NotFound => {
                    let mut msg = String::from_str("Tenant '");
                    msg.append(tenant_id);
                    msg.append("' not found");
                    Err(TenantError { kind: TenantErrorKind::NotFound, message: msg })
                },
                TenantLookup::Failed => Err(tenant_error(TenantErrorKind::InternalError, "Failed to verify tenant")),
            }
        },
    }
}

/// The identity that non-enforcing resolution attaches after key validation.
pub open spec fn key_identity(v: KeyValidation, header: Option<Seq<char>>) -> Option<TenantIdentity> {
    match v {
        KeyValidation::Valid(k) => {
            if (header matches Some(h) && h != k.tenant_id@) || !valid_tenant_id(k.tenant_id@) {
                None
            } else {
                Some(identity(k.tenant_id@, Some(k.role), TenantSource::ApiKey))
            }
        },
        _ => None,
    }
}

/// The identity that non-enforcing resolution attaches after a tenant lookup.
pub open spec fn header_identity(tenant_id: Seq<char>, lookup: TenantLookup) -> Option<TenantIdentity> {
    if valid_tenant_id(tenant_id) && (lookup matches TenantLookup::Found(s) && status_operational(s)) {
        Some(identity(tenant_id, None, TenantSource::Header))
    } else {
        None
    }
}

/// The characters of an optional resolved tenant.
pub open spec fn opt_identity(t: Option<ResolvedTenant>) -> Option<TenantIdentity> {
    match t {
        Some(t) => Some(t@),
        None => None,
    }
}

/// Non-enforcing counterpart of `complete_key_resolution`: any failure
/// leaves the request without a tenant.
pub fn identity_from_key(validation: KeyValidation, header_tenant: &Option<String>) -> (r: Option<ResolvedTenant>)
    ensures
        opt_identity(r) == key_identity(validation, opt_chars(*header_tenant)),
        r matches Some(t) ==> t.wf(),
{
    match validation {
        KeyValidation::Valid(key) => {
            if let Some(header_id) = header_tenant {
                if !header_id.eq(&key.tenant_id) {
                    return None;
                }
            }
            match ResolvedTenant::from_api_key(&key) {
                Ok(t) => Some(t),
                Err(_) => None,
            }
        },
        _ => None,
    }
}

/// Non-enforcing counterpart of `complete_header_resolution`.
pub fn identity_from_header(tenant_id: &str, lookup: TenantLookup) -> (r: Option<ResolvedTenant>)
    ensures
        opt_identity(r) == header_identity(tenant_id@, lookup),
        r matches Some(t) ==> t.wf(),
{
    match lookup {
        TenantLookup::Found(status) => {
            if status.is_operational() {
                match ResolvedTenant::from_header(tenant_id) {
                    Ok(t) => Some(t),
                    Err(_) => None,
                }
            } else {
                None
            }
        },
        _ => None,
    }
}

/// The token of an `Authorization` header value, when it is a bearer credential.
pub open spec fn bearer_token(authorization: Seq<char>) -> Option<Seq<char>> {
    if has_prefix(authorization, "Bearer "@) {
        Some(trim_of(authorization.subrange(7, authorization.len() as int)))
    } else {
        None
    }
}

/// The `X-Tenant-ID` value once trimmed, when anything is left.
pub open spec fn tenant_header_value(raw: Seq<char>) -> Option<Seq<char>> {
    if trim_of(raw).len() == 0 {
        None
    } else {
        Some(trim_of(raw))
    }
}

/// Reads the API key from an `Authorization: Bearer <key>` header value.
pub fn extract_api_key(authorization: Option<&str>) -> (r: Option<String>)
    ensures
        opt_chars(r) == match authorization {
            Some(a) => bearer_token(a@),
            None => None,
        },
{
    match authorization {
        None => None,
        Some(a) => {
            proof {
                reveal_strlit("Bearer ");
            }
            if starts_with(a, "Bearer ") {
                let rest = suffix_from(a, 7);
                Some(trim_str(rest.as_str()))
            } else {
                None
            }
        },
    }
}

/// Reads the tenant identifier from an `X-Tenant-ID` header value.
pub fn extract_tenant_header(raw: Option<&str>) -> (r: Option<String>)
    ensures
        opt_chars(r) == match raw {
            Some(v) => tenant_header_value(v@),
            None => None,
        },
{
    match raw {
        None => None,
        Some(v) => {
            let t = trim_str(v);
            if t.as_str().is_empty() {
                None
            } else {
                Some(t)
            }
        },
    }
}

/// A tenant-scoped key that validates to one tenant, sent with a header
/// naming another, is always refused with 403: resolution first asks for the
/// key's validation and then refuses, whichever tenant each names.
pub proof fn lemma_conflicting_tenants_forbidden(
    allow_header_only: bool,
    key: Seq<char>,
    validated: ValidatedTenantKey,
    header: Seq<char>,
)
    requires
        has_prefix(key, tenant_key_prefix()),
        header != validated.tenant_id@,
    ensures
        resolution_plan(allow_header_only, Some(key), Some(header)) == PlannedStep::ValidateKey(key),
        key_outcome(KeyValidation::Valid(validated), Some(header)) == Err::<TenantIdentity, TenantErrorKind>(
            TenantErrorKind::Forbidden,
        ),
        key_identity(KeyValidation::Valid(validated), Some(header)) is None,
{
}

/// A tenant-scoped key that validates to a well-formed tenant, with a header
/// naming the same tenant or no header, resolves to that tenant with the
/// key's role, from `Both` or `ApiKey`, and acts with that role.
pub proof fn lemma_key_resolution_carries_role(
    allow_header_only: bool,
    key: Seq<char>,
    validated: ValidatedTenantKey,
    header: Option<Seq<char>>,
)
    requires
        has_prefix(key, tenant_key_prefix()),
        valid_tenant_id(validated.tenant_id@),
        header matches Some(h) ==> h == validated.tenant_id@,
    ensures
        resolution_plan(allow_header_only, Some(key), header) == PlannedStep::ValidateKey(key),
        key_outcome(KeyValidation::Valid(validated), header) matches Ok(t) && {
            &&& t.tenant_id == validated.tenant_id@
            &&& t.role == Some(validated.role)
            &&& t.source == (if header is Some { TenantSource::Both } else { TenantSource::ApiKey })
            &&& effective_role_of(t.role) == validated.role
            &&& identity_wf(t)
        },
{
}

/// With header-only resolution disabled, a request whose only credential is
/// `X-Tenant-ID` is refused with 401 and never gets a tenant, enforced or not.
pub proof fn lemma_header_only_disabled_unauthorized(key: Option<Seq<char>>, header: Seq<char>)
    requires
        !is_tenant_key(key),
    ensures
        resolution_plan(false, key, Some(header)) == PlannedStep::Reject(TenantErrorKind::Unauthorized),
        identity_plan(false, key, Some(header)) == PlannedStep::PassThrough,
{
}

/// With header-only resolution enabled, a well-formed header naming an
/// operational tenant resolves without a role, acting as Viewer: it may
/// read and may not write.
pub proof fn lemma_header_only_enabled_viewer(key: Option<Seq<char>>, header: Seq<char>, status: TenantStatus)
    requires
        !is_tenant_key(key),
        valid_tenant_id(header),
        status_operational(status),
    ensures
        resolution_plan(true, key, Some(header)) == PlannedStep::LookupTenant(header),
        header_outcome(header, TenantLookup::Found(status)) matches Ok(t) && {
            &&& t.tenant_id == header
            &&& t.role is None
            &&& t.source == TenantSource::Header
            &&& effective_role_of(t.role) == TenantRole::Viewer
            &&& role_can_read(effective_role_of(t.role))
            &&& !role_can_write(effective_role_of(t.role))
        },
{
}

} // verus!
