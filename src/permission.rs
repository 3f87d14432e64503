use vstd::prelude::*;
use vstd::string::*;
use crate::resolver::{tenant_error, TenantError, TenantErrorKind};
use crate::tenant::{
    effective_role_of, role_can_delete, role_can_manage_keys, role_can_write, role_name,
    ResolvedTenant,
};

verus! {

/// HTTP status of a refused permission check.
pub const FORBIDDEN: u16 = 403;

/// Body of a refused permission check.
#[derive(Clone, Debug)]
pub struct RbacErrorResponse {
    pub error: String,
    pub request_id: String,
}

/// The role a request acts with, when it has a tenant.
pub open spec fn acting_role(t: ResolvedTenant) -> crate::tenant::TenantRole {
    effective_role_of(t@.role)
}

/// Text of a refused write.
pub open spec fn write_denied_message(role: Seq<char>) -> Seq<char> {
    "Write permission denied. Write permission required (Editor or Admin). Current role: "@ + role
}

/// Text of a refused delete.
pub open spec fn delete_denied_message(role: Seq<char>) -> Seq<char> {
    "Delete permission denied. Delete permission required (Admin). Current role: "@ + role
}

fn denial(prefix: &str, t: &ResolvedTenant, request_id: &str) -> (r: (u16, RbacErrorResponse))
    ensures
        r.0 == FORBIDDEN,
        r.1.error@ == prefix@ + role_name(acting_role(*t)),
        r.1.request_id@ == request_id@,
{
    let mut error = prefix.to_owned();
    error.append(t.effective_role().as_str());
    (FORBIDDEN, RbacErrorResponse { error, request_id: request_id.to_owned() })
}

/// Guards a write. Without any tenant context (single-tenant deployments)
/// access is granted; otherwise the acting role must be able to write.
pub fn require_write_permission(tenant: Option<&ResolvedTenant>, request_id: &str) -> (r: Result<(), (u16, RbacErrorResponse)>)
    ensures
        r is Ok <==> (tenant matches Some(t) ==> role_can_write(acting_role(*t))),
        r matches Err(e) ==> e.0 == FORBIDDEN && e.1.request_id@ == request_id@
            && (tenant matches Some(t) && e.1.error@ == write_denied_message(role_name(acting_role(*t)))),
{
    match tenant {
        None => Ok(()),
        Some(t) => {
            if t.can_write() {
                Ok(())
            } else {
                Err(denial(
                    "Write permission denied. Write permission required (Editor or Admin). Current role: ",
                    t,
                    request_id,
                ))
            }
        },
    }
}

/// Guards a delete. Without any tenant context access is granted; otherwise
/// the acting role must be Admin.
pub fn require_delete_permission(tenant: Option<&ResolvedTenant>, request_id: &str) -> (r: Result<(), (u16, RbacErrorResponse)>)
    ensures
        r is Ok <==> (tenant matches Some(t) ==> role_can_delete(acting_role(*t))),
        r matches Err(e) ==> e.0 == FORBIDDEN && e.1.request_id@ == request_id@
            && (tenant matches Some(t) && e.1.error@ == delete_denied_message(role_name(acting_role(*t)))),
{
    match tenant {
        None => Ok(()),
        Some(t) => {
            if t.can_delete() {
                Ok(())
            } else {
                Err(denial(
                    "Delete permission denied. Delete permission required (Admin). Current role: ",
                    t,
                    request_id,
                ))
            }
        },
    }
}

/// Requires that the request has a tenant: 401 otherwise.
pub fn require_tenant(tenant: Option<&ResolvedTenant>) -> (r: Result<(), TenantError>)
    ensures
        r is Ok <==> tenant is Some,
        r matches Err(e) ==> e.kind == TenantErrorKind::Unauthorized,
{
    match tenant {
        Some(_) => Ok(()),
        None => Err(tenant_error(
            TenantErrorKind::Unauthorized,
            "Tenant context required. Provide tenant API key or X-Tenant-ID header.",
        )),
    }
}

/// Requires a tenant whose role may manage keys: 401 without a tenant, 403
/// for a role other than Admin.
pub fn require_admin_permission(tenant: Option<&ResolvedTenant>) -> (r: Result<(), TenantError>)
    ensures
        r is Ok <==> (tenant matches Some(t) && role_can_manage_keys(acting_role(*t))),
        r matches Err(e) ==> e.kind == (if tenant is None {
            TenantErrorKind::Unauthorized
        } else {
            TenantErrorKind::Forbidden
        }),
{
    match tenant {
        None => Err(tenant_error(TenantErrorKind::Unauthorized, "Tenant context required for admin operations.")),
        Some(t) => {
            if t.can_manage_keys() {
                Ok(())
            } else {
                let mut msg = String::from_str("Admin permission required. Current role: ");
                msg.append(t.effective_role().as_str());
                Err(TenantError { kind: TenantErrorKind::Forbidden, message: msg })
            }
        },
    }
}

} // verus!
