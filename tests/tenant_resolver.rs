use catalog_gate::resolver::{
    begin_identity, begin_resolution, complete_header_resolution, complete_key_resolution,
    extract_api_key, extract_tenant_header, identity_from_header, identity_from_key,
    is_tenant_api_key, KeyValidation, ResolutionStep, TenantErrorKind, TenantLookup,
    TenantResolverConfig, TenantStatus,
};
use catalog_gate::tenant::{ResolvedTenant, TenantContext, TenantRole, TenantSource, ValidatedTenantKey};

fn key_for(tenant_id: &str, role: TenantRole) -> ValidatedTenantKey {
    ValidatedTenantKey {
        key_hash: "hash".to_string(),
        tenant_id: tenant_id.to_string(),
        name: "key".to_string(),
        role,
    }
}

#[test]
fn test_resolved_tenant_permissions() {
    let admin = ResolvedTenant::for_testing("test-tenant", Some(TenantRole::Admin), TenantSource::ApiKey);
    assert!(admin.can_read());
    assert!(admin.can_write());
    assert!(admin.can_delete());
    assert!(admin.can_manage_keys());

    let editor = ResolvedTenant::for_testing("test-tenant", Some(TenantRole::Editor), TenantSource::ApiKey);
    assert!(editor.can_read());
    assert!(editor.can_write());
    assert!(!editor.can_delete());
    assert!(!editor.can_manage_keys());

    let viewer = ResolvedTenant::for_testing("test-tenant", Some(TenantRole::Viewer), TenantSource::ApiKey);
    assert!(viewer.can_read());
    assert!(!viewer.can_write());
    assert!(!viewer.can_delete());
    assert!(!viewer.can_manage_keys());

    let header_only = ResolvedTenant::for_testing("test-tenant", None, TenantSource::Header);
    assert!(header_only.can_read());
    assert!(!header_only.can_write());
    assert!(!header_only.can_delete());
    assert!(!header_only.can_manage_keys());
}

#[test]
fn test_resolved_tenant_display() {
    let tenant = ResolvedTenant::for_testing("acme-corp", Some(TenantRole::Admin), TenantSource::ApiKey);
    assert_eq!(tenant.to_display_string(), "acme-corp(api_key)");

    let tenant = ResolvedTenant::for_testing("acme-corp", None, TenantSource::Header);
    assert_eq!(tenant.to_display_string(), "acme-corp(header)");

    let tenant = ResolvedTenant::for_testing("acme-corp", Some(TenantRole::Editor), TenantSource::Both);
    assert_eq!(tenant.to_display_string(), "acme-corp(both)");
}

#[test]
fn test_effective_role() {
    let with_role = ResolvedTenant::for_testing("test", Some(TenantRole::Admin), TenantSource::ApiKey);
    assert_eq!(with_role.effective_role(), TenantRole::Admin);

    let without_role = ResolvedTenant::for_testing("test", None, TenantSource::Header);
    assert_eq!(without_role.effective_role(), TenantRole::Viewer);
}

#[test]
fn test_tenant_source_equality() {
    assert_eq!(TenantSource::ApiKey, TenantSource::ApiKey);
    assert_ne!(TenantSource::ApiKey, TenantSource::Header);
    assert_ne!(TenantSource::Header, TenantSource::Both);
}

#[test]
fn test_resolved_tenant_accessors() {
    let tenant = ResolvedTenant::for_testing("my-tenant", Some(TenantRole::Editor), TenantSource::Both);
    assert_eq!(tenant.tenant_id(), "my-tenant");
    assert_eq!(tenant.context().tenant_id(), "my-tenant");
    assert_eq!(tenant.role(), Some(TenantRole::Editor));
    assert_eq!(tenant.source(), TenantSource::Both);
}

#[test]
fn test_resolved_tenant_from_api_key() {
    let key = ValidatedTenantKey {
        key_hash: "hash123".to_string(),
        tenant_id: "valid-tenant".to_string(),
        name: "Test Key".to_string(),
        role: TenantRole::Admin,
    };
    let resolved = ResolvedTenant::from_api_key(&key).unwrap();
    assert_eq!(resolved.tenant_id(), "valid-tenant");
    assert_eq!(resolved.role(), Some(TenantRole::Admin));
    assert_eq!(resolved.source(), TenantSource::ApiKey);
}

#[test]
fn test_resolved_tenant_from_header() {
    let resolved = ResolvedTenant::from_header("valid-tenant").unwrap();
    assert_eq!(resolved.tenant_id(), "valid-tenant");
    assert_eq!(resolved.role(), None);
    assert_eq!(resolved.source(), TenantSource::Header);

    let result = ResolvedTenant::from_header("ab");
    assert!(result.is_err());

    let result = ResolvedTenant::from_header("Invalid Tenant");
    assert!(result.is_err());
}

#[test]
fn test_resolved_tenant_from_both() {
    let key = ValidatedTenantKey {
        key_hash: "hash456".to_string(),
        tenant_id: "both-tenant".to_string(),
        name: "Both Key".to_string(),
        role: TenantRole::Viewer,
    };
    let resolved = ResolvedTenant::from_both(&key).unwrap();
    assert_eq!(resolved.tenant_id(), "both-tenant");
    assert_eq!(resolved.role(), Some(TenantRole::Viewer));
    assert_eq!(resolved.source(), TenantSource::Both);
}

#[test]
fn test_header_only_is_read_only() {
    let header_tenant = ResolvedTenant::from_header("read-only-tenant").unwrap();
    assert!(header_tenant.can_read());
    assert!(!header_tenant.can_write());
    assert!(!header_tenant.can_delete());
    assert!(!header_tenant.can_manage_keys());
    assert_eq!(header_tenant.effective_role(), TenantRole::Viewer);
}

#[test]
fn test_resolver_config_default_is_secure() {
    let config = TenantResolverConfig::default();
    assert!(!config.allow_header_only_resolution);
}

#[test]
fn test_resolver_config_with_header_resolution() {
    let config = TenantResolverConfig::with_header_resolution();
    assert!(config.allow_header_only_resolution);
}

#[test]
fn tenant_context_accepts_policy_ids_and_round_trips() {
    for id in ["abc", "acme-corp", "tenant_1", "a1-b2_c3", "0tenant"] {
        let ctx = TenantContext::new(id).unwrap();
        assert_eq!(ctx.tenant_id(), id);
    }
    let longest = "a".repeat(63);
    assert_eq!(TenantContext::new(&longest).unwrap().tenant_id(), longest);
}

#[test]
fn tenant_context_rejects_malformed_ids() {
    let too_long = "a".repeat(64);
    for id in ["", "ab", "Acme", "acme corp", "acme.corp", "-acme", "_acme", "acme@x", too_long.as_str()] {
        let err = TenantContext::new(id).unwrap_err();
        assert!(matches!(err, catalog_gate::error::CatalogError::ValidationError(_)), "{id}");
    }
}

#[test]
fn tenant_key_prefix_is_distinct_from_global_keys() {
    assert!(is_tenant_api_key("mft_abc123"));
    assert!(!is_tenant_api_key("mf_abc123"));
    assert!(!is_tenant_api_key("mft"));
    assert!(!is_tenant_api_key(""));
}

#[test]
fn bearer_and_header_extraction() {
    assert_eq!(extract_api_key(Some("Bearer  mft_key ")), Some("mft_key".to_string()));
    assert_eq!(extract_api_key(Some("Basic abc")), None);
    assert_eq!(extract_api_key(None), None);
    assert_eq!(extract_tenant_header(Some("  acme-corp ")), Some("acme-corp".to_string()));
    assert_eq!(extract_tenant_header(Some("   ")), None);
    assert_eq!(extract_tenant_header(None), None);
}

#[test]
fn conflicting_key_and_header_is_forbidden() {
    let config = TenantResolverConfig::default();
    let api_key = Some("mft_secret".to_string());
    let header = Some("tenant-b".to_string());
    match begin_resolution(&config, &api_key, &header) {
        ResolutionStep::ValidateKey(k) => assert_eq!(k, "mft_secret"),
        other => panic!("unexpected step {:?}", other),
    }
    let err = complete_key_resolution(KeyValidation::Valid(key_for("tenant-a", TenantRole::Admin)), &header).unwrap_err();
    assert_eq!(err.kind, TenantErrorKind::Forbidden);
    assert_eq!(err.kind.status_code(), 403);
    assert_eq!(
        err.message,
        "Tenant ID mismatch: API key belongs to 'tenant-a' but header specifies 'tenant-b'"
    );
    let swapped = complete_key_resolution(
        KeyValidation::Valid(key_for("tenant-b", TenantRole::Admin)),
        &Some("tenant-a".to_string()),
    )
    .unwrap_err();
    assert_eq!(swapped.kind, TenantErrorKind::Forbidden);
    assert!(identity_from_key(KeyValidation::Valid(key_for("tenant-a", TenantRole::Admin)), &header).is_none());
}

#[test]
fn matching_or_absent_header_keeps_key_role() {
    let both = complete_key_resolution(
        KeyValidation::Valid(key_for("tenant-a", TenantRole::Editor)),
        &Some("tenant-a".to_string()),
    )
    .unwrap();
    assert_eq!(both.source(), TenantSource::Both);
    assert_eq!(both.effective_role(), TenantRole::Editor);
    let only_key = complete_key_resolution(KeyValidation::Valid(key_for("tenant-a", TenantRole::Admin)), &None).unwrap();
    assert_eq!(only_key.source(), TenantSource::ApiKey);
    assert_eq!(only_key.role(), Some(TenantRole::Admin));
    assert_eq!(only_key.effective_role(), TenantRole::Admin);
}

#[test]
fn key_validation_failures() {
    let invalid = complete_key_resolution(KeyValidation::Invalid, &None).unwrap_err();
    assert_eq!(invalid.kind.status_code(), 401);
    let failed = complete_key_resolution(KeyValidation::Failed, &None).unwrap_err();
    assert_eq!(failed.kind.status_code(), 500);
    assert_eq!(failed.message, "Failed to validate API key");
    let bad_tenant = complete_key_resolution(KeyValidation::Valid(key_for("AB", TenantRole::Admin)), &None).unwrap_err();
    assert_eq!(bad_tenant.kind, TenantErrorKind::InternalError);
}

#[test]
fn header_only_disabled_is_unauthorized() {
    let config = TenantResolverConfig::default();
    let header = Some("acme-corp".to_string());
    match begin_resolution(&config, &None, &header) {
        ResolutionStep::Reject(e) => assert_eq!(e.kind.status_code(), 401),
        other => panic!("unexpected step {:?}", other),
    }
    match begin_resolution(&config, &Some("mf_global".to_string()), &header) {
        ResolutionStep::Reject(e) => assert_eq!(e.kind, TenantErrorKind::Unauthorized),
        other => panic!("unexpected step {:?}", other),
    }
    assert!(matches!(begin_identity(&config, &None, &header), ResolutionStep::PassThrough));
}

#[test]
fn header_only_enabled_resolves_viewer() {
    let config = TenantResolverConfig::with_header_resolution();
    let header = Some("acme-corp".to_string());
    match begin_resolution(&config, &None, &header) {
        ResolutionStep::LookupTenant(t) => assert_eq!(t, "acme-corp"),
        other => panic!("unexpected step {:?}", other),
    }
    let t = complete_header_resolution("acme-corp", TenantLookup::Found(TenantStatus::Active)).unwrap();
    assert_eq!(t.role(), None);
    assert_eq!(t.source(), TenantSource::Header);
    assert_eq!(t.effective_role(), TenantRole::Viewer);
    assert!(t.can_read());
    assert!(!t.can_write());
    assert!(identity_from_header("acme-corp", TenantLookup::Found(TenantStatus::Active)).is_some());
}

#[test]
fn header_only_error_statuses() {
    let config = TenantResolverConfig::with_header_resolution();
    match begin_resolution(&config, &None, &Some("Bad Tenant".to_string())) {
        ResolutionStep::Reject(e) => assert_eq!(e.kind.status_code(), 400),
        other => panic!("unexpected step {:?}", other),
    }
    let suspended = complete_header_resolution("acme-corp", TenantLookup::Found(TenantStatus::Suspended)).unwrap_err();
    assert_eq!(suspended.kind.status_code(), 403);
    assert_eq!(suspended.message, "Tenant 'acme-corp' is not active (status: suspended)");
    let missing = complete_header_resolution("acme-corp", TenantLookup::NotFound).unwrap_err();
    assert_eq!(missing.kind.status_code(), 404);
    let failed = complete_header_resolution("acme-corp", TenantLookup::Failed).unwrap_err();
    assert_eq!(failed.kind.status_code(), 500);
    assert!(identity_from_header("acme-corp", TenantLookup::Found(TenantStatus::Deleted)).is_none());
}

#[test]
fn no_credentials_pass_through() {
    let config = TenantResolverConfig::with_header_resolution();
    assert!(matches!(begin_resolution(&config, &None, &None), ResolutionStep::PassThrough));
    assert!(matches!(
        begin_resolution(&config, &Some("mf_global".to_string()), &None),
        ResolutionStep::PassThrough
    ));
}
