use catalog_gate::catalog::{
    default_period, parse_period_days, AccessType, ActorType, AuditAction, AuditConfig, Classification,
    ClassificationSource, QualityDetails, QualityError, TenantMetricsConfig, TenantMetricsInfo, UsageConfig,
    DEFAULT_BUFFER_SIZE, DEFAULT_FLUSH_INTERVAL_MS, DEFAULT_FLUSH_INTERVAL_SECS, MAX_UNIQUE_USERS_PER_DAY,
};

#[test]
fn test_audit_action_as_str() {
    assert_eq!(AuditAction::Create.as_str(), "create");
    assert_eq!(AuditAction::Update.as_str(), "update");
    assert_eq!(AuditAction::Delete.as_str(), "delete");
    assert_eq!(AuditAction::Read.as_str(), "read");
    assert_eq!(AuditAction::Search.as_str(), "search");
    assert_eq!(AuditAction::Export.as_str(), "export");
    assert_eq!(AuditAction::Import.as_str(), "import");
}

#[test]
fn test_actor_type_as_str() {
    assert_eq!(ActorType::User.as_str(), "user");
    assert_eq!(ActorType::Service.as_str(), "service");
    assert_eq!(ActorType::System.as_str(), "system");
    assert_eq!(ActorType::Anonymous.as_str(), "anonymous");
}

#[test]
fn test_audit_config_defaults() {
    let config = AuditConfig::default();
    assert_eq!(config.buffer_size, DEFAULT_BUFFER_SIZE);
    assert_eq!(config.flush_interval_ms, DEFAULT_FLUSH_INTERVAL_MS);
}

#[test]
fn test_classification_as_str() {
    assert_eq!(Classification::Pii.as_str(), "pii");
    assert_eq!(Classification::Sensitive.as_str(), "sensitive");
    assert_eq!(Classification::Confidential.as_str(), "confidential");
    assert_eq!(Classification::Public.as_str(), "public");
    assert_eq!(Classification::Unknown.as_str(), "unknown");
}

#[test]
fn test_classification_from_str() {
    assert_eq!(Classification::parse("pii"), Classification::Pii);
    assert_eq!(Classification::parse("PII"), Classification::Pii);
    assert_eq!(Classification::parse("invalid"), Classification::Unknown);
}

#[test]
fn test_classification_source_as_str() {
    assert_eq!(ClassificationSource::Auto.as_str(), "auto");
    assert_eq!(ClassificationSource::Manual.as_str(), "manual");
    assert_eq!(ClassificationSource::Rule.as_str(), "rule");
}

#[test]
fn test_quality_error_display() {
    let err = QualityError::DeltaError("test".to_string());
    assert!(err.to_display_string().contains("Delta error"));
    let err = QualityError::NoFreshnessConfig;
    assert!(err.to_display_string().contains("freshness"));
}

#[test]
fn test_quality_details_default() {
    let details = QualityDetails::default();
    assert!(details.row_count.is_none());
    assert!(details.file_count.is_none());
    assert!(details.size_bytes.is_none());
}

#[test]
fn test_usage_config_default() {
    let config = UsageConfig::default();
    assert_eq!(config.flush_interval_secs, DEFAULT_FLUSH_INTERVAL_SECS);
    assert_eq!(config.max_unique_users, MAX_UNIQUE_USERS_PER_DAY);
}

#[test]
fn test_access_type_as_str() {
    assert_eq!(AccessType::Read.as_str(), "read");
    assert_eq!(AccessType::SearchAppearance.as_str(), "search_appearance");
    assert_eq!(AccessType::LineageQuery.as_str(), "lineage_query");
    assert_eq!(AccessType::ApiCall.as_str(), "api_call");
}

#[test]
fn test_parse_period_days() {
    assert_eq!(parse_period_days("1d"), 1);
    assert_eq!(parse_period_days("7d"), 7);
    assert_eq!(parse_period_days("30d"), 30);
    assert_eq!(parse_period_days("90d"), 90);
    assert_eq!(parse_period_days("invalid"), 7);
    assert_eq!(default_period(), "7d");
}

#[test]
fn quality_error_texts() {
    assert_eq!(QualityError::DatabaseError("locked".to_string()).to_display_string(), "Database error: locked");
    assert_eq!(QualityError::NoLastModified.to_display_string(), "No last modified timestamp");
    assert_eq!(QualityError::AllCalculationsFailed.to_display_string(), "All quality calculations failed");
}

#[test]
fn tenant_metrics_labels() {
    let aggregated = TenantMetricsInfo::new("acme-corp", "premium", &TenantMetricsConfig::aggregated());
    assert_eq!(aggregated.tenant_id, "aggregated");
    assert_eq!(aggregated.tier, "premium");
    let labelled = TenantMetricsInfo::new("acme-corp", "premium", &TenantMetricsConfig::with_tenant_labels());
    assert_eq!(labelled.tenant_id, "acme-corp");
    assert_eq!(TenantMetricsInfo::with_explicit_tenant_id("x-1", "free").tenant_id, "x-1");
    assert!(TenantMetricsConfig::from_env_value(Some("TRUE")).include_tenant_id);
    assert!(!TenantMetricsConfig::from_env_value(Some("yes")).include_tenant_id);
    assert!(!TenantMetricsConfig::from_env_value(None).include_tenant_id);
}
