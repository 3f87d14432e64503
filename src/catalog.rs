use vstd::prelude::*;
use vstd::string::*;
use crate::text::{lower_of, lowercase, same_text};

verus! {

/// Audit events buffered before a flush, by default.
pub const DEFAULT_BUFFER_SIZE: usize = 1000;

/// Time between audit flushes, by default, in milliseconds.
pub const DEFAULT_FLUSH_INTERVAL_MS: u64 = 1000;

/// Distinct users tracked per dataset and day.
pub const MAX_UNIQUE_USERS_PER_DAY: usize = 10000;

/// Time between usage flushes, by default, in seconds.
pub const DEFAULT_FLUSH_INTERVAL_SECS: u64 = 60;

/// Kind of audited action.
#[derive(Clone, Copy, Debug, PartialEq, Eq, Structural)]
pub enum AuditAction {
    Create,
    Update,
    Delete,
    Read,
    Search,
    Export,
    Import,
}

impl AuditAction {
    pub fn as_str(&self) -> (r: &'static str)
        ensures
            r@ == match *self {
                AuditAction::Create => "create"@,
                AuditAction::Update => "update"@,
                AuditAction::Delete => "delete"@,
                AuditAction::Read => "read"@,
                AuditAction::Search => "search"@,
                AuditAction::Export => "export"@,
                AuditAction::Import => "import"@,
            },
    {
        match self {
            AuditAction::Create => "create",
            AuditAction::Update => "update",
            AuditAction::Delete => "delete",
            AuditAction::Read => "read",
            AuditAction::Search => "search",
            AuditAction::Export => "export",
            AuditAction::Import => "import",
        }
    }
}

/// Kind of actor behind an audited action.
#[derive(Clone, Copy, Debug, PartialEq, Eq, Structural)]
pub enum ActorType {
    User,
    Service,
    System,
    Anonymous,
}

impl ActorType {
    pub fn as_str(&self) -> (r: &'static str)
        ensures
            r@ == match *self {
                ActorType::User => "user"@,
                ActorType::Service => "service"@,
                ActorType::System => "system"@,
                ActorType::Anonymous => "anonymous"@,
            },
    {
        match self {
            ActorType::User => "user",
            ActorType::Service => "service",
            ActorType::System => "system",
            ActorType::Anonymous => "anonymous",
        }
    }
}

/// Audit logger settings.
#[derive(Clone, Copy, Debug, PartialEq, Eq, Structural)]
pub struct AuditConfig {
    pub buffer_size: usize,
    pub flush_interval_ms: u64,
}

impl Default for AuditConfig {
    fn default() -> (r: AuditConfig)
        ensures
            r.buffer_size == DEFAULT_BUFFER_SIZE,
            r.flush_interval_ms == DEFAULT_FLUSH_INTERVAL_MS,
    {
        AuditConfig { buffer_size: DEFAULT_BUFFER_SIZE, flush_interval_ms: DEFAULT_FLUSH_INTERVAL_MS }
    }
}

/// Sensitivity class of a column.
#[derive(Clone, Copy, Debug, PartialEq, Eq, Structural)]
pub enum Classification {
    Pii,
    Sensitive,
    Confidential,
    Public,
    Unknown,
}

/// The class a lowercase name selects; unknown names select Unknown.
pub open spec fn classification_named(s: Seq<char>) -> Classification {
    if s == "pii"@ {
        Classification::Pii
    } else if s == "sensitive"@ {
        Classification::Sensitive
    } else if s == "confidential"@ {
        Classification::Confidential
    } else if s == "public"@ {
        Classification::Public
    } else {
        Classification::Unknown
    }
}

impl Classification {
    pub fn as_str(&self) -> (r: &'static str)
        ensures
            r@ == match *self {
                Classification::Pii => "pii"@,
                Classification::Sensitive => "sensitive"@,
                Classification::Confidential => "confidential"@,
                Classification::Public => "public"@,
                Classification::Unknown => "unknown"@,
            },
    {
        match self {
            Classification::Pii => "pii",
            Classification::Sensitive => "sensitive",
            Classification::Confidential => "confidential",
            Classification::Public => "public",
            Classification::Unknown => "unknown",
        }
    }

    /// The class of an already-lowercase name.
    pub fn from_lowercase(s: &str) -> (r: Classification)
        ensures
            r == classification_named(s@),
    {
        if same_text(s, "pii") {
            Classification::Pii
        } else if same_text(s, "sensitive") {
            Classification::Sensitive
        } else if same_text(s, "confidential") {
            Classification::Confidential
        } else if same_text(s, "public") {
            Classification::Public
        } else {
            Classification::Unknown
        }
    }

    /// The class of a name in any case.
    pub fn parse(s: &str) -> (r: Classification)
        ensures
            r == classification_named(lower_of(s@)),
    {
        let lower = lowercase(s);
        Classification::from_lowercase(lower.as_str())
    }
}

/// How a classification was decided.
#[derive(Clone, Copy, Debug, PartialEq, Eq, Structural)]
pub enum ClassificationSource {
    Auto,
    Manual,
    Rule,
}

impl ClassificationSource {
    pub fn as_str(&self) -> (r: &'static str)
        ensures
            r@ == match *self {
                ClassificationSource::Auto => "auto"@,
                ClassificationSource::Manual => "manual"@,
                ClassificationSource::Rule => "rule"@,
            },
    {
        match self {
            ClassificationSource::Auto => "auto",
            ClassificationSource::Manual => "manual",
            ClassificationSource::Rule => "rule",
        }
    }
}

/// Kind of dataset access counted by usage analytics.
#[derive(Clone, Copy, Debug, PartialEq, Eq, Structural)]
pub enum AccessType {
    Read,
    SearchAppearance,
    LineageQuery,
    ApiCall,
}

impl AccessType {
    pub fn as_str(&self) -> (r: &'static str)
        ensures
            r@ == match *self {
                AccessType::Read => "read"@,
                AccessType::SearchAppearance => "search_appearance"@,
                AccessType::LineageQuery => "lineage_query"@,
                AccessType::ApiCall => "api_call"@,
            },
    {
        match self {
            AccessType::Read => "read",
            AccessType::SearchAppearance => "search_appearance",
            AccessType::LineageQuery => "lineage_query",
            AccessType::ApiCall => "api_call",
        }
    }
}

/// Usage tracker settings.
#[derive(Clone, Copy, Debug, PartialEq, Eq, Structural)]
pub struct UsageConfig {
    pub flush_interval_secs: u64,
    pub max_unique_users: usize,
}

impl Default for UsageConfig {
    fn default() -> (r: UsageConfig)
        ensures
            r.flush_interval_secs == DEFAULT_FLUSH_INTERVAL_SECS,
            r.max_unique_users == MAX_UNIQUE_USERS_PER_DAY,
    {
        UsageConfig { flush_interval_secs: DEFAULT_FLUSH_INTERVAL_SECS, max_unique_users: MAX_UNIQUE_USERS_PER_DAY }
    }
}

/// The usage period that queries cover when none is given.
pub fn default_period() -> (r: String)
    ensures
        r@ == "7d"@,
{
    String::from_str("7d")
}

/// Days in a usage period: `1d`, `7d`, `30d`, `90d`; anything else is 7.
pub open spec fn period_days(p: Seq<char>) -> i64 {
    if p == "1d"@ {
        1
    } else if p == "30d"@ {
        30
    } else if p == "90d"@ {
        90
    } else {
        7
    }
}

pub fn parse_period_days(period: &str) -> (r: i64)
    ensures
        r == period_days(period@),
{
    if same_text(period, "1d") {
        1
    } else if same_text(period, "30d") {
        30
    } else if same_text(period, "90d") {
        90
    } else {
        7
    }
}

/// Detail figures behind a quality score; all unknown by default.
#[derive(Clone, Debug)]
pub struct QualityDetails {
    pub row_count: Option<i64>,
    pub file_count: Option<i64>,
    pub size_bytes: Option<i64>,
    pub small_file_count: Option<i64>,
    pub avg_file_size: Option<i64>,
    pub total_null_count: Option<i64>,
    pub freshness_sla_secs: Option<i64>,
    pub staleness_secs: Option<i64>,
    pub last_modified: Option<String>,
}

impl Default for QualityDetails {
    fn default() -> (r: QualityDetails)
        ensures
            r.row_count is None,
            r.file_count is None,
            r.size_bytes is None,
            r.small_file_count is None,
            r.avg_file_size is None,
            r.total_null_count is None,
            r.freshness_sla_secs is None,
            r.staleness_secs is None,
            r.last_modified is None,
    {
        QualityDetails {
            row_count: None,
            file_count: None,
            size_bytes: None,
            small_file_count: None,
            avg_file_size: None,
            total_null_count: None,
            freshness_sla_secs: None,
            staleness_secs: None,
            last_modified: None,
        }
    }
}

/// Why a quality score could not be computed.
#[derive(Clone, Debug)]
pub enum QualityError {
    DeltaError(String),
    NoFreshnessConfig,
    NoLastModified,
    DatabaseError(String),
    AllCalculationsFailed,
}

impl QualityError {
    /// The error as text.
    pub fn to_display_string(&self) -> (r: String)
        ensures
            r@ == match self {
                QualityError::DeltaError(e) => "Delta error: "@ + e@,
                QualityError::NoFreshnessConfig => "No freshness configuration"@,
                QualityError::NoLastModified => "No last modified timestamp"@,
                QualityError::DatabaseError(e) => "Database error: "@ + e@,
                QualityError::AllCalculationsFailed => "All quality calculations failed"@,
            },
    {
        match self {
            QualityError::DeltaError(e) => {
                let mut s = String::from_str("Delta error: ");
                s.append(e.as_str());
                s
            },
            QualityError::NoFreshnessConfig => String::from_str("No freshness configuration"),
            QualityError::NoLastModified => String::from_str("No last modified timestamp"),
            QualityError::DatabaseError(e) => {
                let mut s = String::from_str("Database error: ");
                s.append(e.as_str());
                s
            },
            QualityError::AllCalculationsFailed => String::from_str("All quality calculations failed"),
        }
    }
}

/// Whether metrics carry each tenant's identifier as a label.
#[derive(Clone, Copy, Debug, PartialEq, Eq, Structural)]
pub struct TenantMetricsConfig {
    /// Off by default: tenants share one aggregated label.
    pub include_tenant_id: bool,
}

impl TenantMetricsConfig {
    /// Per-tenant labels.
    pub fn with_tenant_labels() -> (r: TenantMetricsConfig)
        ensures
            r.include_tenant_id,
    {
        TenantMetricsConfig { include_tenant_id: true }
    }

    /// One aggregated label for all tenants.
    pub fn aggregated() -> (r: TenantMetricsConfig)
        ensures
            !r.include_tenant_id,
    {
        TenantMetricsConfig { include_tenant_id: false }
    }

    /// Settings from the environment value of the per-tenant switch:
    /// enabled only by `true` in any case.
    pub fn from_env_value(value: Option<&str>) -> (r: TenantMetricsConfig)
        ensures
            r.include_tenant_id == (value matches Some(v) && lower_of(v@) == "true"@),
    {
        match value {
            Some(v) => {
                let lower = lowercase(v);
                TenantMetricsConfig { include_tenant_id: same_text(lower.as_str(), "true") }
            },
            None => TenantMetricsConfig { include_tenant_id: false },
        }
    }
}

/// The tenant labels of a request's metrics.
#[derive(Clone, Debug)]
pub struct TenantMetricsInfo {
    pub tenant_id: String,
    pub tier: String,
}

impl TenantMetricsInfo {
    /// Labels under `config`: the tenant's identifier, or `aggregated`
    /// when per-tenant labels are off.
    pub fn new(tenant_id: &str, tier: &str, config: &TenantMetricsConfig) -> (r: TenantMetricsInfo)
        ensures
            r.tenant_id@ == (if config.include_tenant_id { tenant_id@ } else { "aggregated"@ }),
            r.tier@ == tier@,
    {
        TenantMetricsInfo {
            tenant_id: if config.include_tenant_id {
                tenant_id.to_owned()
            } else {
                String::from_str("aggregated")
            },
            tier: tier.to_owned(),
        }
    }

    /// Labels with the tenant's identifier, whatever the settings.
    pub fn with_explicit_tenant_id(tenant_id: &str, tier: &str) -> (r: TenantMetricsInfo)
        ensures
            r.tenant_id@ == tenant_id@,
            r.tier@ == tier@,
    {
        TenantMetricsInfo { tenant_id: tenant_id.to_owned(), tier: tier.to_owned() }
    }
}

} // verus!
