use vstd::prelude::*;
use vstd::string::*;

verus! {

/// Connections a tenant may hold at once, by default.
pub const DEFAULT_MAX_CONNECTIONS: usize = 10;

/// Time to wait for a connection permit, by default, in milliseconds.
pub const DEFAULT_ACQUIRE_TIMEOUT_MS: u64 = 5000;

/// Consecutive failures that open the circuit, by default.
pub const DEFAULT_CIRCUIT_BREAKER_THRESHOLD: u32 = 5;

/// Time an open circuit waits before a trial, by default, in milliseconds.
pub const DEFAULT_CIRCUIT_BREAKER_RESET_MS: u64 = 30000;

/// Circuit-breaker settings of a tenant backend.
#[derive(Clone, Copy, Debug, PartialEq, Eq, Structural)]
pub struct CircuitBreakerConfig {
    /// Consecutive failures before the circuit opens.
    pub failure_threshold: u32,
    /// Time from opening to the first trial, in milliseconds.
    pub reset_timeout_ms: u64,
    /// Whether the breaker acts at all.
    pub enabled: bool,
}

impl Default for CircuitBreakerConfig {
    fn default() -> (r: CircuitBreakerConfig)
        ensures
            r.failure_threshold == DEFAULT_CIRCUIT_BREAKER_THRESHOLD,
            r.reset_timeout_ms == DEFAULT_CIRCUIT_BREAKER_RESET_MS,
            r.enabled,
    {
        CircuitBreakerConfig {
            failure_threshold: DEFAULT_CIRCUIT_BREAKER_THRESHOLD,
            reset_timeout_ms: DEFAULT_CIRCUIT_BREAKER_RESET_MS,
            enabled: true,
        }
    }
}

/// Connection-pool settings of tenant backends.
#[derive(Clone, Copy, Debug, PartialEq, Eq, Structural)]
pub struct ConnectionPoolConfig {
    /// Connections a tenant may hold at once.
    pub max_connections_per_tenant: usize,
    /// Time to wait for a permit, in milliseconds.
    pub acquire_timeout_ms: u64,
    /// Whether pool metrics are exported.
    pub enable_metrics: bool,
    pub circuit_breaker: CircuitBreakerConfig,
}

/// The default pool settings.
pub open spec fn default_pool_config() -> ConnectionPoolConfig {
    ConnectionPoolConfig {
        max_connections_per_tenant: DEFAULT_MAX_CONNECTIONS,
        acquire_timeout_ms: DEFAULT_ACQUIRE_TIMEOUT_MS,
        enable_metrics: true,
        circuit_breaker: CircuitBreakerConfig {
            failure_threshold: DEFAULT_CIRCUIT_BREAKER_THRESHOLD,
            reset_timeout_ms: DEFAULT_CIRCUIT_BREAKER_RESET_MS,
            enabled: true,
        },
    }
}

impl Default for ConnectionPoolConfig {
    fn default() -> (r: ConnectionPoolConfig)
        ensures
            r == default_pool_config(),
    {
        ConnectionPoolConfig {
            max_connections_per_tenant: DEFAULT_MAX_CONNECTIONS,
            acquire_timeout_ms: DEFAULT_ACQUIRE_TIMEOUT_MS,
            enable_metrics: true,
            circuit_breaker: CircuitBreakerConfig::default(),
        }
    }
}

/// The first rule a pool configuration breaks, if any.
pub open spec fn pool_config_problem(c: ConnectionPoolConfig) -> Option<Seq<char>> {
    if c.max_connections_per_tenant == 0 {
        Some("max_connections_per_tenant must be > 0"@)
    } else if c.acquire_timeout_ms == 0 {
        Some("acquire_timeout must be > 0"@)
    } else if c.circuit_breaker.enabled && c.circuit_breaker.failure_threshold == 0 {
        Some("circuit_breaker.failure_threshold must be > 0"@)
    } else if c.circuit_breaker.enabled && c.circuit_breaker.reset_timeout_ms == 0 {
        Some("circuit_breaker.reset_timeout must be > 0"@)
    } else {
        None
    }
}

impl ConnectionPoolConfig {
    /// Default settings with `max_connections_per_tenant` connections.
    pub fn new(max_connections_per_tenant: usize) -> (r: ConnectionPoolConfig)
        requires
            max_connections_per_tenant > 0,
        ensures
            r == (ConnectionPoolConfig { max_connections_per_tenant, ..default_pool_config() }),
    {
        ConnectionPoolConfig { max_connections_per_tenant, ..ConnectionPoolConfig::default() }
    }

    /// Checks the startup invariants: positive connection cap and acquire
    /// timeout and, with the breaker enabled, positive threshold and reset
    /// timeout. The error names the first rule broken.
    pub fn validate(&self) -> (r: Result<(), String>)
        ensures
            match pool_config_problem(*self) {
                None => r is Ok,
                Some(m) => r matches Err(e) && e@ == m,
            },
    {
        if self.max_connections_per_tenant == 0 {
            return Err(String::from_str("max_connections_per_tenant must be > 0"));
        }
        if self.acquire_timeout_ms == 0 {
            return Err(String::from_str("acquire_timeout must be > 0"));
        }
        if self.circuit_breaker.enabled {
            if self.circuit_breaker.failure_threshold == 0 {
                return Err(String::from_str("circuit_breaker.failure_threshold must be > 0"));
            }
            if self.circuit_breaker.reset_timeout_ms == 0 {
                return Err(String::from_str("circuit_breaker.reset_timeout must be > 0"));
            }
        }
        Ok(())
    }

    /// Settings from optional overrides (as read from the environment),
    /// each falling back to its default.
    pub fn from_env_values(
        max_connections: Option<usize>,
        acquire_timeout_ms: Option<u64>,
        enable_metrics: Option<bool>,
        failure_threshold: Option<u32>,
        reset_timeout_ms: Option<u64>,
        breaker_enabled: Option<bool>,
    ) -> (r: ConnectionPoolConfig)
        ensures
            r.max_connections_per_tenant == max_connections.unwrap_or(DEFAULT_MAX_CONNECTIONS),
            r.acquire_timeout_ms == acquire_timeout_ms.unwrap_or(DEFAULT_ACQUIRE_TIMEOUT_MS),
            r.enable_metrics == enable_metrics.unwrap_or(true),
            r.circuit_breaker.failure_threshold == failure_threshold.unwrap_or(DEFAULT_CIRCUIT_BREAKER_THRESHOLD),
            r.circuit_breaker.reset_timeout_ms == reset_timeout_ms.unwrap_or(DEFAULT_CIRCUIT_BREAKER_RESET_MS),
            r.circuit_breaker.enabled == breaker_enabled.unwrap_or(true),
    {
        ConnectionPoolConfig {
            max_connections_per_tenant: match max_connections {
                Some(v) => v,
                None => DEFAULT_MAX_CONNECTIONS,
            },
            acquire_timeout_ms: match acquire_timeout_ms {
                Some(v) => v,
                None => DEFAULT_ACQUIRE_TIMEOUT_MS,
            },
            enable_metrics: match enable_metrics {
                Some(v) => v,
                None => true,
            },
            circuit_breaker: CircuitBreakerConfig {
                failure_threshold: match failure_threshold {
                    Some(v) => v,
                    None => DEFAULT_CIRCUIT_BREAKER_THRESHOLD,
                },
                reset_timeout_ms: match reset_timeout_ms {
                    Some(v) => v,
                    None => DEFAULT_CIRCUIT_BREAKER_RESET_MS,
                },
                enabled: match breaker_enabled {
                    Some(v) => v,
                    None => true,
                },
            },
        }
    }

    pub fn with_max_connections(self, max: usize) -> (r: ConnectionPoolConfig)
        ensures
            r == (ConnectionPoolConfig { max_connections_per_tenant: max, ..self }),
    {
        ConnectionPoolConfig { max_connections_per_tenant: max, ..self }
    }

    pub fn with_acquire_timeout(self, timeout_ms: u64) -> (r: ConnectionPoolConfig)
        ensures
            r == (ConnectionPoolConfig { acquire_timeout_ms: timeout_ms, ..self }),
    {
        ConnectionPoolConfig { acquire_timeout_ms: timeout_ms, ..self }
    }

    pub fn with_metrics(self, enabled: bool) -> (r: ConnectionPoolConfig)
        ensures
            r == (ConnectionPoolConfig { enable_metrics: enabled, ..self }),
    {
        ConnectionPoolConfig { enable_metrics: enabled, ..self }
    }

    pub fn with_circuit_breaker(self, config: CircuitBreakerConfig) -> (r: ConnectionPoolConfig)
        ensures
            r == (ConnectionPoolConfig { circuit_breaker: config, ..self }),
    {
        ConnectionPoolConfig { circuit_breaker: config, ..self }
    }

    pub fn without_circuit_breaker(self) -> (r: ConnectionPoolConfig)
        ensures
            r == (ConnectionPoolConfig {
                circuit_breaker: CircuitBreakerConfig { enabled: false, ..self.circuit_breaker },
                ..self
            }),
    {
        ConnectionPoolConfig {
            circuit_breaker: CircuitBreakerConfig { enabled: false, ..self.circuit_breaker },
            ..self
        }
    }
}

} // verus!
