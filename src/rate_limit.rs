use vstd::prelude::*;
use vstd::string::*;
use crate::text::{first_comma_field, first_field, lower_of, lowercase, same_text, trim_of, trim_str};

verus! {

/// Requests per window for anonymous clients.
pub const DEFAULT_ANONYMOUS_LIMIT: u32 = 100;

/// Requests per window for clients with a global API key.
pub const DEFAULT_AUTHENTICATED_LIMIT: u32 = 1000;

/// Length of a rate-limit window, in seconds.
pub const DEFAULT_WINDOW_SECS: u64 = 60;

/// Bucket count whose half triggers eviction of idle buckets.
pub const DEFAULT_MAX_BUCKETS: usize = 10000;

/// Idle time after which a bucket may be evicted, in seconds.
pub const DEFAULT_BUCKET_TTL_SECS: u64 = 600;

pub const DEFAULT_FREE_TIER_LIMIT: u32 = 100;
pub const DEFAULT_STANDARD_TIER_LIMIT: u32 = 1000;
pub const DEFAULT_PREMIUM_TIER_LIMIT: u32 = 5000;
pub const DEFAULT_ENTERPRISE_TIER_LIMIT: u32 = 10000;

/// Identity of the API key a request authenticated with.
#[derive(Clone, Debug)]
pub struct ApiKeyId {
    pub id: String,
}

/// The resolved tenant of a request and its quota tier.
#[derive(Clone, Debug)]
pub struct TenantRateLimitInfo {
    pub tenant_id: String,
    pub tier: TenantTier,
}

/// Quota class of a tenant.
#[derive(Clone, Copy, Debug, PartialEq, Eq, Structural)]
pub enum TenantTier {
    Free,
    Standard,
    Premium,
    Enterprise,
}

/// Rate-limiting settings.
#[derive(Clone, Debug)]
pub struct RateLimitConfig {
    pub anonymous_limit: u32,
    pub authenticated_limit: u32,
    pub window_secs: u64,
    /// Peers whose `X-Forwarded-For` / `X-Real-IP` headers are believed.
    pub trusted_proxies: Option<Vec<String>>,
    pub max_buckets: usize,
    pub bucket_ttl_secs: u64,
    pub free_tier_limit: u32,
    pub standard_tier_limit: u32,
    pub premium_tier_limit: u32,
    pub enterprise_tier_limit: u32,
}

impl Default for RateLimitConfig {
    fn default() -> (r: RateLimitConfig)
        ensures
            r.anonymous_limit == DEFAULT_ANONYMOUS_LIMIT,
            r.authenticated_limit == DEFAULT_AUTHENTICATED_LIMIT,
            r.window_secs == DEFAULT_WINDOW_SECS,
            r.trusted_proxies is None,
            r.max_buckets == DEFAULT_MAX_BUCKETS,
            r.bucket_ttl_secs == DEFAULT_BUCKET_TTL_SECS,
            r.free_tier_limit == DEFAULT_FREE_TIER_LIMIT,
            r.standard_tier_limit == DEFAULT_STANDARD_TIER_LIMIT,
            r.premium_tier_limit == DEFAULT_PREMIUM_TIER_LIMIT,
            r.enterprise_tier_limit == DEFAULT_ENTERPRISE_TIER_LIMIT,
    {
        RateLimitConfig {
            anonymous_limit: DEFAULT_ANONYMOUS_LIMIT,
            authenticated_limit: DEFAULT_AUTHENTICATED_LIMIT,
            window_secs: DEFAULT_WINDOW_SECS,
            trusted_proxies: None,
            max_buckets: DEFAULT_MAX_BUCKETS,
            bucket_ttl_secs: DEFAULT_BUCKET_TTL_SECS,
            free_tier_limit: DEFAULT_FREE_TIER_LIMIT,
            standard_tier_limit: DEFAULT_STANDARD_TIER_LIMIT,
            premium_tier_limit: DEFAULT_PREMIUM_TIER_LIMIT,
            enterprise_tier_limit: DEFAULT_ENTERPRISE_TIER_LIMIT,
        }
    }
}

/// The quota of a tier under `config`.
pub open spec fn tier_limit(config: RateLimitConfig, tier: TenantTier) -> u32 {
    match tier {
        TenantTier::Free => config.free_tier_limit,
        TenantTier::Standard => config.standard_tier_limit,
        TenantTier::Premium => config.premium_tier_limit,
        TenantTier::Enterprise => config.enterprise_tier_limit,
    }
}

/// What the rate limiter reads of a request.
#[derive(Clone, Debug)]
pub struct RateLimitRequest {
    /// The resolved tenant and its tier, if any.
    pub tenant: Option<TenantRateLimitInfo>,
    /// The authenticated API key, if any.
    pub api_key: Option<ApiKeyId>,
    /// Address of the immediate peer, if known.
    pub peer_ip: Option<String>,
    /// Raw `X-Forwarded-For` header value.
    pub forwarded_for: Option<String>,
    /// Raw `X-Real-IP` header value.
    pub real_ip: Option<String>,
}

/// `p` is listed among the trusted proxies.
pub open spec fn proxy_listed(list: Seq<String>, p: Seq<char>) -> bool {
    exists|i: int| 0 <= i < list.len() && (#[trigger] list[i])@ == p
}

/// Whether the forwarded headers of a request from peer `p` are believed.
pub open spec fn peer_trusted(config: RateLimitConfig, p: Seq<char>) -> bool {
    config.trusted_proxies matches Some(list) && proxy_listed(list@, p)
}

/// The client address that rate limiting uses: the forwarded one from a
/// trusted proxy, the peer's own otherwise.
pub open spec fn client_ip_of(config: RateLimitConfig, req: RateLimitRequest) -> Option<Seq<char>> {
    match req.peer_ip {
        None => None,
        Some(p) => {
            if peer_trusted(config, p@) {
                match req.forwarded_for {
                    Some(f) => Some(trim_of(first_field(f@))),
                    None => match req.real_ip {
                        Some(x) => Some(x@),
                        None => Some(p@),
                    },
                }
            } else {
                Some(p@)
            }
        },
    }
}

/// The bucket key and the quota of a request.
pub open spec fn rate_limit_key_of(config: RateLimitConfig, req: RateLimitRequest) -> (Seq<char>, u32) {
    match req.tenant {
        Some(t) => {
            let limit = tier_limit(config, t.tier);
            match req.api_key {
                Some(k) => ("tenant:"@ + t.tenant_id@ + ":auth:"@ + k.id@, limit),
                None => match client_ip_of(config, req) {
                    Some(ip) => ("tenant:"@ + t.tenant_id@ + ":ip:"@ + ip, limit),
                    None => ("tenant:"@ + t.tenant_id@ + ":unknown"@, limit),
                },
            }
        },
        None => match req.api_key {
            Some(k) => ("auth:"@ + k.id@, config.authenticated_limit),
            None => match client_ip_of(config, req) {
                Some(ip) => ("anon:"@ + ip, config.anonymous_limit),
                None => ("anon:unknown"@, config.anonymous_limit),
            },
        },
    }
}

fn is_listed(list: &Vec<String>, p: &String) -> (r: bool)
    ensures
        r == proxy_listed(list@, p@),
{
    let mut i: usize = 0;
    while i < list.len()
        invariant
            i <= list@.len(),
            forall|j: int| 0 <= j < i ==> (#[trigger] list@[j])@ != p@,
        decreases list@.len() - i,
    {
        if list[i].eq(p) {
            return true;
        }
        i = i + 1;
    }
    false
}

impl RateLimitConfig {
    /// The quota of `tier`.
    pub fn tier_limit(&self, tier: TenantTier) -> (r: u32)
        ensures
            r == tier_limit(*self, tier),
    {
        match tier {
            TenantTier::Free => self.free_tier_limit,
            TenantTier::Standard => self.standard_tier_limit,
            TenantTier::Premium => self.premium_tier_limit,
            TenantTier::Enterprise => self.enterprise_tier_limit,
        }
    }

    /// Whether forwarded headers from peer `p` are believed.
    pub fn is_trusted_proxy(&self, p: &String) -> (r: bool)
        ensures
            r == peer_trusted(*self, p@),
    {
        match &self.trusted_proxies {
            Some(list) => is_listed(list, p),
            None => false,
        }
    }

    /// The client address of a request; forwarded headers count only when
    /// the peer is a trusted proxy.
    pub fn client_ip(&self, req: &RateLimitRequest) -> (r: Option<String>)
        ensures
            match r {
                Some(s) => client_ip_of(*self, *req) == Some(s@),
                None => client_ip_of(*self, *req) is None,
            },
    {
        match &req.peer_ip {
            None => None,
            Some(p) => {
                if self.is_trusted_proxy(p) {
                    if let Some(f) = &req.forwarded_for {
                        let first = first_comma_field(f.as_str());
                        return Some(trim_str(first.as_str()));
                    }
                    if let Some(x) = &req.real_ip {
                        return Some(x.clone());
                    }
                }
                Some(p.clone())
            },
        }
    }

    /// The bucket key of a request and the quota that applies to it.
    pub fn rate_limit_key(&self, req: &RateLimitRequest) -> (r: (String, u32))
        ensures
            (r.0@, r.1) == rate_limit_key_of(*self, *req),
    {
        match &req.tenant {
            Some(t) => {
                let limit = self.tier_limit(t.tier);
                let mut key = String::from_str("tenant:");
                key.append(t.tenant_id.as_str());
                match &req.api_key {
                    Some(k) => {
                        key.append(":auth:");
                        key.append(k.id.as_str());
                    },
                    None => match self.client_ip(req) {
                        Some(ip) => {
                            key.append(":ip:");
                            key.append(ip.as_str());
                        },
                        None => {
                            key.append(":unknown");
                        },
                    },
                }
                (key, limit)
            },
            None => match &req.api_key {
                Some(k) => {
                    let mut key = String::from_str("auth:");
                    key.append(k.id.as_str());
                    (key, self.authenticated_limit)
                },
                None => match self.client_ip(req) {
                    Some(ip) => {
                        let mut key = String::from_str("anon:");
                        key.append(ip.as_str());
                        (key, self.anonymous_limit)
                    },
                    None => (String::from_str("anon:unknown"), self.anonymous_limit),
                },
            },
        }
    }
}

/// The request counter of one key.
#[derive(Clone, Copy, Debug, PartialEq, Eq, Structural)]
pub struct RateLimitBucket {
    /// Requests admitted in the current window.
    pub count: u32,
    /// Start of the current window, in milliseconds of the monotonic clock.
    pub window_start_ms: u64,
    /// Last time the bucket was checked, in the same clock.
    pub last_accessed_ms: u64,
}

/// Time from `since` to `now`, or zero if the clock reads earlier.
pub open spec fn elapsed(now: u64, since: u64) -> u64 {
    if now >= since {
        (now - since) as u64
    } else {
        0
    }
}

/// Seconds as milliseconds, saturating at the largest `u64`.
pub open spec fn secs_to_ms(secs: u64) -> u64 {
    if secs * 1000 > u64::MAX {
        u64::MAX
    } else {
        (secs * 1000) as u64
    }
}

/// A bucket used within `ttl_ms` of `now_ms`.
pub open spec fn bucket_is_fresh(b: RateLimitBucket, now_ms: u64, ttl_ms: u64) -> bool {
    elapsed(now_ms, b.last_accessed_ms) < ttl_ms
}

pub(crate) fn elapsed_ms(now: u64, since: u64) -> (r: u64)
    ensures
        r == elapsed(now, since),
{
    if now >= since {
        now - since
    } else {
        0
    }
}

pub fn to_millis(secs: u64) -> (r: u64)
    ensures
        r == secs_to_ms(secs),
{
    if secs > u64::MAX / 1000 {
        assert(secs * 1000 > u64::MAX) by (nonlinear_arith)
            requires
                secs > u64::MAX / 1000,
        ;
        u64::MAX
    } else {
        assert(secs * 1000 <= u64::MAX) by (nonlinear_arith)
            requires
                secs <= u64::MAX / 1000,
        ;
        secs * 1000
    }
}

/// Whether `b` was used within `ttl_ms` of `now_ms`.
pub fn is_fresh(b: &RateLimitBucket, now_ms: u64, ttl_ms: u64) -> (r: bool)
    ensures
        r == bucket_is_fresh(*b, now_ms, ttl_ms),
{
    elapsed_ms(now_ms, b.last_accessed_ms) < ttl_ms
}

/// The bucket as it stands when a check at `now` begins: created if absent,
/// its window restarted once `window_ms` has passed, touched at `now`.
pub open spec fn refreshed(b: Option<RateLimitBucket>, now: u64, window_ms: u64) -> RateLimitBucket {
    match b {
        Some(b) => {
            if elapsed(now, b.window_start_ms) >= window_ms {
                RateLimitBucket { count: 0, window_start_ms: now, last_accessed_ms: now }
            } else {
                RateLimitBucket { count: b.count, window_start_ms: b.window_start_ms, last_accessed_ms: now }
            }
        },
        None => RateLimitBucket { count: 0, window_start_ms: now, last_accessed_ms: now },
    }
}

/// The verdict of one check on one bucket.
pub struct Admission {
    /// The bucket after the check.
    pub bucket: RateLimitBucket,
    /// `Ok` when admitted; otherwise the seconds to wait.
    pub result: Result<(), u64>,
    /// Requests left in the window.
    pub remaining: u32,
}

/// One check: refuse once `limit` requests were admitted in the window,
/// telling how many whole seconds remain of it; otherwise count the request.
pub open spec fn admission(b: Option<RateLimitBucket>, now: u64, window_secs: u64, limit: u32) -> Admission {
    let c = refreshed(b, now, secs_to_ms(window_secs));
    if c.count >= limit {
        Admission {
            bucket: c,
            result: Err(
                if window_secs >= elapsed(now, c.window_start_ms) / 1000 {
                    (window_secs - elapsed(now, c.window_start_ms) / 1000) as u64
                } else {
                    0
                },
            ),
            remaining: 0,
        }
    } else {
        Admission {
            bucket: RateLimitBucket { count: (c.count + 1) as u32, ..c },
            result: Ok(()),
            remaining: (limit - (c.count + 1)) as u32,
        }
    }
}

/// Checks one request against bucket `b`.
pub fn admit_request(b: Option<RateLimitBucket>, now: u64, window_secs: u64, limit: u32) -> (r: (RateLimitBucket, Result<(), u64>, u32))
    ensures
        ({
            let a = admission(b, now, window_secs, limit);
            r.0 == a.bucket && r.1 == a.result && r.2 == a.remaining
        }),
{
    let window_ms = to_millis(window_secs);
    let c = match b {
        Some(b) => {
            if elapsed_ms(now, b.window_start_ms) >= window_ms {
                RateLimitBucket { count: 0, window_start_ms: now, last_accessed_ms: now }
            } else {
                RateLimitBucket { count: b.count, window_start_ms: b.window_start_ms, last_accessed_ms: now }
            }
        },
        None => RateLimitBucket { count: 0, window_start_ms: now, last_accessed_ms: now },
    };
    if c.count >= limit {
        let waited = elapsed_ms(now, c.window_start_ms) / 1000;
        (c, Err(window_secs.saturating_sub(waited)), 0)
    } else {
        let count = c.count + 1;
        (RateLimitBucket { count, ..c }, Ok(()), limit - count)
    }
}

/// Forwarded headers are believed only from a listed proxy: from any other
/// peer the peer's own address is the client, and an anonymous request is
/// counted under `anon:<peer>`; from a listed proxy the first
/// `X-Forwarded-For` entry is the client.
pub proof fn lemma_forwarded_only_from_trusted(config: RateLimitConfig, req: RateLimitRequest)
    ensures
        req.peer_ip matches Some(p) ==> (!peer_trusted(config, p@) ==> client_ip_of(config, req) == Some(p@)),
        req.peer_ip matches Some(p) ==> (!peer_trusted(config, p@) && req.tenant is None && req.api_key is None
            ==> rate_limit_key_of(config, req) == ("anon:"@ + p@, config.anonymous_limit)),
        req.peer_ip matches Some(p) ==> (peer_trusted(config, p@) ==> (req.forwarded_for matches Some(f)
            ==> client_ip_of(config, req) == Some(trim_of(first_field(f@))))),
        config.trusted_proxies is None ==> (req.peer_ip matches Some(p) ==> client_ip_of(config, req) == Some(p@)),
{
}

/// The tier a lowercase name selects; unknown names select Standard.
pub open spec fn tier_named(s: Seq<char>) -> TenantTier {
    if s == "free"@ {
        TenantTier::Free
    } else if s == "premium"@ {
        TenantTier::Premium
    } else if s == "enterprise"@ {
        TenantTier::Enterprise
    } else {
        TenantTier::Standard
    }
}

/// The lowercase name of a tier.
pub open spec fn tier_name(t: TenantTier) -> Seq<char> {
    match t {
        TenantTier::Free => "free"@,
        TenantTier::Standard => "standard"@,
        TenantTier::Premium => "premium"@,
        TenantTier::Enterprise => "enterprise"@,
    }
}

/// The tier a lowercase name names exactly, if any.
pub open spec fn tier_exact(s: Seq<char>) -> Option<TenantTier> {
    if s == "free"@ {
        Some(TenantTier::Free)
    } else if s == "standard"@ {
        Some(TenantTier::Standard)
    } else if s == "premium"@ {
        Some(TenantTier::Premium)
    } else if s == "enterprise"@ {
        Some(TenantTier::Enterprise)
    } else {
        None
    }
}

impl TenantTier {
    /// The lowercase name of the tier.
    pub fn as_str(&self) -> (r: &'static str)
        ensures
            r@ == tier_name(*self),
    {
        match self {
            TenantTier::Free => "free",
            TenantTier::Standard => "standard",
            TenantTier::Premium => "premium",
            TenantTier::Enterprise => "enterprise",
        }
    }

    /// The tier of an already-lowercase name, Standard when unknown.
    pub fn from_lowercase(s: &str) -> (r: TenantTier)
        ensures
            r == tier_named(s@),
    {
        if same_text(s, "free") {
            TenantTier::Free
        } else if same_text(s, "premium") {
            TenantTier::Premium
        } else if same_text(s, "enterprise") {
            TenantTier::Enterprise
        } else {
            TenantTier::Standard
        }
    }

    /// The tier of a name in any case, Standard when unknown.
    pub fn parse_tier(s: &str) -> (r: TenantTier)
        ensures
            r == tier_named(lower_of(s@)),
    {
        let lower = lowercase(s);
        TenantTier::from_lowercase(lower.as_str())
    }

    /// The tier that an already-lowercase name names exactly.
    pub fn exact_from_lowercase(s: &str) -> (r: Result<TenantTier, String>)
        ensures
            match tier_exact(s@) {
                Some(t) => r == Ok::<TenantTier, String>(t),
                None => r matches Err(m) && m@ == "Unknown tier: "@ + s@,
            },
    {
        if same_text(s, "free") {
            Ok(TenantTier::Free)
        } else if same_text(s, "standard") {
            Ok(TenantTier::Standard)
        } else if same_text(s, "premium") {
            Ok(TenantTier::Premium)
        } else if same_text(s, "enterprise") {
            Ok(TenantTier::Enterprise)
        } else {
            let mut m = String::from_str("Unknown tier: ");
            m.append(s);
            Err(m)
        }
    }
}

impl std::str::FromStr for TenantTier {
    type Err = String;

    /// Parses a tier name in any case; an unknown name is an error.
    fn from_str(s: &str) -> Result<TenantTier, String> {
        let lower = lowercase(s);
        TenantTier::exact_from_lowercase(lower.as_str())
    }
}

} // verus!
