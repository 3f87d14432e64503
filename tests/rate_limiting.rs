use catalog_gate::limiter::RateLimiter;
use catalog_gate::rate_limit::{
    admit_request, ApiKeyId, RateLimitConfig, RateLimitRequest, TenantRateLimitInfo, TenantTier,
    DEFAULT_ANONYMOUS_LIMIT, DEFAULT_AUTHENTICATED_LIMIT, DEFAULT_BUCKET_TTL_SECS, DEFAULT_ENTERPRISE_TIER_LIMIT,
    DEFAULT_FREE_TIER_LIMIT, DEFAULT_MAX_BUCKETS, DEFAULT_PREMIUM_TIER_LIMIT, DEFAULT_STANDARD_TIER_LIMIT,
    DEFAULT_WINDOW_SECS,
};

fn test_config(anonymous: u32, authenticated: u32) -> RateLimitConfig {
    RateLimitConfig {
        anonymous_limit: anonymous,
        authenticated_limit: authenticated,
        window_secs: 60,
        trusted_proxies: None,
        max_buckets: DEFAULT_MAX_BUCKETS,
        bucket_ttl_secs: DEFAULT_BUCKET_TTL_SECS,
        free_tier_limit: DEFAULT_FREE_TIER_LIMIT,
        standard_tier_limit: DEFAULT_STANDARD_TIER_LIMIT,
        premium_tier_limit: DEFAULT_PREMIUM_TIER_LIMIT,
        enterprise_tier_limit: DEFAULT_ENTERPRISE_TIER_LIMIT,
    }
}

fn empty_request() -> RateLimitRequest {
    RateLimitRequest { tenant: None, api_key: None, peer_ip: None, forwarded_for: None, real_ip: None }
}

fn from_peer(ip: &str) -> RateLimitRequest {
    RateLimitRequest { peer_ip: Some(ip.to_string()), ..empty_request() }
}

#[test]
fn test_config_defaults() {
    let config = RateLimitConfig::default();
    assert_eq!(config.anonymous_limit, DEFAULT_ANONYMOUS_LIMIT);
    assert_eq!(config.authenticated_limit, DEFAULT_AUTHENTICATED_LIMIT);
    assert_eq!(config.window_secs, DEFAULT_WINDOW_SECS);
    assert_eq!(config.free_tier_limit, DEFAULT_FREE_TIER_LIMIT);
    assert_eq!(config.standard_tier_limit, DEFAULT_STANDARD_TIER_LIMIT);
    assert_eq!(config.premium_tier_limit, DEFAULT_PREMIUM_TIER_LIMIT);
    assert_eq!(config.enterprise_tier_limit, DEFAULT_ENTERPRISE_TIER_LIMIT);
}

#[test]
fn test_tenant_tier_parsing() {
    assert_eq!("free".parse::<TenantTier>().unwrap(), TenantTier::Free);
    assert_eq!("FREE".parse::<TenantTier>().unwrap(), TenantTier::Free);
    assert_eq!("standard".parse::<TenantTier>().unwrap(), TenantTier::Standard);
    assert_eq!("premium".parse::<TenantTier>().unwrap(), TenantTier::Premium);
    assert_eq!("enterprise".parse::<TenantTier>().unwrap(), TenantTier::Enterprise);
    assert!("unknown".parse::<TenantTier>().is_err());
}

#[test]
fn parse_tier_defaults_to_standard() {
    assert_eq!(TenantTier::parse_tier("Premium"), TenantTier::Premium);
    assert_eq!(TenantTier::parse_tier("ENTERPRISE"), TenantTier::Enterprise);
    assert_eq!(TenantTier::parse_tier("free"), TenantTier::Free);
    assert_eq!(TenantTier::parse_tier("gold"), TenantTier::Standard);
    assert_eq!("Gold".parse::<TenantTier>().unwrap_err(), "Unknown tier: gold");
}

#[test]
fn test_tenant_rate_limit_with_api_key() {
    let config = test_config(100, 1000);
    let req = RateLimitRequest {
        tenant: Some(TenantRateLimitInfo { tenant_id: "acme-corp".to_string(), tier: TenantTier::Premium }),
        api_key: Some(ApiKeyId { id: "key-123".to_string() }),
        ..empty_request()
    };
    let (key, limit) = config.rate_limit_key(&req);
    assert_eq!(key, "tenant:acme-corp:auth:key-123");
    assert_eq!(limit, DEFAULT_PREMIUM_TIER_LIMIT);
    assert_eq!(limit, 5000);
}

#[test]
fn test_tenant_rate_limit_with_ip() {
    let config = test_config(100, 1000);
    let req = RateLimitRequest {
        tenant: Some(TenantRateLimitInfo { tenant_id: "test-tenant".to_string(), tier: TenantTier::Free }),
        ..from_peer("192.168.1.100")
    };
    let (key, limit) = config.rate_limit_key(&req);
    assert_eq!(key, "tenant:test-tenant:ip:192.168.1.100");
    assert_eq!(limit, DEFAULT_FREE_TIER_LIMIT);
}

#[test]
fn test_enterprise_tier_limit() {
    let config = test_config(100, 1000);
    let req = RateLimitRequest {
        tenant: Some(TenantRateLimitInfo { tenant_id: "big-corp".to_string(), tier: TenantTier::Enterprise }),
        ..from_peer("10.0.0.1")
    };
    let (key, limit) = config.rate_limit_key(&req);
    assert_eq!(key, "tenant:big-corp:ip:10.0.0.1");
    assert_eq!(limit, DEFAULT_ENTERPRISE_TIER_LIMIT);
}

#[test]
fn tenant_without_sub_identity_is_unknown() {
    let config = test_config(100, 1000);
    let req = RateLimitRequest {
        tenant: Some(TenantRateLimitInfo { tenant_id: "acme-corp".to_string(), tier: TenantTier::Standard }),
        ..empty_request()
    };
    assert_eq!(config.rate_limit_key(&req), ("tenant:acme-corp:unknown".to_string(), 1000));
    assert_eq!(config.rate_limit_key(&empty_request()), ("anon:unknown".to_string(), 100));
}

#[test]
fn test_rate_limiter_key_with_api_key() {
    let config = RateLimitConfig::default();
    let req = RateLimitRequest { api_key: Some(ApiKeyId { id: "test-key-123".to_string() }), ..empty_request() };
    let (key, limit) = config.rate_limit_key(&req);
    assert_eq!(key, "auth:test-key-123");
    assert_eq!(limit, DEFAULT_AUTHENTICATED_LIMIT);
}

#[test]
fn test_rate_limiter_key_fallback_to_ip() {
    let config = RateLimitConfig::default();
    let (key, limit) = config.rate_limit_key(&from_peer("127.0.0.1"));
    assert_eq!(key, "anon:127.0.0.1");
    assert_eq!(limit, DEFAULT_ANONYMOUS_LIMIT);
    assert_eq!(limit, 100);
}

#[test]
fn test_rate_limiter_allows_under_limit() {
    let mut config = test_config(5, 10);
    config.window_secs = 60;
    let mut limiter = RateLimiter::new(config);
    let req = from_peer("127.0.0.1");
    for i in 0..5u64 {
        let (result, metadata) = limiter.check_rate_limit_with_metadata(&req, 1_000 + i, 1_700_000_000);
        assert!(result.is_ok());
        assert_eq!(metadata.limit, 5);
        assert_eq!(metadata.remaining, 4 - i as u32);
    }
    let (result, metadata) = limiter.check_rate_limit_with_metadata(&req, 1_010, 1_700_000_000);
    let retry_after = result.unwrap_err();
    assert!(retry_after > 0);
    assert_eq!(retry_after, 60);
    assert_eq!(metadata.remaining, 0);
    assert_eq!(metadata.reset, 1_700_000_059);
}

#[test]
fn window_expiry_restores_quota() {
    let mut limiter = RateLimiter::new(test_config(2, 10));
    let req = from_peer("127.0.0.1");
    assert!(limiter.check_rate_limit_with_metadata(&req, 0, 100).0.is_ok());
    assert!(limiter.check_rate_limit_with_metadata(&req, 10_000, 110).0.is_ok());
    assert_eq!(limiter.check_rate_limit_with_metadata(&req, 30_000, 130).0, Err(30));
    let (result, metadata) = limiter.check_rate_limit_with_metadata(&req, 60_000, 160);
    assert!(result.is_ok());
    assert_eq!(metadata.remaining, 1);
    assert_eq!(metadata.reset, 220);
}

#[test]
fn test_trusted_proxy_validation() {
    let mut config = test_config(100, 1000);
    config.trusted_proxies = Some(vec!["10.0.0.1".to_string()]);
    let trusted_req = RateLimitRequest { forwarded_for: Some("203.0.113.1".to_string()), ..from_peer("10.0.0.1") };
    let (key, _) = config.rate_limit_key(&trusted_req);
    assert_eq!(key, "anon:203.0.113.1", "Should use X-Forwarded-For from trusted proxy");

    let untrusted_req = RateLimitRequest { forwarded_for: Some("203.0.113.1".to_string()), ..from_peer("192.168.1.1") };
    let (key, _) = config.rate_limit_key(&untrusted_req);
    assert_eq!(key, "anon:192.168.1.1", "Should ignore X-Forwarded-For from untrusted source");
}

#[test]
fn forwarded_for_takes_first_trimmed_entry() {
    let mut config = test_config(100, 1000);
    config.trusted_proxies = Some(vec!["10.0.0.1".to_string()]);
    let req = RateLimitRequest {
        forwarded_for: Some(" 198.51.100.7 , 10.0.0.1".to_string()),
        real_ip: Some("203.0.113.9".to_string()),
        ..from_peer("10.0.0.1")
    };
    assert_eq!(config.client_ip(&req), Some("198.51.100.7".to_string()));
    let real_only = RateLimitRequest { real_ip: Some("203.0.113.9".to_string()), ..from_peer("10.0.0.1") };
    assert_eq!(config.client_ip(&real_only), Some("203.0.113.9".to_string()));
    let no_proxies = RateLimitRequest { forwarded_for: Some("203.0.113.1".to_string()), ..from_peer("10.0.0.1") };
    assert_eq!(test_config(100, 1000).client_ip(&no_proxies), Some("10.0.0.1".to_string()));
}

#[test]
fn test_bucket_cleanup() {
    let mut limiter = RateLimiter::new(test_config(100, 1000));
    for i in 0..10 {
        let req = from_peer(&format!("127.0.0.{}", i));
        let (result, _metadata) = limiter.check_rate_limit_with_metadata(&req, 5_000, 100);
        assert!(result.is_ok());
    }
    assert_eq!(limiter.bucket_count(), 10, "Should have 10 buckets");
}

#[test]
fn test_bucket_ttl_prevents_eviction_of_active() {
    let mut config = test_config(100, 1000);
    config.max_buckets = 2;
    let mut limiter = RateLimiter::new(config);
    let a = from_peer("127.0.0.1");
    let b = from_peer("127.0.0.2");
    assert!(limiter.check_rate_limit_with_metadata(&a, 0, 0).0.is_ok());
    assert!(limiter.check_rate_limit_with_metadata(&b, 1_000, 1).0.is_ok());
    assert!(limiter.check_rate_limit_with_metadata(&a, 2_000, 2).0.is_ok());
    assert_eq!(limiter.bucket_count(), 2);
    assert_eq!(limiter.bucket(&"anon:127.0.0.1".to_string()).unwrap().count, 2);
}

#[test]
fn test_trusted_proxy_ipv6() {
    let mut config = test_config(100, 1000);
    config.trusted_proxies = Some(vec!["2001:db8::1".to_string()]);
    let trusted_req = RateLimitRequest { forwarded_for: Some("203.0.113.1".to_string()), ..from_peer("2001:db8::1") };
    let (key, _) = config.rate_limit_key(&trusted_req);
    assert_eq!(key, "anon:203.0.113.1", "Should use X-Forwarded-For from trusted IPv6 proxy");
    let untrusted = RateLimitRequest { forwarded_for: Some("203.0.113.1".to_string()), ..from_peer("2001:db8::2") };
    assert_eq!(config.rate_limit_key(&untrusted).0, "anon:2001:db8::2");
}

#[test]
fn test_untrusted_proxy_ignores_x_real_ip() {
    let mut config = test_config(100, 1000);
    config.trusted_proxies = Some(vec!["10.0.0.1".to_string()]);
    let untrusted_req = RateLimitRequest { real_ip: Some("203.0.113.1".to_string()), ..from_peer("192.168.1.1") };
    let (key, _) = config.rate_limit_key(&untrusted_req);
    assert_eq!(key, "anon:192.168.1.1", "Should ignore X-Real-IP from untrusted source");
}

#[test]
fn test_bucket_cap_enforcement() {
    let mut config = test_config(100, 1000);
    config.max_buckets = 20;
    let mut limiter = RateLimiter::new(config);
    for i in 0..10 {
        let req = from_peer(&format!("127.0.0.{}", i));
        assert!(limiter.check_rate_limit_with_metadata(&req, 0, 0).0.is_ok());
    }
    assert_eq!(limiter.bucket_count(), 10, "Should have 10 buckets");

    // Past the idle limit every earlier bucket is stale.
    let later = (DEFAULT_BUCKET_TTL_SECS + 1) * 1000;
    assert!(limiter.check_rate_limit_with_metadata(&from_peer("127.0.0.11"), later, 601).0.is_ok());
    assert_eq!(limiter.bucket_count(), 11);

    assert!(limiter.check_rate_limit_with_metadata(&from_peer("127.0.0.12"), later, 601).0.is_ok());
    assert_eq!(limiter.bucket_count(), 2, "Old buckets should be evicted when cap threshold reached");
}

#[test]
fn admit_request_counts_and_refuses() {
    let (b, r, remaining) = admit_request(None, 500, 60, 1);
    assert_eq!((b.count, b.window_start_ms, r, remaining), (1, 500, Ok(()), 0));
    let (b2, r2, remaining2) = admit_request(Some(b), 30_500, 60, 1);
    assert_eq!((b2.count, r2, remaining2), (1, Err(30), 0));
    let (b3, r3, _) = admit_request(Some(b2), 60_500, 60, 1);
    assert_eq!((b3.count, b3.window_start_ms, r3), (1, 60_500, Ok(())));
    let (_, zero, _) = admit_request(None, 0, 60, 0);
    assert_eq!(zero, Err(60));
}
