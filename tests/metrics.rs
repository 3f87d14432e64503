use catalog_gate::metrics::{
    record_catalog_operation, record_circuit_breaker_trip, record_connection_timeout, record_tenant_api_call,
    record_tenant_backend_cache_hit, record_tenant_backend_cache_miss, record_tenant_created, record_tenant_deleted,
    record_tenant_lifecycle_event, record_tenant_purged, record_tenant_rate_limit_hit, record_tenant_reactivated,
    record_tenant_suspended, update_active_connections, update_circuit_breaker_state, update_datasets_total,
    update_tenant_backend_cache_size, update_tenant_datasets_total, MetricFamily, TenantMetrics,
};

fn labels(parts: &[&str]) -> Vec<String> {
    parts.iter().map(|s| s.to_string()).collect()
}

#[test]
fn counters_start_at_zero_and_count_per_label_set() {
    let mut m = TenantMetrics::new();
    assert_eq!(m.tenant_rate_limit_hits_total.get(&labels(&["acme", "premium"])), 0);
    record_tenant_rate_limit_hit(&mut m, "acme", "premium");
    record_tenant_rate_limit_hit(&mut m, "acme", "premium");
    record_tenant_rate_limit_hit(&mut m, "beta", "free");
    assert_eq!(m.tenant_rate_limit_hits_total.get(&labels(&["acme", "premium"])), 2);
    assert_eq!(m.tenant_rate_limit_hits_total.get(&labels(&["beta", "free"])), 1);
    assert_eq!(m.tenant_rate_limit_hits_total.get(&labels(&["acme", "free"])), 0);
}

#[test]
fn trips_and_timeouts_are_counted_apart() {
    let mut m = TenantMetrics::new();
    record_connection_timeout(&mut m, "acme");
    record_circuit_breaker_trip(&mut m, "acme");
    assert_eq!(m.tenant_connection_timeouts_total.get(&labels(&["acme"])), 1);
    assert_eq!(m.tenant_circuit_breaker_trips_total.get(&labels(&["acme"])), 1);
    assert_eq!(m.tenant_circuit_breaker_state.get(&labels(&["acme"])), 1);
    update_circuit_breaker_state(&mut m, "acme", false);
    assert_eq!(m.tenant_circuit_breaker_state.get(&labels(&["acme"])), 0);
    assert_eq!(m.tenant_circuit_breaker_trips_total.get(&labels(&["acme"])), 1);
}

#[test]
fn gauges_take_the_last_value() {
    let mut m = TenantMetrics::new();
    update_datasets_total(&mut m, 42);
    update_tenant_backend_cache_size(&mut m, 7);
    update_tenant_datasets_total(&mut m, "acme", 3);
    update_tenant_datasets_total(&mut m, "acme", 5);
    update_active_connections(&mut m, "acme", 4);
    assert_eq!(m.catalog_datasets_total, 42);
    assert_eq!(m.tenant_backend_cache_size, 7);
    assert_eq!(m.tenant_datasets_total.get(&labels(&["acme"])), 5);
    assert_eq!(m.tenant_active_connections.get(&labels(&["acme"])), 4);
}

#[test]
fn lifecycle_cache_and_call_counters() {
    let mut m = TenantMetrics::new();
    record_tenant_created(&mut m);
    record_tenant_suspended(&mut m);
    record_tenant_reactivated(&mut m);
    record_tenant_deleted(&mut m);
    record_tenant_purged(&mut m);
    record_tenant_lifecycle_event(&mut m, "created");
    assert_eq!(m.tenant_lifecycle_events_total.get(&labels(&["created"])), 2);
    assert_eq!(m.tenant_lifecycle_events_total.get(&labels(&["purged"])), 1);
    record_tenant_backend_cache_hit(&mut m);
    record_tenant_backend_cache_miss(&mut m);
    record_tenant_backend_cache_miss(&mut m);
    assert_eq!(m.tenant_backend_cache_total.get(&labels(&["hit"])), 1);
    assert_eq!(m.tenant_backend_cache_total.get(&labels(&["miss"])), 2);
    record_tenant_api_call(&mut m, "acme", "premium", "search");
    record_catalog_operation(&mut m, "search", "ok");
    assert_eq!(m.tenant_api_calls_total.get(&labels(&["acme", "premium", "search"])), 1);
    assert_eq!(m.catalog_operations_total.get(&labels(&["search", "ok"])), 1);
}

#[test]
fn family_set_and_inc() {
    let mut f = MetricFamily::new();
    f.set(labels(&["a"]), i64::MAX);
    f.inc(labels(&["a"]));
    assert_eq!(f.get(&labels(&["a"])), i64::MAX);
    f.inc(labels(&["b", "c"]));
    assert_eq!(f.get(&labels(&["b", "c"])), 1);
    assert_eq!(f.get(&labels(&["b"])), 0);
}
