use vstd::prelude::*;
use vstd::string::*;

verus! {

/// The characters of each label of a label set.
pub open spec fn label_key(labels: Seq<String>) -> Seq<Seq<char>> {
    labels.map_values(|s: String| s@)
}

/// A family of integer series told apart by label values.
#[derive(Clone, Debug)]
pub struct MetricFamily {
    keys: Vec<Vec<String>>,
    values: Vec<i64>,
}

/// One more, saturating at the largest `i64`.
pub open spec fn bumped(v: i64) -> i64 {
    if v == i64::MAX {
        v
    } else {
        (v + 1) as i64
    }
}

fn same_labels(a: &Vec<String>, b: &Vec<String>) -> (r: bool)
    ensures
        r == (label_key(a@) == label_key(b@)),
{
    if a.len() != b.len() {
        assert(label_key(a@).len() != label_key(b@).len());
        return false;
    }
    let mut i: usize = 0;
    while i < a.len()
        invariant
            a@.len() == b@.len(),
            i <= a@.len(),
            forall|j: int| 0 <= j < i ==> (#[trigger] a@[j])@ == b@[j]@,
        decreases a@.len() - i,
    {
        if !a[i].eq(&b[i]) {
            assert(label_key(a@)[i as int] != label_key(b@)[i as int]);
            return false;
        }
        i = i + 1;
    }
    assert(label_key(a@) =~= label_key(b@));
    true
}

impl MetricFamily {
    /// The series are told apart by their labels.
    pub closed spec fn wf(&self) -> bool {
        &&& self.keys@.len() == self.values@.len()
        &&& forall|i: int, j: int|
            0 <= i < j < self.keys@.len() ==> label_key(#[trigger] self.keys@[i]@) != label_key(#[trigger] self.keys@[j]@)
    }

    closed spec fn key_at(&self, i: int) -> Seq<Seq<char>> {
        label_key(self.keys@[i]@)
    }

    /// Whether a series with these labels exists.
    pub closed spec fn has(&self, k: Seq<Seq<char>>) -> bool {
        exists|i: int| 0 <= i < self.keys@.len() && #[trigger] self.key_at(i) == k
    }

    /// The value of the series with these labels; zero when there is none.
    pub closed spec fn value(&self, k: Seq<Seq<char>>) -> i64 {
        if self.has(k) {
            self.values@[choose|i: int| 0 <= i < self.keys@.len() && #[trigger] self.key_at(i) == k]
        } else {
            0
        }
    }

    pub fn new() -> (r: MetricFamily)
        ensures
            r.wf(),
            forall|k: Seq<Seq<char>>| #[trigger] r.value(k) == 0,
    {
        MetricFamily { keys: Vec::new(), values: Vec::new() }
    }

    proof fn lemma_value_at(&self, i: int)
        requires
            self.wf(),
            0 <= i < self.keys@.len(),
        ensures
            self.has(self.key_at(i)),
            self.value(self.key_at(i)) == self.values@[i],
    {
        let k = self.key_at(i);
        assert(self.has(k));
        let j = choose|j: int| 0 <= j < self.keys@.len() && #[trigger] self.key_at(j) == k;
        if j < i {
            assert(label_key(self.keys@[j]@) != label_key(self.keys@[i]@));
        } else if i < j {
            assert(label_key(self.keys@[i]@) != label_key(self.keys@[j]@));
        }
    }

    fn find(&self, labels: &Vec<String>) -> (r: Option<usize>)
        requires
            self.wf(),
        ensures
            match r {
                Some(i) => i < self.keys@.len() && self.key_at(i as int) == label_key(labels@),
                None => !self.has(label_key(labels@)),
            },
    {
        let mut i: usize = 0;
        while i < self.keys.len()
            invariant
                i <= self.keys@.len(),
                forall|j: int| 0 <= j < i ==> #[trigger] self.key_at(j) != label_key(labels@),
            decreases self.keys@.len() - i,
        {
            if same_labels(&self.keys[i], labels) {
                return Some(i);
            }
            i = i + 1;
        }
        None
    }

    /// The value of the series with `labels`.
    pub fn get(&self, labels: &Vec<String>) -> (r: i64)
        requires
            self.wf(),
        ensures
            r == self.value(label_key(labels@)),
    {
        match self.find(labels) {
            Some(i) => {
                proof {
                    self.lemma_value_at(i as int);
                }
                self.values[i]
            },
            None => 0,
        }
    }

    /// Counts one more for the series with `labels` (saturating); other
    /// series keep their values.
    pub fn inc(&mut self, labels: Vec<String>)
        requires
            old(self).wf(),
        ensures
            final(self).wf(),
            final(self).value(label_key(labels@)) == bumped(old(self).value(label_key(labels@))),
            forall|k: Seq<Seq<char>>| k != label_key(labels@) ==> #[trigger] final(self).value(k) == old(self).value(k),
    {
        let cur = self.get(&labels);
        let next = if cur == i64::MAX {
            cur
        } else {
            cur + 1
        };
        self.set(labels, next);
    }

    /// Sets the series with `labels` to `v`; other series keep their values.
    pub fn set(&mut self, labels: Vec<String>, v: i64)
        requires
            old(self).wf(),
        ensures
            final(self).wf(),
            final(self).value(label_key(labels@)) == v,
            forall|k: Seq<Seq<char>>| k != label_key(labels@) ==> #[trigger] final(self).value(k) == old(self).value(k),
    {
        let ghost key = label_key(labels@);
        let ghost pre = *self;
        match self.find(&labels) {
            Some(i) => {
                self.values.set(i, v);
                proof {
                    assert(self.keys@ == pre.keys@);
                    self.lemma_value_at(i as int);
                    assert forall|k: Seq<Seq<char>>| k != key implies #[trigger] self.value(k) == pre.value(k) by {
                        if pre.has(k) {
                            let j = choose|j: int| 0 <= j < pre.keys@.len() && #[trigger] pre.key_at(j) == k;
                            pre.lemma_value_at(j);
                            self.lemma_value_at(j);
                        } else {
                            assert(!self.has(k)) by {
                                if self.has(k) {
                                    let j = choose|j: int| 0 <= j < self.keys@.len() && #[trigger] self.key_at(j) == k;
                                    assert(pre.key_at(j) == k);
                                }
                            }
                        }
                    }
                }
            },
            None => {
                self.keys.push(labels);
                self.values.push(v);
                proof {
                    let n = pre.keys@.len() as int;
                    assert(self.key_at(n) == key);
                    assert forall|i: int, j: int|
                        0 <= i < j < self.keys@.len() implies label_key(#[trigger] self.keys@[i]@) != label_key(
                            #[trigger] self.keys@[j]@,
                        ) by {
                        if j == n {
                            assert(pre.key_at(i) != key);
                        } else {
                            assert(pre.key_at(i) != pre.key_at(j));
                        }
                    }
                    self.lemma_value_at(n);
                    assert forall|k: Seq<Seq<char>>| k != key implies #[trigger] self.value(k) == pre.value(k) by {
                        if pre.has(k) {
                            let j = choose|j: int| 0 <= j < pre.keys@.len() && #[trigger] pre.key_at(j) == k;
                            pre.lemma_value_at(j);
                            assert(self.key_at(j) == k);
                            self.lemma_value_at(j);
                        } else {
                            assert(!self.has(k)) by {
                                if self.has(k) {
                                    let j = choose|j: int| 0 <= j < self.keys@.len() && #[trigger] self.key_at(j) == k;
                                    if j < n {
                                        assert(pre.key_at(j) == k);
                                    }
                                }
                            }
                        }
                    }
                }
            },
        }
    }
}

fn labels1(a: &str) -> (r: Vec<String>)
    ensures
        label_key(r@) == seq![a@],
{
    let r = vec![a.to_owned()];
    assert(label_key(r@) =~= seq![a@]);
    r
}

fn labels2(a: &str, b: &str) -> (r: Vec<String>)
    ensures
        label_key(r@) == seq![a@, b@],
{
    let r = vec![a.to_owned(), b.to_owned()];
    assert(label_key(r@) =~= seq![a@, b@]);
    r
}

fn labels3(a: &str, b: &str, c: &str) -> (r: Vec<String>)
    ensures
        label_key(r@) == seq![a@, b@, c@],
{
    let r = vec![a.to_owned(), b.to_owned(), c.to_owned()];
    assert(label_key(r@) =~= seq![a@, b@, c@]);
    r
}

/// A count as a gauge value, saturating at the largest `i64`.
pub open spec fn gauge_of(n: usize) -> i64 {
    if n > i64::MAX as usize {
        i64::MAX
    } else {
        n as i64
    }
}

fn to_gauge(n: usize) -> (r: i64)
    ensures
        r == gauge_of(n),
{
    if n > i64::MAX as usize {
        i64::MAX
    } else {
        n as i64
    }
}

/// The service's metrics, built once at startup and handed to whoever
/// records.
#[derive(Clone, Debug)]
pub struct TenantMetrics {
    /// By operation and status.
    pub catalog_operations_total: MetricFamily,
    pub catalog_datasets_total: i64,
    /// By tenant, tier and operation.
    pub tenant_api_calls_total: MetricFamily,
    /// By tenant and tier.
    pub tenant_rate_limit_hits_total: MetricFamily,
    /// By result, `hit` or `miss`.
    pub tenant_backend_cache_total: MetricFamily,
    pub tenant_backend_cache_size: i64,
    /// By tenant.
    pub tenant_datasets_total: MetricFamily,
    /// By event: `created`, `suspended`, `reactivated`, `deleted`, `purged`.
    pub tenant_lifecycle_events_total: MetricFamily,
    /// By tenant.
    pub tenant_active_connections: MetricFamily,
    /// By tenant.
    pub tenant_connection_timeouts_total: MetricFamily,
    /// By tenant: 1 when open, 0 when closed.
    pub tenant_circuit_breaker_state: MetricFamily,
    /// By tenant.
    pub tenant_circuit_breaker_trips_total: MetricFamily,
}

impl TenantMetrics {
    pub open spec fn wf(&self) -> bool {
        &&& self.catalog_operations_total.wf()
        &&& self.tenant_api_calls_total.wf()
        &&& self.tenant_rate_limit_hits_total.wf()
        &&& self.tenant_backend_cache_total.wf()
        &&& self.tenant_datasets_total.wf()
        &&& self.tenant_lifecycle_events_total.wf()
        &&& self.tenant_active_connections.wf()
        &&& self.tenant_connection_timeouts_total.wf()
        &&& self.tenant_circuit_breaker_state.wf()
        &&& self.tenant_circuit_breaker_trips_total.wf()
    }

    /// A registry where every series reads zero.
    pub fn new() -> (r: TenantMetrics)
        ensures
            r.wf(),
            r.catalog_datasets_total == 0,
            r.tenant_backend_cache_size == 0,
            forall|k: Seq<Seq<char>>| #[trigger] r.tenant_rate_limit_hits_total.value(k) == 0,
            forall|k: Seq<Seq<char>>| #[trigger] r.tenant_circuit_breaker_trips_total.value(k) == 0,
            forall|k: Seq<Seq<char>>| #[trigger] r.tenant_connection_timeouts_total.value(k) == 0,
    {
        TenantMetrics {
            catalog_operations_total: MetricFamily::new(),
            catalog_datasets_total: 0,
            tenant_api_calls_total: MetricFamily::new(),
            tenant_rate_limit_hits_total: MetricFamily::new(),
            tenant_backend_cache_total: MetricFamily::new(),
            tenant_backend_cache_size: 0,
            tenant_datasets_total: MetricFamily::new(),
            tenant_lifecycle_events_total: MetricFamily::new(),
            tenant_active_connections: MetricFamily::new(),
            tenant_connection_timeouts_total: MetricFamily::new(),
            tenant_circuit_breaker_state: MetricFamily::new(),
            tenant_circuit_breaker_trips_total: MetricFamily::new(),
        }
    }
}

/// Counts a catalog operation.
pub fn record_catalog_operation(m: &mut TenantMetrics, operation: &str, status: &str)
    requires
        old(m).wf(),
    ensures
        final(m).wf(),
        *final(m) == (TenantMetrics { catalog_operations_total: final(m).catalog_operations_total, ..*old(m) }),
        final(m).catalog_operations_total.value(seq![operation@, status@]) == bumped(
            old(m).catalog_operations_total.value(seq![operation@, status@]),
        ),
        forall|k: Seq<Seq<char>>| k != seq![operation@, status@] ==> #[trigger] final(m).catalog_operations_total.value(k)
            == old(m).catalog_operations_total.value(k),
{
    m.catalog_operations_total.inc(labels2(operation, status));
}

/// Sets the number of datasets in the catalog.
pub fn update_datasets_total(m: &mut TenantMetrics, count: i64)
    ensures
        *final(m) == (TenantMetrics { catalog_datasets_total: count, ..*old(m) }),
{
    m.catalog_datasets_total = count;
}

/// Counts an API call of a tenant.
pub fn record_tenant_api_call(m: &mut TenantMetrics, tenant_id: &str, tier: &str, operation: &str)
    requires
        old(m).wf(),
    ensures
        final(m).wf(),
        *final(m) == (TenantMetrics { tenant_api_calls_total: final(m).tenant_api_calls_total, ..*old(m) }),
        final(m).tenant_api_calls_total.value(seq![tenant_id@, tier@, operation@]) == bumped(
            old(m).tenant_api_calls_total.value(seq![tenant_id@, tier@, operation@]),
        ),
        forall|k: Seq<Seq<char>>| k != seq![tenant_id@, tier@, operation@] ==> #[trigger] final(m).tenant_api_calls_total.value(k)
            == old(m).tenant_api_calls_total.value(k),
{
    m.tenant_api_calls_total.inc(labels3(tenant_id, tier, operation));
}

/// Counts a request refused by the rate limiter.
pub fn record_tenant_rate_limit_hit(m: &mut TenantMetrics, tenant_id: &str, tier: &str)
    requires
        old(m).wf(),
    ensures
        final(m).wf(),
        *final(m) == (TenantMetrics { tenant_rate_limit_hits_total: final(m).tenant_rate_limit_hits_total, ..*old(m) }),
        final(m).tenant_rate_limit_hits_total.value(seq![tenant_id@, tier@]) == bumped(
            old(m).tenant_rate_limit_hits_total.value(seq![tenant_id@, tier@]),
        ),
        forall|k: Seq<Seq<char>>| k != seq![tenant_id@, tier@] ==> #[trigger] final(m).tenant_rate_limit_hits_total.value(k)
            == old(m).tenant_rate_limit_hits_total.value(k),
{
    m.tenant_rate_limit_hits_total.inc(labels2(tenant_id, tier));
}

/// Counts a backend cache lookup with result `result`.
fn record_backend_cache(m: &mut TenantMetrics, result: &str)
    requires
        old(m).wf(),
    ensures
        final(m).wf(),
        *final(m) == (TenantMetrics { tenant_backend_cache_total: final(m).tenant_backend_cache_total, ..*old(m) }),
        final(m).tenant_backend_cache_total.value(seq![result@]) == bumped(
            old(m).tenant_backend_cache_total.value(seq![result@]),
        ),
        forall|k: Seq<Seq<char>>| k != seq![result@] ==> #[trigger] final(m).tenant_backend_cache_total.value(k)
            == old(m).tenant_backend_cache_total.value(k),
{
    m.tenant_backend_cache_total.inc(labels1(result));
}

/// Counts a tenant backend cache hit.
pub fn record_tenant_backend_cache_hit(m: &mut TenantMetrics)
    requires
        old(m).wf(),
    ensures
        final(m).wf(),
        *final(m) == (TenantMetrics { tenant_backend_cache_total: final(m).tenant_backend_cache_total, ..*old(m) }),
        final(m).tenant_backend_cache_total.value(seq!["hit"@]) == bumped(
            old(m).tenant_backend_cache_total.value(seq!["hit"@]),
        ),
        forall|k: Seq<Seq<char>>| k != seq!["hit"@] ==> #[trigger] final(m).tenant_backend_cache_total.value(k)
            == old(m).tenant_backend_cache_total.value(k),
{
    record_backend_cache(m, "hit");
}

/// Counts a tenant backend cache miss.
pub fn record_tenant_backend_cache_miss(m: &mut TenantMetrics)
    requires
        old(m).wf(),
    ensures
        final(m).wf(),
        *final(m) == (TenantMetrics { tenant_backend_cache_total: final(m).tenant_backend_cache_total, ..*old(m) }),
        final(m).tenant_backend_cache_total.value(seq!["miss"@]) == bumped(
            old(m).tenant_backend_cache_total.value(seq!["miss"@]),
        ),
        forall|k: Seq<Seq<char>>| k != seq!["miss"@] ==> #[trigger] final(m).tenant_backend_cache_total.value(k)
            == old(m).tenant_backend_cache_total.value(k),
{
    record_backend_cache(m, "miss");
}

/// Sets the number of cached tenant backends.
pub fn update_tenant_backend_cache_size(m: &mut TenantMetrics, size: usize)
    ensures
        *final(m) == (TenantMetrics { tenant_backend_cache_size: gauge_of(size), ..*old(m) }),
{
    m.tenant_backend_cache_size = to_gauge(size);
}

/// Sets the number of datasets of a tenant.
pub fn update_tenant_datasets_total(m: &mut TenantMetrics, tenant_id: &str, count: i64)
    requires
        old(m).wf(),
    ensures
        final(m).wf(),
        *final(m) == (TenantMetrics { tenant_datasets_total: final(m).tenant_datasets_total, ..*old(m) }),
        final(m).tenant_datasets_total.value(seq![tenant_id@]) == count,
        forall|k: Seq<Seq<char>>| k != seq![tenant_id@] ==> #[trigger] final(m).tenant_datasets_total.value(k)
            == old(m).tenant_datasets_total.value(k),
{
    m.tenant_datasets_total.set(labels1(tenant_id), count);
}

/// Counts a tenant lifecycle event.
pub fn record_tenant_lifecycle_event(m: &mut TenantMetrics, event: &str)
    requires
        old(m).wf(),
    ensures
        final(m).wf(),
        *final(m) == (TenantMetrics { tenant_lifecycle_events_total: final(m).tenant_lifecycle_events_total, ..*old(m) }),
        final(m).tenant_lifecycle_events_total.value(seq![event@]) == bumped(
            old(m).tenant_lifecycle_events_total.value(seq![event@]),
        ),
        forall|k: Seq<Seq<char>>| k != seq![event@] ==> #[trigger] final(m).tenant_lifecycle_events_total.value(k)
            == old(m).tenant_lifecycle_events_total.value(k),
{
    m.tenant_lifecycle_events_total.inc(labels1(event));
}

/// The effect of counting lifecycle event `event`.
pub open spec fn lifecycle_counted(before: TenantMetrics, after: TenantMetrics, event: Seq<char>) -> bool {
    &&& after.wf()
    &&& after == (TenantMetrics { tenant_lifecycle_events_total: after.tenant_lifecycle_events_total, ..before })
    &&& after.tenant_lifecycle_events_total.value(seq![event]) == bumped(
        before.tenant_lifecycle_events_total.value(seq![event]),
    )
    &&& forall|k: Seq<Seq<char>>| k != seq![event] ==> #[trigger] after.tenant_lifecycle_events_total.value(k)
        == before.tenant_lifecycle_events_total.value(k)
}

pub fn record_tenant_created(m: &mut TenantMetrics)
    requires
        old(m).wf(),
    ensures
        lifecycle_counted(*old(m), *final(m), "created"@),
{
    record_tenant_lifecycle_event(m, "created");
}

pub fn record_tenant_suspended(m: &mut TenantMetrics)
    requires
        old(m).wf(),
    ensures
        lifecycle_counted(*old(m), *final(m), "suspended"@),
{
    record_tenant_lifecycle_event(m, "suspended");
}

pub fn record_tenant_reactivated(m: &mut TenantMetrics)
    requires
        old(m).wf(),
    ensures
        lifecycle_counted(*old(m), *final(m), "reactivated"@),
{
    record_tenant_lifecycle_event(m, "reactivated");
}

pub fn record_tenant_deleted(m: &mut TenantMetrics)
    requires
        old(m).wf(),
    ensures
        lifecycle_counted(*old(m), *final(m), "deleted"@),
{
    record_tenant_lifecycle_event(m, "deleted");
}

pub fn record_tenant_purged(m: &mut TenantMetrics)
    requires
        old(m).wf(),
    ensures
        lifecycle_counted(*old(m), *final(m), "purged"@),
{
    record_tenant_lifecycle_event(m, "purged");
}

/// Sets the number of connections a tenant holds.
pub fn update_active_connections(m: &mut TenantMetrics, tenant_id: &str, count: usize)
    requires
        old(m).wf(),
    ensures
        final(m).wf(),
        *final(m) == (TenantMetrics { tenant_active_connections: final(m).tenant_active_connections, ..*old(m) }),
        final(m).tenant_active_connections.value(seq![tenant_id@]) == gauge_of(count),
        forall|k: Seq<Seq<char>>| k != seq![tenant_id@] ==> #[trigger] final(m).tenant_active_connections.value(k)
            == old(m).tenant_active_connections.value(k),
{
    m.tenant_active_connections.set(labels1(tenant_id), to_gauge(count));
}

/// Counts a connection-permit timeout of a tenant, apart from other failures.
pub fn record_connection_timeout(m: &mut TenantMetrics, tenant_id: &str)
    requires
        old(m).wf(),
    ensures
        final(m).wf(),
        *final(m) == (TenantMetrics { tenant_connection_timeouts_total: final(m).tenant_connection_timeouts_total, ..*old(m) }),
        final(m).tenant_connection_timeouts_total.value(seq![tenant_id@]) == bumped(
            old(m).tenant_connection_timeouts_total.value(seq![tenant_id@]),
        ),
        forall|k: Seq<Seq<char>>| k != seq![tenant_id@] ==> #[trigger] final(m).tenant_connection_timeouts_total.value(k)
            == old(m).tenant_connection_timeouts_total.value(k),
{
    m.tenant_connection_timeouts_total.inc(labels1(tenant_id));
}

/// Records whether a tenant's circuit is open (1) or closed (0).
pub fn update_circuit_breaker_state(m: &mut TenantMetrics, tenant_id: &str, is_open: bool)
    requires
        old(m).wf(),
    ensures
        final(m).wf(),
        *final(m) == (TenantMetrics { tenant_circuit_breaker_state: final(m).tenant_circuit_breaker_state, ..*old(m) }),
        final(m).tenant_circuit_breaker_state.value(seq![tenant_id@]) == (if is_open { 1i64 } else { 0i64 }),
        forall|k: Seq<Seq<char>>| k != seq![tenant_id@] ==> #[trigger] final(m).tenant_circuit_breaker_state.value(k)
            == old(m).tenant_circuit_breaker_state.value(k),
{
    m.tenant_circuit_breaker_state.set(labels1(tenant_id), if is_open { 1 } else { 0 });
}

/// Counts a trip of a tenant's circuit and marks it open.
pub fn record_circuit_breaker_trip(m: &mut TenantMetrics, tenant_id: &str)
    requires
        old(m).wf(),
    ensures
        final(m).wf(),
        *final(m) == (TenantMetrics {
            tenant_circuit_breaker_trips_total: final(m).tenant_circuit_breaker_trips_total,
            tenant_circuit_breaker_state: final(m).tenant_circuit_breaker_state,
            ..*old(m)
        }),
        final(m).tenant_circuit_breaker_trips_total.value(seq![tenant_id@]) == bumped(
            old(m).tenant_circuit_breaker_trips_total.value(seq![tenant_id@]),
        ),
        forall|k: Seq<Seq<char>>| k != seq![tenant_id@] ==> #[trigger] final(m).tenant_circuit_breaker_trips_total.value(k)
            == old(m).tenant_circuit_breaker_trips_total.value(k),
        final(m).tenant_circuit_breaker_state.value(seq![tenant_id@]) == 1,
        forall|k: Seq<Seq<char>>| k != seq![tenant_id@] ==> #[trigger] final(m).tenant_circuit_breaker_state.value(k)
            == old(m).tenant_circuit_breaker_state.value(k),
{
    m.tenant_circuit_breaker_trips_total.inc(labels1(tenant_id));
    update_circuit_breaker_state(m, tenant_id, true);
}

} // verus!
