use vstd::prelude::*;
use dashmap::DashMap;
use crate::bucket_store::{buckets_of, store_get, store_insert, store_len, store_new, store_retain_fresh};
use crate::rate_limit::{
    admission, admit_request, bucket_is_fresh, elapsed, elapsed_ms, rate_limit_key_of, secs_to_ms,
    to_millis, RateLimitBucket, RateLimitConfig, RateLimitRequest,
};

verus! {

/// What the rate-limit response headers report.
#[derive(Clone, Copy, Debug, PartialEq, Eq, Structural)]
pub struct RateLimitMetadata {
    /// `X-RateLimit-Limit`.
    pub limit: u32,
    /// `X-RateLimit-Remaining`.
    pub remaining: u32,
    /// `X-RateLimit-Reset`, a Unix time in seconds.
    pub reset: u64,
}

/// The buckets left after the eviction that precedes a check: once there are
/// more than `max_buckets / 2`, every bucket idle for `ttl_ms` or longer goes.
pub open spec fn evicted(
    m: Map<Seq<char>, RateLimitBucket>,
    max_buckets: usize,
    now: u64,
    ttl_ms: u64,
) -> Map<Seq<char>, RateLimitBucket> {
    if m.len() > max_buckets / 2 {
        m.restrict(m.dom().filter(|k: Seq<char>| bucket_is_fresh(m[k], now, ttl_ms)))
    } else {
        m
    }
}

/// The bucket under `key`, if any.
pub open spec fn bucket_at(m: Map<Seq<char>, RateLimitBucket>, key: Seq<char>) -> Option<RateLimitBucket> {
    if m.contains_key(key) {
        Some(m[key])
    } else {
        None
    }
}

/// Unix time at which the window of `b` ends.
pub open spec fn reset_at(b: RateLimitBucket, now: u64, window_secs: u64, unix_now_secs: u64) -> u64 {
    let left_ms = if secs_to_ms(window_secs) >= elapsed(now, b.window_start_ms) {
        secs_to_ms(window_secs) - elapsed(now, b.window_start_ms)
    } else {
        0
    };
    if unix_now_secs + left_ms / 1000 > u64::MAX {
        u64::MAX
    } else {
        (unix_now_secs + left_ms / 1000) as u64
    }
}

/// Fixed-window request counters, one per key, with idle eviction.
pub struct RateLimiter {
    config: RateLimitConfig,
    buckets: DashMap<String, RateLimitBucket>,
}

impl RateLimiter {
    /// The settings the limiter was built with.
    pub closed spec fn spec_config(&self) -> RateLimitConfig {
        self.config
    }

    /// The counters, by key.
    pub closed spec fn spec_buckets(&self) -> Map<Seq<char>, RateLimitBucket> {
        buckets_of(self.buckets)
    }

    pub fn new(config: RateLimitConfig) -> (r: RateLimiter)
        ensures
            r.spec_config() == config,
            r.spec_buckets() =~= Map::<Seq<char>, RateLimitBucket>::empty(),
    {
        RateLimiter { config, buckets: store_new() }
    }

    pub fn config(&self) -> (r: &RateLimitConfig)
        ensures
            *r == self.spec_config(),
    {
        &self.config
    }

    /// Number of keys with a counter.
    pub fn bucket_count(&self) -> (r: usize)
        ensures
            r == self.spec_buckets().len(),
    {
        store_len(&self.buckets)
    }

    /// The counter under `key`, if any.
    pub fn bucket(&self, key: &String) -> (r: Option<RateLimitBucket>)
        ensures
            r == bucket_at(self.spec_buckets(), key@),
    {
        store_get(&self.buckets, key)
    }

    /// Checks one request at monotonic time `now_ms` (Unix time
    /// `unix_now_secs`): evicts idle buckets when there are many, then counts
    /// the request against its key, or refuses it with the seconds to wait.
    pub fn check_rate_limit_with_metadata(
        &mut self,
        req: &RateLimitRequest,
        now_ms: u64,
        unix_now_secs: u64,
    ) -> (r: (Result<(), u64>, RateLimitMetadata))
        ensures
            ({
                let cfg = old(self).spec_config();
                let (key, limit) = rate_limit_key_of(cfg, *req);
                let kept = evicted(old(self).spec_buckets(), cfg.max_buckets, now_ms, secs_to_ms(cfg.bucket_ttl_secs));
                let a = admission(bucket_at(kept, key), now_ms, cfg.window_secs, limit);
                &&& final(self).spec_config() == cfg
                &&& final(self).spec_buckets() == kept.insert(key, a.bucket)
                &&& r.0 == a.result
                &&& r.1.limit == limit
                &&& r.1.remaining == a.remaining
                &&& r.1.reset == reset_at(a.bucket, now_ms, cfg.window_secs, unix_now_secs)
            }),
    {
        let (key, limit) = self.config.rate_limit_key(req);
        let threshold = self.config.max_buckets / 2;
        if store_len(&self.buckets) > threshold {
            let ttl_ms = to_millis(self.config.bucket_ttl_secs);
            store_retain_fresh(&mut self.buckets, now_ms, ttl_ms);
        }
        let existing = store_get(&self.buckets, &key);
        let (bucket, result, remaining) = admit_request(existing, now_ms, self.config.window_secs, limit);
        let window_ms = to_millis(self.config.window_secs);
        let waited = elapsed_ms(now_ms, bucket.window_start_ms);
        let left_ms = window_ms.saturating_sub(waited);
        let reset = unix_now_secs.saturating_add(left_ms / 1000);
        store_insert(&mut self.buckets, key, bucket);
        (result, RateLimitMetadata { limit, remaining, reset })
    }
}

/// The counter of one key after checks at `times`, from no counter at all.
pub open spec fn replay(times: Seq<u64>, window_secs: u64, limit: u32) -> Option<RateLimitBucket>
    decreases times.len(),
{
    if times.len() == 0 {
        None
    } else {
        Some(admission(replay(times.drop_last(), window_secs, limit), times.last(), window_secs, limit).bucket)
    }
}

/// Every time of `times` falls in the window that the first one opens.
pub open spec fn within_first_window(times: Seq<u64>, window_secs: u64) -> bool {
    forall|j: int|
        0 <= j < times.len() ==> times[0] <= #[trigger] times[j] && times[j] - times[0] < secs_to_ms(window_secs)
}

proof fn lemma_replay_counts(times: Seq<u64>, window_secs: u64, limit: u32, k: int)
    requires
        within_first_window(times, window_secs),
        1 <= k <= times.len(),
    ensures
        replay(times.take(k), window_secs, limit) == Some(RateLimitBucket {
            count: if k < limit { k as u32 } else { limit },
            window_start_ms: times[0],
            last_accessed_ms: times[k - 1],
        }),
    decreases k,
{
    let t = times.take(k);
    assert(t.drop_last() =~= times.take(k - 1));
    assert(t.last() == times[k - 1]);
    if k == 1 {
        assert(times.take(0) =~= Seq::<u64>::empty());
    } else {
        lemma_replay_counts(times, window_secs, limit, k - 1);
        assert(times[0] <= times[k - 1]);
    }
}

/// For one key and a quota of `limit`, among checks that all fall in the
/// window the first one opens, exactly the first `limit` are admitted; the
/// next one is refused with nothing remaining and a positive wait.
pub proof fn lemma_quota_within_window(times: Seq<u64>, window_secs: u64, limit: u32)
    requires
        within_first_window(times, window_secs),
    ensures
        forall|k: int|
            0 <= k < times.len() ==> (#[trigger] admission(replay(times.take(k), window_secs, limit), times[k], window_secs, limit).result
                is Ok <==> k < limit),
        limit < times.len() ==> ({
            let a = admission(replay(times.take(limit as int), window_secs, limit), times[limit as int], window_secs, limit);
            &&& a.remaining == 0
            &&& a.result matches Err(wait) && wait > 0
        }),
{
    assert forall|k: int| 0 <= k < times.len() implies (#[trigger] admission(replay(times.take(k), window_secs, limit), times[k], window_secs, limit).result
        is Ok <==> k < limit) by {
        if k == 0 {
            assert(times.take(0) =~= Seq::<u64>::empty());
        } else {
            lemma_replay_counts(times, window_secs, limit, k);
            assert(times[0] <= times[k]);
        }
    }
    if limit < times.len() {
        let k = limit as int;
        if k == 0 {
            assert(times.take(0) =~= Seq::<u64>::empty());
        } else {
            lemma_replay_counts(times, window_secs, limit, k);
        }
        assert(times[0] <= times[k]);
        let e = (times[k] - times[0]) as u64;
        assert(e < secs_to_ms(window_secs));
        assert(e / 1000 < window_secs) by (nonlinear_arith)
            requires
                e < secs_to_ms(window_secs),
                secs_to_ms(window_secs) == (if window_secs * 1000 > u64::MAX { u64::MAX as int } else { window_secs * 1000 }),
                e < u64::MAX,
        ;
    }
}

/// Once a window has run out, the key's next check starts a new window with
/// the full quota: it is admitted and leaves `limit - 1`.
pub proof fn lemma_window_expiry_resets(b: RateLimitBucket, now: u64, window_secs: u64, limit: u32)
    requires
        elapsed(now, b.window_start_ms) >= secs_to_ms(window_secs),
        limit > 0,
    ensures
        admission(Some(b), now, window_secs, limit).result is Ok,
        admission(Some(b), now, window_secs, limit).remaining == limit - 1,
        admission(Some(b), now, window_secs, limit).bucket == (RateLimitBucket {
            count: 1,
            window_start_ms: now,
            last_accessed_ms: now,
        }),
{
}

/// A counter never goes past its quota: a check on a bucket within the
/// quota leaves it within the quota, admitted or not.
pub proof fn lemma_count_within_limit(b: Option<RateLimitBucket>, now: u64, window_secs: u64, limit: u32)
    requires
        b matches Some(x) ==> x.count <= limit,
    ensures
        admission(b, now, window_secs, limit).bucket.count <= limit,
        admission(b, now, window_secs, limit).result is Err ==> admission(b, now, window_secs, limit).remaining == 0,
{
}

/// When eviction runs, only buckets used within the idle limit stay, and
/// every such bucket stays unchanged; below the threshold nothing goes.
pub proof fn lemma_eviction_keeps_active(
    m: Map<Seq<char>, RateLimitBucket>,
    max_buckets: usize,
    now: u64,
    ttl_ms: u64,
)
    ensures
        m.len() > max_buckets / 2 ==> forall|k: Seq<char>|
            #[trigger] evicted(m, max_buckets, now, ttl_ms).contains_key(k) ==> bucket_is_fresh(m[k], now, ttl_ms),
        forall|k: Seq<char>|
            m.contains_key(k) && bucket_is_fresh(m[k], now, ttl_ms) ==> #[trigger] evicted(m, max_buckets, now, ttl_ms).contains_key(k)
                && evicted(m, max_buckets, now, ttl_ms)[k] == m[k],
        m.len() <= max_buckets / 2 ==> evicted(m, max_buckets, now, ttl_ms) == m,
{
}

} // verus!
