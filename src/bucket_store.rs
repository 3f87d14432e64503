use vstd::prelude::*;
use dashmap::DashMap;
use crate::rate_limit::{bucket_is_fresh, RateLimitBucket};

verus! {

#[verifier::external_type_specification]
#[verifier::external_body]
#[verifier::reject_recursive_types(K)]
#[verifier::reject_recursive_types(V)]
#[verifier::reject_recursive_types(S)]
pub struct ExDashMap<K, V, S>(DashMap<K, V, S>);

/// The buckets held by a bucket map, keyed by the characters of their key.
pub uninterp spec fn buckets_of(m: DashMap<String, RateLimitBucket>) -> Map<Seq<char>, RateLimitBucket>;

/// Relies on `DashMap::new`: the map starts empty.
#[verifier::external_body]
pub(crate) fn store_new() -> (r: DashMap<String, RateLimitBucket>)
    ensures
        buckets_of(r) =~= Map::empty(),
{
    DashMap::new()
}

/// Relies on `DashMap::len`: the number of entries.
#[verifier::external_body]
pub(crate) fn store_len(m: &DashMap<String, RateLimitBucket>) -> (r: usize)
    ensures
        r == buckets_of(*m).len(),
{
    m.len()
}

/// Relies on `DashMap::get`: the entry stored under `key`, copied out.
#[verifier::external_body]
pub(crate) fn store_get(m: &DashMap<String, RateLimitBucket>, key: &String) -> (r: Option<RateLimitBucket>)
    ensures
        r == (if buckets_of(*m).contains_key(key@) {
            Some(buckets_of(*m)[key@])
        } else {
            None
        }),
{
    m.get(key).map(|e| *e.value())
}

/// Relies on `DashMap::insert`: `key` now maps to `b`, the rest is unchanged.
#[verifier::external_body]
pub(crate) fn store_insert(m: &mut DashMap<String, RateLimitBucket>, key: String, b: RateLimitBucket)
    ensures
        buckets_of(*final(m)) == buckets_of(*old(m)).insert(key@, b),
{
    m.insert(key, b);
}

/// Relies on `DashMap::retain`: keeps exactly the entries for which the
/// predicate holds, here the buckets used within `ttl_ms` of `now_ms`.
#[verifier::external_body]
pub(crate) fn store_retain_fresh(m: &mut DashMap<String, RateLimitBucket>, now_ms: u64, ttl_ms: u64)
    ensures
        buckets_of(*final(m)) == buckets_of(*old(m)).restrict(
            buckets_of(*old(m)).dom().filter(|k: Seq<char>| bucket_is_fresh(buckets_of(*old(m))[k], now_ms, ttl_ms)),
        ),
{
    m.retain(|_, b| crate::rate_limit::is_fresh(b, now_ms, ttl_ms));
}

} // verus!
