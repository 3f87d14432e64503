//! Tenant resolution, role-based permission checks, tiered rate limiting
//! and circuit breaking for a multi-tenant data catalog, with their
//! contracts proved.

use vstd::prelude::*;

pub mod error;
pub mod text;
pub mod tenant;
pub mod resolver;
pub mod permission;
pub mod rate_limit;
pub mod bucket_store;
pub mod limiter;
pub mod pool;
pub mod breaker;
pub mod validation;
pub mod catalog;
pub mod metrics;

verus! {

} // verus!
