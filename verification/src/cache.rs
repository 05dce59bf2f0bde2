//! What the cache of model replies decides: when an entry is stale and how
//! many entries go when the cache is full.

use vstd::prelude::*;
use crate::ids::{instant_nanos, instant_nanos_exec, parse_rfc3339_instant, rfc3339_instant};

verus! {

/// The size of the cache.
#[derive(Debug, Clone, Copy, PartialEq, Eq, Structural)]
pub struct CacheStats {
    pub total_entries: usize,
    pub total_hits: usize,
    pub avg_age_seconds: i64,
    pub max_entries: usize,
    pub ttl_seconds: i64,
}

/// Whether an entry created at `created` (nanoseconds since the epoch) has
/// outlived `ttl_seconds` at `now`: its age exceeds the time to live.
pub open spec fn outlived(created: int, now: int, ttl_seconds: i64) -> bool {
    now - created > ttl_seconds * 1_000_000_000
}

/// The least and the most seconds that a `chrono::TimeDelta` holds, as
/// `TimeDelta::seconds` takes them.
pub open spec fn ttl_in_range(ttl_seconds: i64) -> bool {
    -9_223_372_036_854_775 <= ttl_seconds <= 9_223_372_036_854_775
}

/// Whether `TimeDelta::seconds` takes `ttl_seconds`.
pub fn ttl_fits(ttl_seconds: i64) -> (r: bool)
    ensures
        r == ttl_in_range(ttl_seconds),
{
    -9_223_372_036_854_775 <= ttl_seconds && ttl_seconds <= 9_223_372_036_854_775
}

/// Whether the entry created at the RFC 3339 instant `created_at` is stale
/// at the instant `now_secs` seconds and `now_nanos` nanoseconds after the
/// epoch; an instant that does not parse counts as created at `now`, so its
/// age is nothing.
pub fn is_expired(created_at: &str, now_secs: i64, now_nanos: u32, ttl_seconds: i64) -> (r: bool)
    requires
        ttl_in_range(ttl_seconds),
    ensures
        r == match rfc3339_instant(created_at@) {
            Some((s, n)) => outlived(instant_nanos(s, n), instant_nanos(now_secs, now_nanos), ttl_seconds),
            None => outlived(instant_nanos(now_secs, now_nanos), instant_nanos(now_secs, now_nanos), ttl_seconds),
        },
{
    let now = instant_nanos_exec(now_secs, now_nanos);
    let created = match parse_rfc3339_instant(created_at) {
        Some((s, n)) => instant_nanos_exec(s, n),
        None => now,
    };
    let ttl: i128 = (ttl_seconds as i128) * 1_000_000_000i128;
    now - created > ttl
}

/// How many of the least recently used entries go so that at most
/// `max_entries` stay.
pub fn eviction_count(count: i64, max_entries: usize) -> (r: i64)
    ensures
        (count as int) > (max_entries as int) ==> r == count - max_entries,
        (count as int) <= (max_entries as int) ==> r == 0,
{
    let max: i128 = max_entries as i128;
    if (count as i128) > max {
        ((count as i128) - max) as i64
    } else {
        0
    }
}

} // verus!
