//! A cached score vector stamped with its capture time.
use vstd::prelude::*;
use crate::candidate::PhoenixScores;

verus! {

/// A cached score vector with the Unix second it was captured at.
#[derive(Clone, Copy, Debug, PartialEq, Eq, Structural)]
pub struct CacheEntry {
    pub value: PhoenixScores,
    pub timestamp: u64,
}

/// An entry captured at `timestamp` has expired at `now` once more than
/// `ttl_secs` seconds have passed.
pub open spec fn spec_is_expired(timestamp: u64, ttl_secs: u64, now: u64) -> bool {
    now > timestamp + ttl_secs
}

impl CacheEntry {
    /// An entry for `value` captured at `now`.
    pub fn new(value: PhoenixScores, now: u64) -> (r: CacheEntry)
        ensures
            r.value == value,
            r.timestamp == now,
    {
        CacheEntry { value, timestamp: now }
    }

    /// Whether more than `ttl_secs` seconds separate the capture from `now`.
    pub fn is_expired(&self, ttl_secs: u64, now: u64) -> (r: bool)
        ensures
            r == spec_is_expired(self.timestamp, ttl_secs, now),
    {
        now > self.timestamp && now - self.timestamp > ttl_secs
    }
}

} // verus!
