//! Drops posts older than a maximum age, remembering each post's verdict.
use vstd::prelude::*;
use moka::sync::Cache;
use std::time::Duration;
use crate::candidate::PostCandidate;
use crate::content_filters::{kept_by, FilterResult};
use crate::proto::ScoredPostsQuery;
use crate::snowflake::{now_millis, spec_timestamp_millis, timestamp_millis};

verus! {

#[verifier::external_type_specification]
#[verifier::external_body]
#[verifier::reject_recursive_types(K)]
#[verifier::reject_recursive_types(V)]
#[verifier::reject_recursive_types(S)]
pub struct ExMokaCache<K, V, S>(Cache<K, V, S>);

/// The longest time to live moka accepts: 1000 years of 365 days.
pub const MAX_TTL_SECS: u64 = 1000 * 365 * 24 * 3600;

/// Relies on moka's `Cache::builder`, `max_capacity`, `time_to_live` and
/// `build`: a cache of about `max_capacity` entries, each kept for at most
/// `ttl_secs` seconds. Entries expire and are evicted in the background, so
/// nothing is promised of what the cache holds. `build` panics on a time to
/// live over 1000 years.
#[verifier::external_body]
fn new_verdict_cache(max_capacity: u64, ttl_secs: u64) -> (r: Cache<i64, bool>)
    requires
        ttl_secs <= MAX_TTL_SECS,
{
    Cache::builder().max_capacity(max_capacity).time_to_live(Duration::from_secs(ttl_secs)).build()
}

/// Relies on moka's `Cache::get`: a copy of the verdict cached for
/// `tweet_id`, if it is still there.
#[verifier::external_body]
fn cached_verdict(cache: &Cache<i64, bool>, tweet_id: i64) -> (r: Option<bool>) {
    cache.get(&tweet_id)
}

/// Relies on moka's `Cache::insert`: caches `verdict` for `tweet_id`.
#[verifier::external_body]
fn cache_verdict(cache: &Cache<i64, bool>, tweet_id: i64, verdict: bool) {
    cache.insert(tweet_id, verdict)
}

/// Relies on moka's `Cache::entry_count`: an estimate of the number of
/// entries.
#[verifier::external_body]
fn verdict_count(cache: &Cache<i64, bool>) -> (r: u64) {
    cache.entry_count()
}

/// Relies on moka's `Cache::weighted_size`: an estimate of the entries'
/// total weight.
#[verifier::external_body]
fn verdict_weight(cache: &Cache<i64, bool>) -> (r: u64) {
    cache.weighted_size()
}

/// Relies on moka's `Cache::run_pending_tasks`: finishes pending internal
/// work, so that the entry count and weighted size are up to date.
#[verifier::external_body]
fn settle_verdicts(cache: &Cache<i64, bool>) {
    cache.run_pending_tasks()
}

/// Relies on `Duration::as_millis`: the whole milliseconds of `d`.
#[verifier::external_body]
fn whole_millis(d: &Duration) -> (r: u128) {
    d.as_millis()
}

/// A post is within age at `now_ms` when it was created no later than
/// `now_ms` and no more than `max_age_ms` before it.
pub open spec fn spec_within_age(tweet_id: i64, now_ms: i64, max_age_ms: u128) -> bool {
    spec_timestamp_millis(tweet_id) <= now_ms && now_ms - spec_timestamp_millis(tweet_id) <= max_age_ms
}

/// Whether the post was created no later than `now_ms` and no more than
/// `max_age_ms` before it.
pub fn within_age_at(tweet_id: i64, now_ms: i64, max_age_ms: u128) -> (r: bool)
    ensures
        r == spec_within_age(tweet_id, now_ms, max_age_ms),
{
    let created = timestamp_millis(tweet_id);
    created <= now_ms && ((now_ms as i128 - created as i128) as u128) <= max_age_ms
}

/// The candidates whose verdict is `keep`, in input order.
pub open spec fn with_verdict(candidates: Seq<PostCandidate>, verdicts: Seq<bool>, keep: bool) -> Seq<PostCandidate>
    decreases candidates.len(),
{
    if candidates.len() == 0 || verdicts.len() != candidates.len() {
        Seq::empty()
    } else {
        let rest = with_verdict(candidates.drop_last(), verdicts.drop_last(), keep);
        if verdicts.last() == keep {
            rest.push(candidates.last())
        } else {
            rest
        }
    }
}

/// Drops posts older than `max_age`, with a cache of verdicts per post.
pub struct AgeFilter {
    pub max_age: Duration,
    timestamp_cache: Cache<i64, bool>,
}

impl AgeFilter {
    /// The maximum age.
    pub closed spec fn spec_max_age(&self) -> Duration {
        self.max_age
    }

    /// A filter for `max_age` whose cache holds about 100 000 verdicts for
    /// an hour each.
    pub fn new(max_age: Duration) -> (r: AgeFilter)
        ensures
            r.spec_max_age() == max_age,
    {
        AgeFilter { max_age, timestamp_cache: new_verdict_cache(100_000, 3600) }
    }

    /// The cached verdict for the post, or else whether it is within age now;
    /// a fresh verdict is cached.
    pub fn is_within_age(&self, tweet_id: i64) -> (r: bool) {
        match cached_verdict(&self.timestamp_cache, tweet_id) {
            Some(verdict) => verdict,
            None => {
                let verdict = within_age_at(tweet_id, now_millis(), whole_millis(&self.max_age));
                cache_verdict(&self.timestamp_cache, tweet_id, verdict);
                verdict
            },
        }
    }

    /// Estimated number and total weight of cached verdicts.
    pub fn cache_stats(&self) -> (r: (u64, u64)) {
        settle_verdicts(&self.timestamp_cache);
        (verdict_count(&self.timestamp_cache), verdict_weight(&self.timestamp_cache))
    }

    /// Keeps the posts whose verdict says they are within age and removes
    /// the others, each in input order. The verdicts come from the cache and
    /// the clock, so which way each one went is not stated.
    pub fn filter(&self, _query: &ScoredPostsQuery, candidates: Vec<PostCandidate>) -> (r: Result<
        FilterResult,
        String,
    >)
        ensures
            r is Ok,
            exists|verdicts: Seq<bool>|
                #![trigger with_verdict(candidates@, verdicts, true)]
                verdicts.len() == candidates@.len() && r->Ok_0.kept@ == with_verdict(
                    candidates@,
                    verdicts,
                    true,
                ) && r->Ok_0.removed@ == with_verdict(candidates@, verdicts, false),
    {
        let ghost all = candidates@;
        let ghost mut verdicts: Seq<bool> = Seq::empty();
        let mut kept: Vec<PostCandidate> = Vec::new();
        let mut removed: Vec<PostCandidate> = Vec::new();
        for candidate in it: candidates
            invariant
                it.seq() == all,
                verdicts.len() == it.index(),
                kept@ == with_verdict(all.subrange(0, it.index() as int), verdicts, true),
                removed@ == with_verdict(all.subrange(0, it.index() as int), verdicts, false),
        {
            let ghost i = it.index() as int;
            let ghost before = verdicts;
            let verdict = self.is_within_age(candidate.tweet_id);
            proof {
                verdicts = verdicts.push(verdict);
                assert(all.subrange(0, i + 1).drop_last() == all.subrange(0, i));
                assert(all.subrange(0, i + 1).last() == candidate);
                assert(verdicts.drop_last() == before);
            }
            if verdict {
                kept.push(candidate);
            } else {
                removed.push(candidate);
            }
        }
        assert(all.subrange(0, all.len() as int) == all);
        Ok(FilterResult { kept, removed })
    }
}

} // verus!
