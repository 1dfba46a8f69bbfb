//! Realtime queries for recent posts of followed accounts.
use vstd::prelude::*;
use crate::candidate_source::{
    contains_id, same_posts, spec_take, CandidateSource, ThunderCandidate,
};
use crate::params::MAX_POST_AGE;
use crate::thunder_config::ThunderConfig;
use crate::time::{unix_time_micros, unix_time_secs};

verus! {

/// Query parameters for fetching in-network posts.
#[derive(Clone, Debug)]
pub struct RealtimeQuery {
    pub user_id: i64,
    pub following_ids: Vec<i64>,
    /// Maximum posts to return.
    pub limit: usize,
    /// Maximum post age in seconds.
    pub max_age_seconds: u64,
    /// Posts already seen.
    pub exclude_post_ids: Vec<i64>,
}

impl RealtimeQuery {
    /// A query for up to 100 posts of at most 7 days, excluding nothing.
    pub fn new(user_id: i64, following_ids: Vec<i64>) -> (r: RealtimeQuery)
        ensures
            r.user_id == user_id,
            r.following_ids == following_ids,
            r.limit == 100,
            r.max_age_seconds == MAX_POST_AGE,
            r.exclude_post_ids@.len() == 0,
    {
        RealtimeQuery {
            user_id,
            following_ids,
            limit: 100,
            max_age_seconds: MAX_POST_AGE,
            exclude_post_ids: Vec::new(),
        }
    }

    /// The query with another limit.
    pub fn with_limit(self, limit: usize) -> (r: RealtimeQuery)
        ensures
            r == (RealtimeQuery { limit, ..self }),
    {
        let mut q = self;
        q.limit = limit;
        q
    }

    /// The query with another maximum age.
    pub fn with_max_age(self, seconds: u64) -> (r: RealtimeQuery)
        ensures
            r == (RealtimeQuery { max_age_seconds: seconds, ..self }),
    {
        let mut q = self;
        q.max_age_seconds = seconds;
        q
    }

    /// The query with these posts excluded.
    pub fn exclude(self, post_ids: Vec<i64>) -> (r: RealtimeQuery)
        ensures
            r == (RealtimeQuery { exclude_post_ids: post_ids, ..self }),
    {
        let mut q = self;
        q.exclude_post_ids = post_ids;
        q
    }
}

/// Response from a realtime query.
#[derive(Clone, Debug)]
pub struct RealtimeQueryResponse {
    /// The candidates matching the query.
    pub candidates: Vec<ThunderCandidate>,
    /// Matching candidates before the limit was applied.
    pub total_available: usize,
    /// Query execution time in milliseconds.
    pub query_time_ms: u64,
}

/// The fetched posts that are fresh at `now` and not excluded, in order.
pub open spec fn spec_admitted(
    fetched: Seq<ThunderCandidate>,
    now: u64,
    max_age_seconds: u64,
    excluded: Seq<i64>,
) -> Seq<ThunderCandidate>
    decreases fetched.len(),
{
    if fetched.len() == 0 {
        Seq::empty()
    } else {
        let rest = spec_admitted(fetched.drop_last(), now, max_age_seconds, excluded);
        let c = fetched.last();
        if c.spec_is_fresh(now, max_age_seconds) && !excluded.contains(c.post_id) {
            rest.push(c)
        } else {
            rest
        }
    }
}

/// Keeps the fetched posts that are fresh at `now` and not excluded, counts
/// them, and returns the first `query.limit` of them.
pub fn admit_candidates(fetched: Vec<ThunderCandidate>, query: &RealtimeQuery, now: u64) -> (r: (
    Vec<ThunderCandidate>,
    usize,
))
    ensures
        r.1 == spec_admitted(fetched@, now, query.max_age_seconds, query.exclude_post_ids@).len(),
        same_posts(
            r.0@,
            spec_take(
                spec_admitted(fetched@, now, query.max_age_seconds, query.exclude_post_ids@),
                query.limit,
            ),
        ),
{
    let ghost all = fetched@;
    let ghost ex = query.exclude_post_ids@;
    let mut kept: Vec<ThunderCandidate> = Vec::new();
    let mut total: usize = 0;
    let mut i: usize = 0;
    while i < fetched.len()
        invariant
            all == fetched@,
            ex == query.exclude_post_ids@,
            i <= all.len(),
            total == spec_admitted(all.subrange(0, i as int), now, query.max_age_seconds, ex).len(),
            total <= i,
            same_posts(
                kept@,
                spec_take(
                    spec_admitted(all.subrange(0, i as int), now, query.max_age_seconds, ex),
                    query.limit,
                ),
            ),
        decreases all.len() - i,
    {
        proof {
            assert(all.subrange(0, i + 1).drop_last() == all.subrange(0, i as int));
        }
        let c = &fetched[i];
        if c.is_fresh(now, query.max_age_seconds) && !contains_id(
            query.exclude_post_ids.as_slice(),
            c.post_id,
        ) {
            if kept.len() < query.limit {
                kept.push(c.duplicate());
            }
            total = total + 1;
        }
        i = i + 1;
    }
    assert(all.subrange(0, all.len() as int) == all);
    (kept, total)
}

/// Fetches twice the limit from the source, keeps the posts that are fresh
/// now and not excluded, and returns the first `query.limit` of them.
pub fn execute_query<S: CandidateSource>(source: &S, query: &RealtimeQuery, _config: &ThunderConfig) -> (r: RealtimeQueryResponse)
    ensures
        r.candidates@.len() <= query.limit,
        r.candidates@.len() <= r.total_available,
        forall|i: int|
            0 <= i < r.candidates@.len() ==> !query.exclude_post_ids@.contains(
                (#[trigger] r.candidates@[i]).post_id,
            ),
{
    let start = unix_time_micros();
    let now = unix_time_secs();
    let fetch_limit: usize = if query.limit <= usize::MAX / 2 {
        query.limit * 2
    } else {
        usize::MAX
    };
    let fetched = source.fetch_candidates(query.user_id, query.following_ids.as_slice(), fetch_limit);
    let (candidates, total_available) = admit_candidates(fetched, query, now);
    proof {
        lemma_admitted_not_excluded(fetched@, now, query.max_age_seconds, query.exclude_post_ids@);
    }
    let elapsed_ms = unix_time_micros().saturating_sub(start) / 1000;
    RealtimeQueryResponse { candidates, total_available, query_time_ms: elapsed_ms }
}

/// No admitted post is excluded.
proof fn lemma_admitted_not_excluded(
    fetched: Seq<ThunderCandidate>,
    now: u64,
    max_age_seconds: u64,
    excluded: Seq<i64>,
)
    ensures
        forall|i: int|
            0 <= i < spec_admitted(fetched, now, max_age_seconds, excluded).len() ==> !excluded.contains(
                (#[trigger] spec_admitted(fetched, now, max_age_seconds, excluded)[i]).post_id,
            ),
    decreases fetched.len(),
{
    if fetched.len() > 0 {
        lemma_admitted_not_excluded(fetched.drop_last(), now, max_age_seconds, excluded);
    }
}

} // verus!
