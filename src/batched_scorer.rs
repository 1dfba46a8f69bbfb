//! The batching decorator's decisions: when a batch window is flushed, how
//! the pending requests are combined into one call of the wrapped scorer, and
//! how the combined result is split back into one slice per request.
//!
//! The consumer task that owns the queue, the timer and the completion
//! handles runs these decisions; every request of one flush is scored with
//! the first request's query, which is only right when all of them come from
//! the same viewer.
use vstd::prelude::*;
use std::time::Duration;
use crate::candidate::PostCandidate;
use crate::time::duration_from_millis;

verus! {

/// Configuration of micro-batching.
#[derive(Clone, Copy, Debug)]
pub struct BatchConfig {
    /// Pending requests that force a flush.
    pub max_batch_size: usize,
    /// Longest time the first request of a window waits for a flush.
    pub max_wait_time: Duration,
    /// Batches being scored at once.
    pub max_concurrent_batches: usize,
}

impl Default for BatchConfig {
    fn default() -> (r: BatchConfig)
        ensures
            r.max_batch_size == 128,
            r.max_concurrent_batches == 4,
    {
        BatchConfig {
            max_batch_size: 128,
            max_wait_time: duration_from_millis(5),
            max_concurrent_batches: 4,
        }
    }
}

/// A batching configuration is unusable when it flushes at zero requests or
/// waits no time at all.
pub open spec fn spec_config_invalid(max_batch_size: usize, max_wait_nanos: u128) -> bool {
    max_batch_size == 0 || max_wait_nanos == 0
}

/// Why a batching configuration cannot be used, if it cannot: a zero batch
/// size or a zero wait is a configuration error.
pub fn batch_config_error(max_batch_size: usize, max_wait_nanos: u128) -> (r: Option<String>)
    ensures
        r is Some <==> spec_config_invalid(max_batch_size, max_wait_nanos),
{
    if max_batch_size == 0 {
        Some(String::from_str("max_batch_size must be > 0"))
    } else if max_wait_nanos == 0 {
        Some(String::from_str("max_wait_time must be > 0"))
    } else {
        None
    }
}

/// A window is flushed once it holds `max_batch_size` requests, or once a
/// non-empty window has waited `max_wait_ms`.
pub open spec fn spec_should_flush(
    pending_requests: usize,
    elapsed_ms: u64,
    max_batch_size: usize,
    max_wait_ms: u64,
) -> bool {
    pending_requests >= max_batch_size || (pending_requests > 0 && elapsed_ms >= max_wait_ms)
}

/// Whether the batch window is to be flushed now.
pub fn should_flush(pending_requests: usize, elapsed_ms: u64, max_batch_size: usize, max_wait_ms: u64) -> (r: bool)
    ensures
        r == spec_should_flush(pending_requests, elapsed_ms, max_batch_size, max_wait_ms),
{
    pending_requests >= max_batch_size || (pending_requests > 0 && elapsed_ms >= max_wait_ms)
}

/// All candidate lists, one after another.
pub open spec fn spec_flatten(requests: Seq<Seq<PostCandidate>>) -> Seq<PostCandidate>
    decreases requests.len(),
{
    if requests.len() == 0 {
        Seq::empty()
    } else {
        spec_flatten(requests.drop_last()) + requests.last()
    }
}

/// Where each request's slice starts in the flattened list, followed by the
/// total length.
pub open spec fn spec_boundaries(requests: Seq<Seq<PostCandidate>>) -> Seq<usize>
    decreases requests.len(),
{
    if requests.len() == 0 {
        seq![0usize]
    } else {
        spec_boundaries(requests.drop_last()).push(spec_flatten(requests).len() as usize)
    }
}

/// One call's worth of candidates and the slice boundaries of its requests.
pub struct CombinedBatch {
    pub candidates: Vec<PostCandidate>,
    pub boundaries: Vec<usize>,
}

/// Concatenates the pending requests' candidates and remembers where each
/// request's slice starts; the last boundary is the total.
pub fn combine_batch(requests: Vec<Vec<PostCandidate>>) -> (r: CombinedBatch)
    requires
        spec_flatten(requests@.map_values(|v: Vec<PostCandidate>| v@)).len() <= usize::MAX,
    ensures
        r.candidates@ == spec_flatten(requests@.map_values(|v: Vec<PostCandidate>| v@)),
        r.boundaries@ == spec_boundaries(requests@.map_values(|v: Vec<PostCandidate>| v@)),
{
    let ghost views = requests@.map_values(|v: Vec<PostCandidate>| v@);
    let mut candidates: Vec<PostCandidate> = Vec::new();
    let mut boundaries: Vec<usize> = Vec::new();
    boundaries.push(0);
    for request in it: requests
        invariant
            it.seq() == requests@,
            views == requests@.map_values(|v: Vec<PostCandidate>| v@),
            spec_flatten(views).len() <= usize::MAX,
            candidates@ == spec_flatten(views.subrange(0, it.index() as int)),
            boundaries@ == spec_boundaries(views.subrange(0, it.index() as int)),
    {
        let ghost done = it.index() as int;
        let ghost prefix = views.subrange(0, done + 1);
        proof {
            assert(prefix.drop_last() == views.subrange(0, done));
            assert(prefix.last() == request@);
            lemma_flatten_prefix_len(views, done + 1);
        }
        let mut request = request;
        candidates.append(&mut request);
        boundaries.push(candidates.len());
    }
    assert(views.subrange(0, views.len() as int) == views);
    CombinedBatch { candidates, boundaries }
}

/// The boundaries start at zero, never decrease and end at `total`.
pub open spec fn valid_boundaries(boundaries: Seq<usize>, total: int) -> bool {
    &&& boundaries.len() >= 1
    &&& boundaries[0] == 0
    &&& boundaries.last() == total
    &&& forall|k: int| 0 <= k < boundaries.len() - 1 ==> boundaries[k] <= #[trigger] boundaries[k + 1]
    &&& forall|k: int| 0 <= k < boundaries.len() ==> #[trigger] boundaries[k] <= total
}

/// Splits the wrapped scorer's combined result back into one slice per
/// request. Fails when the boundaries do not describe the result, as when
/// the scorer dropped or added elements.
pub fn split_results(results: Vec<PostCandidate>, boundaries: &Vec<usize>) -> (r: Result<
    Vec<Vec<PostCandidate>>,
    String,
>)
    ensures
        r is Ok <==> valid_boundaries(boundaries@, results@.len() as int),
        r is Ok ==> r->Ok_0@.len() == boundaries@.len() - 1 && forall|i: int|
            0 <= i < boundaries@.len() - 1 ==> (#[trigger] r->Ok_0@[i])@ == results@.subrange(
                boundaries@[i] as int,
                boundaries@[i + 1] as int,
            ),
{
    let n = boundaries.len();
    if n == 0 || boundaries[0] != 0 || boundaries[n - 1] != results.len() {
        return Err(String::from_str("batch boundaries do not match the scored results"));
    }
    let mut k: usize = 0;
    while k + 1 < n
        invariant
            n == boundaries@.len(),
            n >= 1,
            k + 1 <= n,
            boundaries@[0] == 0,
            boundaries@[n - 1] == results@.len(),
            forall|t: int| 0 <= t < k ==> boundaries@[t] <= #[trigger] boundaries@[t + 1],
            forall|t: int| 0 <= t <= k ==> #[trigger] boundaries@[t] <= results@.len(),
        decreases n - k,
    {
        if boundaries[k] > boundaries[k + 1] || boundaries[k + 1] > results.len() {
            return Err(String::from_str("batch boundaries do not match the scored results"));
        }
        k = k + 1;
    }
    let ghost all = results@;
    let mut rest = results;
    let mut groups: Vec<Vec<PostCandidate>> = Vec::new();
    let mut g: usize = n - 1;
    while g > 0
        invariant
            n == boundaries@.len(),
            valid_boundaries(boundaries@, all.len() as int),
            g < n,
            rest@ == all.subrange(0, boundaries@[g as int] as int),
            groups@.len() == n - 1 - g,
            forall|t: int|
                0 <= t < groups@.len() ==> (#[trigger] groups@[t])@ == all.subrange(
                    boundaries@[g + t] as int,
                    boundaries@[g + t + 1] as int,
                ),
        decreases g,
    {
        proof {
            assert(boundaries@[g - 1] <= boundaries@[(g - 1) + 1]);
        }
        let ghost rest_before = rest@;
        let tail = rest.split_off(boundaries[g - 1]);
        assert(tail@ == all.subrange(boundaries@[g - 1] as int, boundaries@[g as int] as int));
        assert(rest@ == all.subrange(0, boundaries@[g - 1] as int));
        let ghost before = groups@;
        groups.insert(0, tail);
        proof {
            assert forall|t: int| 0 <= t < groups@.len() implies (#[trigger] groups@[t])@ == all.subrange(
                boundaries@[(g - 1) + t] as int,
                boundaries@[(g - 1) + t + 1] as int,
            ) by {
                if t > 0 {
                    assert(groups@[t] == before[t - 1]);
                }
            }
        }
        g = g - 1;
    }
    Ok(groups)
}

/// A window that has not reached the size limit and has not waited for the
/// maximum time is not flushed: requests arriving in it all go out in one
/// call of the wrapped scorer when the timer fires.
pub proof fn lemma_no_early_flush(pending_requests: usize, elapsed_ms: u64, max_batch_size: usize, max_wait_ms: u64)
    requires
        pending_requests < max_batch_size,
        elapsed_ms < max_wait_ms,
    ensures
        !spec_should_flush(pending_requests, elapsed_ms, max_batch_size, max_wait_ms),
        pending_requests > 0 ==> spec_should_flush(pending_requests, max_wait_ms, max_batch_size, max_wait_ms),
{
}

/// A prefix of the requests flattens to no more than all of them.
proof fn lemma_flatten_prefix_len(requests: Seq<Seq<PostCandidate>>, k: int)
    requires
        0 <= k <= requests.len(),
    ensures
        spec_flatten(requests.subrange(0, k)).len() <= spec_flatten(requests).len(),
    decreases requests.len() - k,
{
    if k < requests.len() {
        lemma_flatten_prefix_len(requests, k + 1);
        assert(requests.subrange(0, k + 1).drop_last() == requests.subrange(0, k));
    } else {
        assert(requests.subrange(0, k) == requests);
    }
}

/// Each request's slice of the flattened list is exactly its own candidates,
/// in the order it submitted them: splitting a combined batch at its boundaries
/// hands every request back what it submitted.
pub proof fn lemma_split_combine_round_trip(requests: Seq<Seq<PostCandidate>>, i: int)
    requires
        0 <= i < requests.len(),
        spec_flatten(requests).len() <= usize::MAX,
    ensures
        spec_boundaries(requests).len() == requests.len() + 1,
        spec_flatten(requests).subrange(
            spec_boundaries(requests)[i] as int,
            spec_boundaries(requests)[i + 1] as int,
        ) == requests[i],
    decreases requests.len(),
{
    lemma_boundaries_shape(requests);
    let n = requests.len() - 1;
    let front = requests.drop_last();
    lemma_flatten_prefix_len(requests, n);
    assert(requests.subrange(0, n) == front);
    if i < n {
        lemma_split_combine_round_trip(front, i);
        lemma_boundaries_shape(front);
        assert(spec_flatten(requests) == spec_flatten(front) + requests.last());
        assert(spec_flatten(requests).subrange(
            spec_boundaries(requests)[i] as int,
            spec_boundaries(requests)[i + 1] as int,
        ) == spec_flatten(front).subrange(
            spec_boundaries(front)[i] as int,
            spec_boundaries(front)[i + 1] as int,
        ));
    } else {
        lemma_boundaries_shape(front);
        assert(spec_flatten(requests) == spec_flatten(front) + requests.last());
    }
}

/// Boundaries start at zero, end at the total, and hold one entry per request
/// plus one, each within the total.
proof fn lemma_boundaries_shape(requests: Seq<Seq<PostCandidate>>)
    requires
        spec_flatten(requests).len() <= usize::MAX,
    ensures
        spec_boundaries(requests).len() == requests.len() + 1,
        spec_boundaries(requests)[requests.len() as int] == spec_flatten(requests).len(),
        spec_boundaries(requests)[0] == 0,
        forall|k: int|
            0 <= k <= requests.len() ==> #[trigger] spec_boundaries(requests)[k] <= spec_flatten(
                requests,
            ).len(),
        forall|k: int|
            0 <= k < requests.len() ==> spec_boundaries(requests)[k] <= #[trigger] spec_boundaries(
                requests,
            )[k + 1],
    decreases requests.len(),
{
    if requests.len() > 0 {
        let front = requests.drop_last();
        assert(spec_flatten(requests) == spec_flatten(front) + requests.last());
        lemma_boundaries_shape(front);
    }
}

} // verus!
