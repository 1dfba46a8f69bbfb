//! The caching decorator: serves score vectors from a bounded, time-bounded
//! per-(viewer, post) cache and hands only the misses to the wrapped scorer.
//!
//! A scoring call runs in three steps: `lookup` under exclusive access to the
//! cache, one call of the wrapped scorer on the misses outside any lock, and
//! `store_and_merge` under exclusive access again.
use vstd::prelude::*;
use lru::LruCache;
use crate::cache_entry::{spec_is_expired, CacheEntry};
use crate::candidate::{PhoenixScores, PostCandidate};
use crate::lru_cache::{
    new_post_cache, new_user_cache, post_cache_clear, user_cache_capacity, user_cache_clear,
    user_cache_contents, user_cache_get, user_cache_pop, user_cache_put,
};

verus! {

/// Sizes and lifetimes of the caches.
#[derive(Clone, Copy, Debug, PartialEq, Eq, Structural)]
pub struct CacheConfig {
    /// Entries of the per-(viewer, post) cache.
    pub user_cache_size: usize,
    /// Entries of the per-post cache for trending content.
    pub trending_cache_size: usize,
    /// Entries of the viewer embedding cache.
    pub user_embedding_cache_size: usize,
    /// Lifetime of per-post entries, in seconds.
    pub trending_ttl_secs: u64,
    /// Lifetime of per-(viewer, post) entries, in seconds.
    pub user_cache_ttl_secs: u64,
}

impl Default for CacheConfig {
    fn default() -> (r: CacheConfig)
        ensures
            r.user_cache_size == 10_000_000,
            r.trending_cache_size == 100_000,
            r.user_embedding_cache_size == 100_000,
            r.trending_ttl_secs == 300,
            r.user_cache_ttl_secs == 3600,
    {
        CacheConfig {
            user_cache_size: 10_000_000,
            trending_cache_size: 100_000,
            user_embedding_cache_size: 100_000,
            trending_ttl_secs: 300,
            user_cache_ttl_secs: 3600,
        }
    }
}

/// The cache key of a candidate for a viewer.
pub open spec fn viewer_post_key(user_id: u64, tweet_id: i64) -> (u64, u64) {
    (user_id, #[verifier::truncate] (tweet_id as u64))
}

/// What a lookup of `key` at `now` serves: the stored score vector while its
/// entry has not expired, nothing otherwise.
pub open spec fn spec_cache_hit(
    contents: Map<(u64, u64), CacheEntry>,
    key: (u64, u64),
    ttl_secs: u64,
    now: u64,
) -> Option<PhoenixScores> {
    if contents.contains_key(key) && !spec_is_expired(contents[key].timestamp, ttl_secs, now) {
        Some(contents[key].value)
    } else {
        None
    }
}

/// Number of hits in a lookup result.
pub open spec fn count_hits(cached: Seq<Option<PhoenixScores>>) -> nat
    decreases cached.len(),
{
    if cached.len() == 0 {
        0
    } else {
        count_hits(cached.drop_last()) + if cached.last() is Some {
            1nat
        } else {
            0nat
        }
    }
}

/// `a + b`, held at `u64::MAX`.
pub open spec fn saturating(a: u64, b: nat) -> u64 {
    if a + b > u64::MAX {
        u64::MAX
    } else {
        (a + b) as u64
    }
}

/// `misses` lists, in increasing order, exactly the positions that `cached` lacks.
pub open spec fn lists_misses(cached: Seq<Option<PhoenixScores>>, misses: Seq<usize>) -> bool {
    &&& forall|a: int, b: int| 0 <= a < b < misses.len() ==> misses[a] < misses[b]
    &&& forall|a: int|
        0 <= a < misses.len() ==> #[trigger] misses[a] < cached.len() && cached[misses[a] as int] is None
    &&& forall|i: int| 0 <= i < cached.len() && #[trigger] cached[i] is None ==> misses.contains(i as usize)
}

/// Misses before position `i` only grow with `i`.
proof fn lemma_misses_grow(cached: Seq<Option<PhoenixScores>>, i: int, k: int)
    requires
        0 <= i <= k <= cached.len(),
    ensures
        i - count_hits(cached.subrange(0, i)) <= k - count_hits(cached.subrange(0, k)),
    decreases k - i,
{
    if i < k {
        lemma_misses_grow(cached, i, k - 1);
        assert(cached.subrange(0, k).drop_last() == cached.subrange(0, k - 1));
    }
}

/// The merged result at position `i`: the candidate with its cached score
/// vector for a hit, the wrapped scorer's result for the matching miss.
pub open spec fn merged_at(
    candidates: Seq<PostCandidate>,
    cached: Seq<Option<PhoenixScores>>,
    newly_scored: Seq<PostCandidate>,
    r: PostCandidate,
    i: int,
) -> bool {
    match cached[i] {
        Some(s) => r == (PostCandidate { phoenix_scores: s, ..candidates[i] }),
        None => r == newly_scored[i - count_hits(cached.subrange(0, i))],
    }
}

/// No later newly scored candidate than the `j`-th has the same cache key.
pub open spec fn last_of_key(newly_scored: Seq<PostCandidate>, user_id: u64, j: int) -> bool {
    forall|t: int|
        j < t < newly_scored.len() ==> viewer_post_key(user_id, #[trigger] newly_scored[t].tweet_id)
            != viewer_post_key(user_id, newly_scored[j].tweet_id)
}

/// A stored (viewer, post) entry is served by the cache for as long as the
/// TTL allows, so repeating the request within the TTL needs no call of the
/// wrapped scorer; once the TTL has passed the same request misses again.
pub proof fn lemma_repeat_within_ttl(
    contents: Map<(u64, u64), CacheEntry>,
    key: (u64, u64),
    scores: PhoenixScores,
    stored_at: u64,
    ttl_secs: u64,
    now: u64,
)
    requires
        contents.contains_key(key),
        contents[key] == (CacheEntry { value: scores, timestamp: stored_at }),
    ensures
        now <= stored_at + ttl_secs ==> spec_cache_hit(contents, key, ttl_secs, now) == Some(scores),
        now > stored_at + ttl_secs ==> spec_cache_hit(contents, key, ttl_secs, now) is None,
{
}

/// When a request's newly scored vectors were all written back at
/// `stored_at`, repeating the request within the TTL finds every one of them:
/// each is a hit serving the vector the wrapped scorer returned.
pub proof fn lemma_repeat_request_all_hits(
    contents: Map<(u64, u64), CacheEntry>,
    user_id: u64,
    newly_scored: Seq<PostCandidate>,
    stored_at: u64,
    ttl_secs: u64,
    now: u64,
)
    requires
        forall|j: int|
            0 <= j < newly_scored.len() && last_of_key(newly_scored, user_id, j) ==> contents.contains_key(
                viewer_post_key(user_id, #[trigger] newly_scored[j].tweet_id),
            ) && contents[viewer_post_key(user_id, newly_scored[j].tweet_id)] == (CacheEntry {
                value: newly_scored[j].phoenix_scores,
                timestamp: stored_at,
            }),
        now <= stored_at + ttl_secs,
    ensures
        forall|j: int|
            0 <= j < newly_scored.len() && last_of_key(newly_scored, user_id, j) ==> spec_cache_hit(
                contents,
                viewer_post_key(user_id, #[trigger] newly_scored[j].tweet_id),
                ttl_secs,
                now,
            ) == Some(newly_scored[j].phoenix_scores),
{
}

/// A lookup in which every candidate hits counts one hit per candidate and
/// leaves nothing for the wrapped scorer.
pub proof fn lemma_all_hits_no_misses(cached: Seq<Option<PhoenixScores>>, misses: Seq<usize>)
    requires
        forall|i: int| 0 <= i < cached.len() ==> #[trigger] cached[i] is Some,
        lists_misses(cached, misses),
    ensures
        misses.len() == 0,
        count_hits(cached) == cached.len(),
    decreases cached.len(),
{
    if misses.len() > 0 {
        assert(cached[misses[0] as int] is None);
    }
    if cached.len() > 0 {
        let rest = cached.drop_last();
        assert forall|i: int| 0 <= i < rest.len() implies #[trigger] rest[i] is Some by {
            assert(rest[i] == cached[i]);
        }
        lemma_all_hits_no_misses(rest, Seq::empty());
    }
}

/// The outcome of a cache lookup: the cached score vector of each candidate,
/// if any, and the positions that must be scored.
pub struct CacheLookup {
    pub cached: Vec<Option<PhoenixScores>>,
    pub miss_indices: Vec<usize>,
}

/// The caching decorator's state: the two caches and the hit and miss counters.
pub struct CachedPhoenixScorer {
    user_cache: LruCache<(u64, u64), CacheEntry>,
    trending_cache: LruCache<u64, CacheEntry>,
    config: CacheConfig,
    cache_hits: u64,
    cache_misses: u64,
}

impl CachedPhoenixScorer {
    /// What the per-(viewer, post) cache holds.
    pub closed spec fn contents(&self) -> Map<(u64, u64), CacheEntry> {
        user_cache_contents(self.user_cache)
    }

    /// The configuration.
    pub closed spec fn spec_config(&self) -> CacheConfig {
        self.config
    }

    /// Hits counted so far.
    pub closed spec fn spec_hits(&self) -> u64 {
        self.cache_hits
    }

    /// Misses counted so far.
    pub closed spec fn spec_misses(&self) -> u64 {
        self.cache_misses
    }

    /// The per-(viewer, post) cache holds no more than it was made for.
    pub closed spec fn wf(&self) -> bool {
        &&& user_cache_capacity(self.user_cache) == self.config.user_cache_size
        &&& self.config.user_cache_size > 0
        &&& user_cache_contents(self.user_cache).dom().finite()
    }

    /// Empty caches of the configured sizes. A zero size is a configuration
    /// error.
    pub fn new(config: CacheConfig) -> (r: CachedPhoenixScorer)
        requires
            config.user_cache_size > 0,
            config.trending_cache_size > 0,
        ensures
            r.wf(),
            r.spec_config() == config,
            r.contents().dom() == Set::<(u64, u64)>::empty(),
            r.spec_hits() == 0,
            r.spec_misses() == 0,
    {
        CachedPhoenixScorer {
            user_cache: new_user_cache(config.user_cache_size),
            trending_cache: new_post_cache(config.trending_cache_size),
            config,
            cache_hits: 0,
            cache_misses: 0,
        }
    }

    /// Hits counted so far.
    pub fn hits(&self) -> (r: u64)
        ensures
            r == self.spec_hits(),
    {
        self.cache_hits
    }

    /// Misses counted so far.
    pub fn misses(&self) -> (r: u64)
        ensures
            r == self.spec_misses(),
    {
        self.cache_misses
    }

    /// The configuration.
    pub fn config(&self) -> (r: CacheConfig)
        ensures
            r == self.spec_config(),
    {
        self.config
    }

    /// Empties both caches.
    pub fn clear_caches(&mut self)
        requires
            old(self).wf(),
        ensures
            final(self).wf(),
            final(self).contents().dom() == Set::<(u64, u64)>::empty(),
            final(self).spec_config() == old(self).spec_config(),
            final(self).spec_hits() == old(self).spec_hits(),
            final(self).spec_misses() == old(self).spec_misses(),
    {
        user_cache_clear(&mut self.user_cache);
        post_cache_clear(&mut self.trending_cache);
    }

    /// Looks every candidate up for `user_id` at time `now` (Unix seconds).
    /// A fresh entry is a hit; an expired one is evicted and, like an absent
    /// one, is a miss.
    pub fn lookup(&mut self, user_id: u64, candidates: &[PostCandidate], now: u64) -> (r: CacheLookup)
        requires
            old(self).wf(),
        ensures
            final(self).wf(),
            final(self).spec_config() == old(self).spec_config(),
            r.cached@.len() == candidates@.len(),
            forall|i: int|
                0 <= i < candidates@.len() ==> #[trigger] r.cached@[i] == spec_cache_hit(
                    old(self).contents(),
                    viewer_post_key(user_id, candidates@[i].tweet_id),
                    old(self).spec_config().user_cache_ttl_secs,
                    now,
                ),
            lists_misses(r.cached@, r.miss_indices@),
            final(self).spec_hits() == saturating(old(self).spec_hits(), count_hits(r.cached@)),
            final(self).spec_misses() == saturating(
                old(self).spec_misses(),
                (candidates@.len() - count_hits(r.cached@)) as nat,
            ),
            forall|k: (u64, u64)|
                #[trigger] final(self).contents().contains_key(k) ==> old(self).contents().contains_key(k)
                    && final(self).contents()[k] == old(self).contents()[k],
            forall|k: (u64, u64)|
                #[trigger] old(self).contents().contains_key(k) && !spec_is_expired(
                    old(self).contents()[k].timestamp,
                    old(self).spec_config().user_cache_ttl_secs,
                    now,
                ) ==> final(self).contents().contains_key(k),
    {
        let ghost old_contents = self.contents();
        let ttl = self.config.user_cache_ttl_secs;
        let mut cached: Vec<Option<PhoenixScores>> = Vec::new();
        let mut miss_indices: Vec<usize> = Vec::new();
        let mut i: usize = 0;
        while i < candidates.len()
            invariant
                self.wf(),
                self.config == old(self).spec_config(),
                ttl == self.config.user_cache_ttl_secs,
                old_contents == old(self).contents(),
                i <= candidates@.len(),
                cached@.len() == i,
                forall|j: int|
                    0 <= j < i ==> #[trigger] cached@[j] == spec_cache_hit(
                        old_contents,
                        viewer_post_key(user_id, candidates@[j].tweet_id),
                        ttl,
                        now,
                    ),
                lists_misses(cached@, miss_indices@),
                forall|a: int| 0 <= a < miss_indices@.len() ==> #[trigger] miss_indices@[a] < i,
                self.cache_hits == saturating(old(self).spec_hits(), count_hits(cached@)),
                self.cache_misses == saturating(
                    old(self).spec_misses(),
                    (i - count_hits(cached@)) as nat,
                ),
                count_hits(cached@) <= i,
                forall|k: (u64, u64)|
                    #[trigger] self.contents().contains_key(k) ==> old_contents.contains_key(k)
                        && self.contents()[k] == old_contents[k],
                forall|k: (u64, u64)|
                    #[trigger] old_contents.contains_key(k) && !spec_is_expired(
                        old_contents[k].timestamp,
                        ttl,
                        now,
                    ) ==> self.contents().contains_key(k),
            decreases candidates@.len() - i,
        {
            let key = (user_id, #[verifier::truncate] (candidates[i].tweet_id as u64));
            let ghost prev = cached@;
            let ghost prev_misses = miss_indices@;
            let ghost before_get = self.contents();
            let found = user_cache_get(&mut self.user_cache, key);
            proof {
                if before_get.contains_key(key) {
                    assert(found == Some(old_contents[key]));
                } else {
                    assert(found is None);
                    if old_contents.contains_key(key) {
                        assert(spec_is_expired(old_contents[key].timestamp, ttl, now));
                    }
                }
            }
            let mut hit: Option<PhoenixScores> = None;
            match found {
                Some(entry) => {
                    if !entry.is_expired(ttl, now) {
                        hit = Some(entry.value);
                    } else {
                        let _ = user_cache_pop(&mut self.user_cache, key);
                    }
                },
                None => {},
            }
            proof {
                assert(key == viewer_post_key(user_id, candidates@[i as int].tweet_id));
                if old_contents.contains_key(key) && !spec_is_expired(old_contents[key].timestamp, ttl, now) {
                    assert(self.contents().contains_key(key));
                }
                assert(hit == spec_cache_hit(old_contents, key, ttl, now));
            }
            cached.push(hit);
            proof {
                assert(cached@.drop_last() == prev);
            }
            match hit {
                Some(_) => {
                    self.cache_hits = self.cache_hits.saturating_add(1);
                },
                None => {
                    self.cache_misses = self.cache_misses.saturating_add(1);
                    miss_indices.push(i);
                    assert(miss_indices@.last() == i);
                },
            }
            proof {
                assert forall|j: int|
                    0 <= j < cached@.len() && #[trigger] cached@[j] is None implies miss_indices@.contains(
                    j as usize,
                ) by {
                    if j < i {
                        assert(prev[j] is None);
                        assert(prev_misses.contains(j as usize));
                        let w = choose|w: int| 0 <= w < prev_misses.len() && prev_misses[w] == j as usize;
                        assert(miss_indices@[w] == j as usize);
                    } else {
                        assert(miss_indices@[miss_indices@.len() - 1] == j as usize);
                    }
                }
            }
            i = i + 1;
        }
        CacheLookup { cached, miss_indices }
    }
}

impl CachedPhoenixScorer {
    /// Writes the newly scored vectors into the per-(viewer, post) cache,
    /// stamped with `now`, and merges them with the hits of `cached` in input
    /// order: a hit is the candidate with its cached score vector, a miss is
    /// the wrapped scorer's result for it. Fails, storing nothing, when
    /// `cached` does not match the candidates or the wrapped scorer did not
    /// return one result per miss. When the cache has room for every newly
    /// scored vector, nothing is evicted and each of them is stored.
    pub fn store_and_merge(
        &mut self,
        user_id: u64,
        candidates: Vec<PostCandidate>,
        cached: &Vec<Option<PhoenixScores>>,
        newly_scored: Vec<PostCandidate>,
        now: u64,
    ) -> (r: Result<Vec<PostCandidate>, String>)
        requires
            old(self).wf(),
        ensures
            final(self).wf(),
            final(self).spec_config() == old(self).spec_config(),
            final(self).spec_hits() == old(self).spec_hits(),
            final(self).spec_misses() == old(self).spec_misses(),
            r is Ok <==> cached@.len() == candidates@.len() && newly_scored@.len() == cached@.len()
                - count_hits(cached@),
            r is Err ==> final(self).contents() == old(self).contents(),
            r is Ok ==> r->Ok_0@.len() == candidates@.len() && forall|i: int|
                0 <= i < candidates@.len() ==> merged_at(
                    candidates@,
                    cached@,
                    newly_scored@,
                    #[trigger] r->Ok_0@[i],
                    i,
                ),
            forall|k: (u64, u64)|
                #[trigger] final(self).contents().contains_key(k) ==> (old(self).contents().contains_key(k)
                    && final(self).contents()[k] == old(self).contents()[k])
                    || final(self).contents()[k].timestamp == now,
            r is Ok && old(self).contents().len() + newly_scored@.len()
                <= old(self).spec_config().user_cache_size ==> (forall|k: (u64, u64)|
                #[trigger] old(self).contents().contains_key(k) ==> final(self).contents().contains_key(k))
                && (forall|j: int|
                0 <= j < newly_scored@.len() && last_of_key(newly_scored@, user_id, j)
                    ==> final(self).contents().contains_key(
                    viewer_post_key(user_id, #[trigger] newly_scored@[j].tweet_id),
                ) && final(self).contents()[viewer_post_key(user_id, newly_scored@[j].tweet_id)]
                    == (CacheEntry { value: newly_scored@[j].phoenix_scores, timestamp: now })),
    {
        if cached.len() != candidates.len() {
            return Err(String::from_str("cache lookup does not match the candidates"));
        }
        let mut hits: usize = 0;
        let mut k: usize = 0;
        while k < cached.len()
            invariant
                k <= cached@.len(),
                hits == count_hits(cached@.subrange(0, k as int)),
                hits <= k,
            decreases cached@.len() - k,
        {
            assert(cached@.subrange(0, k + 1).drop_last() == cached@.subrange(0, k as int));
            if cached[k].is_some() {
                hits = hits + 1;
            }
            k = k + 1;
        }
        assert(cached@.subrange(0, cached@.len() as int) == cached@);
        if newly_scored.len() != cached.len() - hits {
            return Err(String::from_str("the scorer did not return one result per miss"));
        }
        let ghost old_contents = self.contents();
        let ghost room = old_contents.len() + newly_scored@.len() <= self.config.user_cache_size;
        let mut j: usize = 0;
        while j < newly_scored.len()
            invariant
                self.wf(),
                self.config == old(self).spec_config(),
                self.cache_hits == old(self).spec_hits(),
                self.cache_misses == old(self).spec_misses(),
                old_contents == old(self).contents(),
                room == (old_contents.len() + newly_scored@.len() <= self.config.user_cache_size),
                j <= newly_scored@.len(),
                forall|k: (u64, u64)|
                    #[trigger] self.contents().contains_key(k) ==> (old_contents.contains_key(k)
                        && self.contents()[k] == old_contents[k]) || self.contents()[k].timestamp == now,
                room ==> self.contents().len() <= old_contents.len() + j,
                room ==> forall|k: (u64, u64)|
                    #[trigger] old_contents.contains_key(k) ==> self.contents().contains_key(k),
                room ==> forall|t: int|
                    0 <= t < j && (forall|u: int|
                        t < u < j ==> viewer_post_key(user_id, #[trigger] newly_scored@[u].tweet_id)
                            != viewer_post_key(user_id, newly_scored@[t].tweet_id))
                        ==> self.contents().contains_key(
                        viewer_post_key(user_id, #[trigger] newly_scored@[t].tweet_id),
                    ) && self.contents()[viewer_post_key(user_id, newly_scored@[t].tweet_id)]
                        == (CacheEntry { value: newly_scored@[t].phoenix_scores, timestamp: now }),
            decreases newly_scored@.len() - j,
        {
            let key = (user_id, #[verifier::truncate] (newly_scored[j].tweet_id as u64));
            let entry = CacheEntry::new(newly_scored[j].phoenix_scores, now);
            let ghost before = self.contents();
            proof {
                assert(key == viewer_post_key(user_id, newly_scored@[j as int].tweet_id));
            }
            user_cache_put(&mut self.user_cache, key, entry);
            proof {
                if room {
                    assert(before.len() < user_cache_capacity(self.user_cache));
                    assert(self.contents() == before.insert(key, entry));
                }
            }
            j = j + 1;
        }
        let ghost stored = newly_scored@;
        let total_misses: usize = newly_scored.len();
        let mut rest = newly_scored;
        let mut merged: Vec<PostCandidate> = Vec::new();
        let mut m: usize = 0;
        let ghost all = candidates@;
        for candidate in it: candidates
            invariant
                it.seq() == all,
                cached@.len() == all.len(),
                stored.len() == cached@.len() - count_hits(cached@),
                stored.len() == total_misses,
                m == it.index() - count_hits(cached@.subrange(0, it.index() as int)),
                m <= stored.len(),
                rest@ == stored.subrange(m as int, stored.len() as int),
                merged@.len() == it.index(),
                forall|t: int|
                    0 <= t < it.index() ==> merged_at(all, cached@, stored, #[trigger] merged@[t], t),
        {
            let ghost i = it.index() as int;
            proof {
                assert(cached@.subrange(0, i + 1).drop_last() == cached@.subrange(0, i));
                lemma_misses_grow(cached@, i + 1, cached@.len() as int);
                assert(cached@.subrange(0, cached@.len() as int) == cached@);
                assert(candidate == all[i]);
            }
            let idx = merged.len();
            match cached[idx] {
                Some(s) => {
                    let mut hit = candidate;
                    hit.phoenix_scores = s;
                    merged.push(hit);
                },
                None => {
                    let scored = rest.remove(0);
                    assert(scored == stored[m as int]);
                    merged.push(scored);
                    m = m + 1;
                    assert(rest@ =~= stored.subrange(m as int, stored.len() as int));
                },
            }
        }
        Ok(merged)
    }

    /// Copies what the decorator scored onto the candidate: the score vector,
    /// the prediction request and the scoring time.
    pub fn update(&self, candidate: &mut PostCandidate, scored: PostCandidate)
        ensures
            *final(candidate) == (PostCandidate {
                phoenix_scores: scored.phoenix_scores,
                prediction_request_id: scored.prediction_request_id,
                last_scored_at_ms: scored.last_scored_at_ms,
                ..*old(candidate)
            }),
    {
        candidate.phoenix_scores = scored.phoenix_scores;
        candidate.prediction_request_id = scored.prediction_request_id;
        candidate.last_scored_at_ms = scored.last_scored_at_ms;
    }
}

} // verus!
