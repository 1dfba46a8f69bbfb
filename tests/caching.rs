use home_mixer::cache_entry::CacheEntry;
use home_mixer::cached_scorer::{CacheConfig, CachedPhoenixScorer};
use home_mixer::candidate::{PhoenixScores, PostCandidate};

fn candidates(count: usize) -> Vec<PostCandidate> {
    (0..count)
        .map(|i| {
            let mut c = PostCandidate::default();
            c.tweet_id = i as i64;
            c.author_id = (i * 10) as u64;
            c
        })
        .collect()
}

fn scored(input: &[PostCandidate]) -> Vec<PostCandidate> {
    input
        .iter()
        .map(|c| {
            let mut s = PostCandidate::default();
            s.tweet_id = c.tweet_id;
            s.phoenix_scores.favorite_score = Some(c.tweet_id as u32 + 1);
            s.prediction_request_id = Some(7);
            s
        })
        .collect()
}

/// One scoring call through the decorator; returns the merged deltas and
/// whether the wrapped scorer was called.
fn score_once(cache: &mut CachedPhoenixScorer, viewer: u64, input: &[PostCandidate], now: u64) -> (Vec<PostCandidate>, bool) {
    let lookup = cache.lookup(viewer, input, now);
    let misses: Vec<PostCandidate> = lookup.miss_indices.iter().map(|&i| input[i].clone()).collect();
    let called = !misses.is_empty();
    let newly = if called { scored(&misses) } else { Vec::new() };
    let merged = cache.store_and_merge(viewer, input.to_vec(), &lookup.cached, newly, now).unwrap();
    (merged, called)
}

#[test]
fn test_cache_entry_expiration() {
    let entry = CacheEntry::new(PhoenixScores::default(), 1_000_000);
    assert!(!entry.is_expired(3600, 1_000_000));
    let mut expired_entry = entry;
    expired_entry.timestamp = 0;
    assert!(expired_entry.is_expired(3600, 1_000_000));
    assert!(!entry.is_expired(3600, 1_003_600));
    assert!(entry.is_expired(3600, 1_003_601));
    assert!(!entry.is_expired(0, 999_999));
}

#[test]
fn test_caching_reduces_ml_calls() {
    let mut cache = CachedPhoenixScorer::new(CacheConfig::default());
    let input = candidates(10);
    let (_, first_called) = score_once(&mut cache, 12345, &input, 100);
    assert!(first_called);
    let (second, second_called) = score_once(&mut cache, 12345, &input, 101);
    assert!(!second_called);
    assert_eq!(cache.hits(), 10);
    assert_eq!(cache.misses(), 10);
    assert!(cache.hits() as f64 / (cache.hits() + cache.misses()) as f64 >= 0.5);
    assert_eq!(second[3].phoenix_scores.favorite_score, Some(4));
}

#[test]
fn repeat_within_ttl_hits_and_after_ttl_misses() {
    let mut config = CacheConfig::default();
    config.user_cache_ttl_secs = 60;
    let mut cache = CachedPhoenixScorer::new(config);
    let input = candidates(2);
    let (_, called) = score_once(&mut cache, 1, &input, 1000);
    assert!(called);
    let (_, called) = score_once(&mut cache, 1, &input, 1060);
    assert!(!called);
    assert_eq!(cache.hits(), 2);
    let lookup = cache.lookup(1, &input, 1061);
    assert_eq!(lookup.miss_indices, vec![0, 1]);
    assert_eq!(cache.misses(), 4);
}

#[test]
fn cache_is_per_viewer_and_keeps_input_order() {
    let mut cache = CachedPhoenixScorer::new(CacheConfig::default());
    let input = candidates(3);
    score_once(&mut cache, 1, &input[1..2], 10);
    let lookup = cache.lookup(1, &input, 11);
    assert_eq!(lookup.miss_indices, vec![0, 2]);
    assert_eq!(lookup.cached[1].unwrap().favorite_score, Some(2));
    let other_viewer = cache.lookup(2, &input, 11);
    assert_eq!(other_viewer.miss_indices, vec![0, 1, 2]);
    let newly = scored(&[input[0].clone(), input[2].clone()]);
    let merged = cache.store_and_merge(1, input.clone(), &lookup.cached, newly, 11).unwrap();
    let ids: Vec<i64> = merged.iter().map(|c| c.tweet_id).collect();
    assert_eq!(ids, vec![0, 1, 2]);
    assert_eq!(merged[1].author_id, 10);
    assert_eq!(merged[0].prediction_request_id, Some(7));
    assert_eq!(merged[2].phoenix_scores.favorite_score, Some(3));
}

#[test]
fn merge_fails_when_the_scorer_drops_results() {
    let mut cache = CachedPhoenixScorer::new(CacheConfig::default());
    let input = candidates(3);
    let lookup = cache.lookup(5, &input, 0);
    let too_few = scored(&input[0..2]);
    assert!(cache.store_and_merge(5, input.clone(), &lookup.cached, too_few, 0).is_err());
    let again = cache.lookup(5, &input, 0);
    assert_eq!(again.miss_indices.len(), 3);
}

#[test]
fn small_cache_evicts_but_serves_latest() {
    let mut config = CacheConfig::default();
    config.user_cache_size = 1;
    let mut cache = CachedPhoenixScorer::new(config);
    let input = candidates(2);
    score_once(&mut cache, 1, &input, 0);
    let lookup = cache.lookup(1, &input, 0);
    assert_eq!(lookup.miss_indices, vec![0]);
    cache.clear_caches();
    assert_eq!(cache.lookup(1, &input, 0).miss_indices.len(), 2);
    assert_eq!(cache.config().user_cache_size, 1);
}

#[test]
fn update_copies_scores_and_request_metadata() {
    let cache = CachedPhoenixScorer::new(CacheConfig::default());
    let mut candidate = PostCandidate::default();
    candidate.tweet_id = 3;
    let mut delta = PostCandidate::default();
    delta.phoenix_scores.reply_score = Some(9);
    delta.prediction_request_id = Some(11);
    delta.last_scored_at_ms = Some(12);
    cache.update(&mut candidate, delta);
    assert_eq!(candidate.phoenix_scores.reply_score, Some(9));
    assert_eq!(candidate.prediction_request_id, Some(11));
    assert_eq!(candidate.last_scored_at_ms, Some(12));
    assert_eq!(candidate.tweet_id, 3);
}

#[test]
fn every_rescored_entry_is_rewritten_after_expiry() {
    let mut config = CacheConfig::default();
    config.user_cache_ttl_secs = 10;
    let mut cache = CachedPhoenixScorer::new(config);
    let input = candidates(4);
    score_once(&mut cache, 3, &input, 0);
    let (_, called) = score_once(&mut cache, 3, &input, 11);
    assert!(called);
    assert_eq!(cache.misses(), 8);
    let lookup = cache.lookup(3, &input, 21);
    assert!(lookup.miss_indices.is_empty());
    assert_eq!(cache.hits(), 4);
}
