use home_mixer::age_filter::{within_age_at, AgeFilter};
use home_mixer::candidate::PostCandidate;
use home_mixer::proto::ScoredPostsQuery;
use home_mixer::snowflake::{from_timestamp, ID_EPOCH_MS};
use std::time::{Duration, SystemTime};

#[test]
fn test_age_filter_basic() {
    let filter = AgeFilter::new(Duration::from_secs(3600));
    let recent_tweet_id = from_timestamp(
        SystemTime::now().duration_since(SystemTime::UNIX_EPOCH).unwrap().as_millis() as i64,
    );
    let mut candidate = PostCandidate::default();
    candidate.tweet_id = recent_tweet_id;
    let result = filter.filter(&ScoredPostsQuery::new(0), vec![candidate]).unwrap();
    assert_eq!(result.kept.len(), 1);
    assert_eq!(result.removed.len(), 0);
}

#[test]
fn test_cache_hit() {
    let filter = AgeFilter::new(Duration::from_secs(3600));
    let tweet_id = 123456789;
    let result1 = filter.is_within_age(tweet_id);
    let result2 = filter.is_within_age(tweet_id);
    assert_eq!(result1, result2);
    let (entry_count, _) = filter.cache_stats();
    assert_eq!(entry_count, 1);
}

#[test]
fn age_window_bounds() {
    let id = from_timestamp(ID_EPOCH_MS + 10_000);
    assert!(within_age_at(id, ID_EPOCH_MS + 10_001, 1));
    assert!(!within_age_at(id, ID_EPOCH_MS + 10_002, 1));
    assert!(within_age_at(id, ID_EPOCH_MS + 10_000, 5));
    assert!(!within_age_at(id, ID_EPOCH_MS + 9_999, 5));
    let old = from_timestamp(ID_EPOCH_MS);
    let filter = AgeFilter::new(Duration::from_secs(60));
    let mut candidate = PostCandidate::default();
    candidate.tweet_id = old;
    let result = filter.filter(&ScoredPostsQuery::new(0), vec![candidate]).unwrap();
    assert_eq!(result.removed.len(), 1);
}
