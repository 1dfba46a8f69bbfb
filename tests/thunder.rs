use home_mixer::candidate_source::{CandidateSource, InMemoryCandidateSource, ThunderCandidate};
use home_mixer::realtime_query::{admit_candidates, execute_query, RealtimeQuery};
use home_mixer::thunder_config::{Args, ThunderConfig};

fn now_secs() -> u64 {
    std::time::SystemTime::now().duration_since(std::time::UNIX_EPOCH).unwrap().as_secs()
}

#[test]
fn test_candidate_freshness() {
    let candidate = ThunderCandidate::new(1, 100, "Test post".into(), 1000);
    let now = 1100;
    assert!(candidate.is_fresh(now, 200));
    assert!(!candidate.is_fresh(now, 50));
    assert_eq!(candidate.age_seconds(900), 0);
}

#[test]
fn test_in_memory_source() {
    let mut source = InMemoryCandidateSource::new();
    source.add_post(ThunderCandidate::new(1, 100, "Post 1".into(), 1000));
    source.add_post(ThunderCandidate::new(2, 200, "Post 2".into(), 1001));
    source.add_post(ThunderCandidate::new(3, 100, "Post 3".into(), 1002));
    let candidates = source.fetch_candidates(1, &[100], 10);
    assert_eq!(candidates.len(), 2);
    let limited = source.fetch_candidates(1, &[100, 200], 2);
    let ids: Vec<i64> = limited.iter().map(|c| c.post_id).collect();
    assert_eq!(ids, vec![1, 2]);
    assert!(source.fetch_candidates(1, &[], 10).is_empty());
}

#[test]
fn test_realtime_query() {
    let mut source = InMemoryCandidateSource::new();
    let now = now_secs();
    source.add_post(ThunderCandidate::new(1, 100, "Fresh post".into(), now - 100));
    source.add_post(ThunderCandidate::new(2, 100, "Also fresh".into(), now - 200));
    source.add_post(ThunderCandidate::new(3, 100, "Old post".into(), now - 8 * 24 * 60 * 60));
    let query = RealtimeQuery::new(1, vec![100]);
    let config = ThunderConfig::default();
    let response = execute_query(&source, &query, &config);
    assert_eq!(response.candidates.len(), 2);
}

#[test]
fn test_query_exclusions() {
    let mut source = InMemoryCandidateSource::new();
    let now = now_secs();
    source.add_post(ThunderCandidate::new(1, 100, "Post 1".into(), now - 100));
    source.add_post(ThunderCandidate::new(2, 100, "Post 2".into(), now - 200));
    source.add_post(ThunderCandidate::new(3, 100, "Post 3".into(), now - 300));
    let query = RealtimeQuery::new(1, vec![100]).exclude(vec![2]);
    let config = ThunderConfig::default();
    let response = execute_query(&source, &query, &config);
    assert_eq!(response.candidates.len(), 2);
    assert!(!response.candidates.iter().any(|c| c.post_id == 2));
}

#[test]
fn admission_counts_before_the_limit() {
    let fetched = vec![
        ThunderCandidate::new(1, 5, "a".into(), 990),
        ThunderCandidate::new(2, 5, "b".into(), 500),
        ThunderCandidate::new(3, 5, "c".into(), 995),
        ThunderCandidate::new(4, 5, "d".into(), 999),
    ];
    let query = RealtimeQuery::new(9, vec![5]).with_max_age(100).with_limit(1).exclude(vec![3]);
    assert_eq!(query.limit, 1);
    assert_eq!(query.max_age_seconds, 100);
    let (kept, total) = admit_candidates(fetched, &query, 1000);
    assert_eq!(total, 2);
    assert_eq!(kept.len(), 1);
    assert_eq!(kept[0].post_id, 1);
    assert_eq!(kept[0].content, "a");
}

#[test]
fn service_defaults() {
    let args = Args::default();
    assert_eq!(args.post_retention_seconds, 604800);
    assert_eq!(args.grpc_port, 50051);
    assert!(args.is_serving);
    assert_eq!(ThunderConfig::default().max_posts, 0);
}
