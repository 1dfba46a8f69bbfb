use home_mixer::batched_scorer::{batch_config_error, combine_batch, should_flush, split_results, BatchConfig};
use home_mixer::candidate::PostCandidate;
use std::time::Duration;

fn request(first_id: i64, count: usize) -> Vec<PostCandidate> {
    (0..count)
        .map(|i| {
            let mut c = PostCandidate::default();
            c.tweet_id = first_id + i as i64;
            c
        })
        .collect()
}

#[test]
fn test_batch_config_defaults() {
    let config = BatchConfig::default();
    assert_eq!(config.max_batch_size, 128);
    assert_eq!(config.max_wait_time, Duration::from_millis(5));
    assert_eq!(config.max_concurrent_batches, 4);
}

#[test]
fn flush_on_size_or_wait() {
    assert!(!should_flush(0, 100, 4, 5));
    assert!(!should_flush(3, 4, 4, 5));
    assert!(should_flush(4, 0, 4, 5));
    assert!(should_flush(1, 5, 4, 5));
}

#[test]
fn one_call_covers_all_requests_and_each_gets_its_slice() {
    let requests = vec![request(0, 3), request(100, 0), request(200, 2), request(300, 4)];
    let batch = combine_batch(requests);
    assert_eq!(batch.boundaries, vec![0, 3, 3, 5, 9]);
    let ids: Vec<i64> = batch.candidates.iter().map(|c| c.tweet_id).collect();
    assert_eq!(ids, vec![0, 1, 2, 200, 201, 300, 301, 302, 303]);
    let slices = split_results(batch.candidates, &batch.boundaries).unwrap();
    assert_eq!(slices.len(), 4);
    let back: Vec<Vec<i64>> = slices.iter().map(|s| s.iter().map(|c| c.tweet_id).collect()).collect();
    assert_eq!(back, vec![vec![0, 1, 2], vec![], vec![200, 201], vec![300, 301, 302, 303]]);
}

#[test]
fn split_rejects_results_that_do_not_match() {
    let batch = combine_batch(vec![request(0, 2), request(10, 2)]);
    let mut short = batch.candidates;
    short.pop();
    assert!(split_results(short, &batch.boundaries).is_err());
    assert!(split_results(request(0, 2), &vec![0, 3, 2]).is_err());
    assert!(split_results(request(0, 2), &vec![]).is_err());
    assert!(split_results(request(0, 2), &vec![1, 2]).is_err());
}

#[test]
fn zero_batch_size_or_wait_is_a_configuration_error() {
    assert!(batch_config_error(0, 5_000_000).is_some());
    assert!(batch_config_error(128, 0).is_some());
    let config = BatchConfig::default();
    assert!(batch_config_error(config.max_batch_size, config.max_wait_time.as_nanos()).is_none());
}
