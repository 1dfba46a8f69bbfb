use home_mixer::config::{is_in_rollout, Config, FilterType, Metrics};

#[test]
fn test_default_config() {
    let config = Config::default();
    assert!(!config.caching.enabled);
    assert!(!config.batching.enabled);
    assert!(config.safety.enable_nsfw_filter);
}

#[test]
fn test_rollout_logic() {
    for user_id in 0..10u64 {
        assert!(is_in_rollout(user_id, 10));
    }
    for user_id in 10..100u64 {
        assert!(!is_in_rollout(user_id, 10));
    }
    assert!(is_in_rollout(999, 100));
    assert!(!is_in_rollout(0, 0));
}

#[test]
fn rollout_gates_each_feature() {
    let mut config = Config::default();
    assert!(!config.should_use_caching(5));
    config.caching.enabled = true;
    config.features.caching_rollout_percent = 50;
    assert!(config.should_use_caching(149));
    assert!(!config.should_use_caching(150));
    config.batching.enabled = true;
    config.features.batching_rollout_percent = 200;
    assert!(config.should_use_batching(99));
    assert!(!config.should_use_personalization(0));
}

#[test]
fn test_metrics() {
    let mut metrics = Metrics::new();
    metrics.record_request(50, true);
    metrics.record_request(60, true);
    metrics.record_request(70, false);
    assert_eq!(metrics.requests_total, 3);
    assert_eq!(metrics.requests_success, 2);
    assert_eq!(metrics.requests_error, 1);
    let avg = metrics.feed_latency_sum_ms as f64 / metrics.feed_latency_count as f64;
    assert!((avg - 60.0).abs() < 0.01);
}

#[test]
fn test_cache_hit_rate() {
    let mut metrics = Metrics::new();
    for _ in 0..70 {
        metrics.record_cache_access(true);
    }
    for _ in 0..30 {
        metrics.record_cache_access(false);
    }
    let rate = metrics.cache_hits as f64 / (metrics.cache_hits + metrics.cache_misses) as f64;
    assert!((rate - 0.7).abs() < 0.01);
}

#[test]
fn batches_and_filters_are_counted() {
    let mut metrics = Metrics::new();
    metrics.record_batch(12);
    metrics.record_batch(4);
    metrics.record_filter(FilterType::Spam);
    metrics.record_filter(FilterType::Spam);
    metrics.record_filter(FilterType::Nsfw);
    assert_eq!(metrics.batch_size_sum, 16);
    assert_eq!(metrics.batch_count, 2);
    assert_eq!(metrics.spam_filtered, 2);
    assert_eq!(metrics.nsfw_filtered, 1);
    assert_eq!(metrics.clickbait_filtered, 0);
    metrics.feed_latency_sum_ms = u64::MAX;
    metrics.record_request(5, true);
    assert_eq!(metrics.feed_latency_sum_ms, u64::MAX);
}
