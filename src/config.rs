//! Service configuration, feature rollout and request metrics.
use vstd::prelude::*;

verus! {

/// Caching of prediction scores.
#[derive(Clone, Copy, Debug, PartialEq, Eq, Structural)]
pub struct CachingConfig {
    pub enabled: bool,
    pub user_cache_size: usize,
    pub trending_cache_size: usize,
    pub trending_ttl_secs: u64,
    pub user_cache_ttl_secs: u64,
    pub enable_cache_warming: bool,
}

impl Default for CachingConfig {
    fn default() -> (r: CachingConfig)
        ensures
            r == (CachingConfig {
                enabled: false,
                user_cache_size: 10_000_000,
                trending_cache_size: 100_000,
                trending_ttl_secs: 300,
                user_cache_ttl_secs: 3600,
                enable_cache_warming: false,
            }),
    {
        CachingConfig {
            enabled: false,
            user_cache_size: 10_000_000,
            trending_cache_size: 100_000,
            trending_ttl_secs: 300,
            user_cache_ttl_secs: 3600,
            enable_cache_warming: false,
        }
    }
}

/// Micro-batching of prediction calls.
#[derive(Clone, Copy, Debug, PartialEq, Eq, Structural)]
pub struct BatchingConfig {
    pub enabled: bool,
    pub max_batch_size: usize,
    pub max_wait_time_ms: u64,
    pub max_concurrent_batches: usize,
}

impl Default for BatchingConfig {
    fn default() -> (r: BatchingConfig)
        ensures
            r == (BatchingConfig {
                enabled: false,
                max_batch_size: 128,
                max_wait_time_ms: 5,
                max_concurrent_batches: 4,
            }),
    {
        BatchingConfig { enabled: false, max_batch_size: 128, max_wait_time_ms: 5, max_concurrent_batches: 4 }
    }
}

/// Cluster-based personalization.
#[derive(Clone, Copy, Debug, PartialEq, Eq, Structural)]
pub struct PersonalizationConfig {
    pub enabled: bool,
    pub num_clusters: usize,
    pub enable_auto_refresh: bool,
    pub refresh_interval_hours: u64,
}

impl Default for PersonalizationConfig {
    fn default() -> (r: PersonalizationConfig)
        ensures
            r == (PersonalizationConfig {
                enabled: false,
                num_clusters: 100,
                enable_auto_refresh: false,
                refresh_interval_hours: 24,
            }),
    {
        PersonalizationConfig {
            enabled: false,
            num_clusters: 100,
            enable_auto_refresh: false,
            refresh_interval_hours: 24,
        }
    }
}

/// Content-safety filters.
#[derive(Clone, Copy, Debug, PartialEq, Eq, Structural)]
pub struct SafetyConfig {
    pub enable_nsfw_filter: bool,
    pub nsfw_strict_mode: bool,
    pub enable_spam_filter: bool,
    pub enable_engagement_bait_filter: bool,
    pub enable_diversity_boost: bool,
    /// Boost of content outside the viewer's usual topics, in millionths.
    pub diversity_boost_multiplier: u32,
}

impl Default for SafetyConfig {
    fn default() -> (r: SafetyConfig)
        ensures
            r == (SafetyConfig {
                enable_nsfw_filter: true,
                nsfw_strict_mode: true,
                enable_spam_filter: true,
                enable_engagement_bait_filter: true,
                enable_diversity_boost: false,
                diversity_boost_multiplier: 1_300_000,
            }),
    {
        SafetyConfig {
            enable_nsfw_filter: true,
            nsfw_strict_mode: true,
            enable_spam_filter: true,
            enable_engagement_bait_filter: true,
            enable_diversity_boost: false,
            diversity_boost_multiplier: 1_300_000,
        }
    }
}

/// Percentage rollouts of the optimizations.
#[derive(Clone, Copy, Debug, PartialEq, Eq, Structural)]
pub struct FeatureFlags {
    pub caching_rollout_percent: u8,
    pub batching_rollout_percent: u8,
    pub personalization_rollout_percent: u8,
}

impl Default for FeatureFlags {
    fn default() -> (r: FeatureFlags)
        ensures
            r == (FeatureFlags {
                caching_rollout_percent: 0,
                batching_rollout_percent: 0,
                personalization_rollout_percent: 0,
            }),
    {
        FeatureFlags { caching_rollout_percent: 0, batching_rollout_percent: 0, personalization_rollout_percent: 0 }
    }
}

/// Metrics export.
#[derive(Clone, Copy, Debug, PartialEq, Eq, Structural)]
pub struct MetricsConfig {
    pub enabled: bool,
    pub port: u16,
    pub enable_tracing: bool,
}

impl Default for MetricsConfig {
    fn default() -> (r: MetricsConfig)
        ensures
            r == (MetricsConfig { enabled: true, port: 9090, enable_tracing: false }),
    {
        MetricsConfig { enabled: true, port: 9090, enable_tracing: false }
    }
}

/// The whole service configuration.
#[derive(Clone, Copy, Debug, PartialEq, Eq, Structural)]
pub struct Config {
    pub caching: CachingConfig,
    pub batching: BatchingConfig,
    pub personalization: PersonalizationConfig,
    pub safety: SafetyConfig,
    pub features: FeatureFlags,
    pub metrics: MetricsConfig,
}

/// A viewer is in a `percent` rollout when its identifier modulo 100 is
/// below `percent`; 100 and above include everyone.
pub open spec fn spec_in_rollout(user_id: u64, percent: u8) -> bool {
    percent >= 100 || (user_id % 100) < percent
}

/// Whether the viewer is in a rollout of `percent` percent.
pub fn is_in_rollout(user_id: u64, percent: u8) -> (r: bool)
    ensures
        r == spec_in_rollout(user_id, percent),
{
    if percent >= 100 {
        return true;
    }
    if percent == 0 {
        return false;
    }
    (user_id % 100) < percent as u64
}

impl Default for Config {
    fn default() -> (r: Config)
        ensures
            !r.caching.enabled,
            !r.batching.enabled,
            !r.personalization.enabled,
            r.safety.enable_nsfw_filter,
            r.features.caching_rollout_percent == 0,
            r.features.batching_rollout_percent == 0,
            r.features.personalization_rollout_percent == 0,
    {
        Config {
            caching: CachingConfig::default(),
            batching: BatchingConfig::default(),
            personalization: PersonalizationConfig::default(),
            safety: SafetyConfig::default(),
            features: FeatureFlags::default(),
            metrics: MetricsConfig::default(),
        }
    }
}

impl Config {
    pub fn should_use_caching(&self, user_id: u64) -> (r: bool)
        ensures
            r == (self.caching.enabled && spec_in_rollout(user_id, self.features.caching_rollout_percent)),
    {
        self.caching.enabled && is_in_rollout(user_id, self.features.caching_rollout_percent)
    }

    pub fn should_use_batching(&self, user_id: u64) -> (r: bool)
        ensures
            r == (self.batching.enabled && spec_in_rollout(user_id, self.features.batching_rollout_percent)),
    {
        self.batching.enabled && is_in_rollout(user_id, self.features.batching_rollout_percent)
    }

    pub fn should_use_personalization(&self, user_id: u64) -> (r: bool)
        ensures
            r == (self.personalization.enabled && spec_in_rollout(
                user_id,
                self.features.personalization_rollout_percent,
            )),
    {
        self.personalization.enabled && is_in_rollout(user_id, self.features.personalization_rollout_percent)
    }
}

/// Which safety filter removed a post.
#[derive(Clone, Copy, Debug, PartialEq, Eq, Structural)]
pub enum FilterType {
    Nsfw,
    Spam,
    Clickbait,
}

/// Raw request counters. Every counter stops at `u64::MAX`.
#[derive(Clone, Copy, Debug, PartialEq, Eq, Structural)]
pub struct Metrics {
    pub feed_latency_sum_ms: u64,
    pub feed_latency_count: u64,
    pub requests_total: u64,
    pub requests_success: u64,
    pub requests_error: u64,
    pub cache_hits: u64,
    pub cache_misses: u64,
    pub batch_size_sum: u64,
    pub batch_count: u64,
    pub gpu_inference_time_sum_ms: u64,
    pub gpu_inference_count: u64,
    pub nsfw_filtered: u64,
    pub spam_filtered: u64,
    pub clickbait_filtered: u64,
    pub personalized_requests: u64,
}

/// `a + b`, held at `u64::MAX`.
pub open spec fn sat_add(a: u64, b: u64) -> u64 {
    if a + b > u64::MAX {
        u64::MAX
    } else {
        (a + b) as u64
    }
}

impl Metrics {
    /// All counters at zero.
    pub open spec fn spec_zero() -> Metrics {
        Metrics {
            feed_latency_sum_ms: 0,
            feed_latency_count: 0,
            requests_total: 0,
            requests_success: 0,
            requests_error: 0,
            cache_hits: 0,
            cache_misses: 0,
            batch_size_sum: 0,
            batch_count: 0,
            gpu_inference_time_sum_ms: 0,
            gpu_inference_count: 0,
            nsfw_filtered: 0,
            spam_filtered: 0,
            clickbait_filtered: 0,
            personalized_requests: 0,
        }
    }

    /// All counters at zero.
    pub fn new() -> (r: Metrics)
        ensures
            r == Metrics::spec_zero(),
    {
        Metrics {
            feed_latency_sum_ms: 0,
            feed_latency_count: 0,
            requests_total: 0,
            requests_success: 0,
            requests_error: 0,
            cache_hits: 0,
            cache_misses: 0,
            batch_size_sum: 0,
            batch_count: 0,
            gpu_inference_time_sum_ms: 0,
            gpu_inference_count: 0,
            nsfw_filtered: 0,
            spam_filtered: 0,
            clickbait_filtered: 0,
            personalized_requests: 0,
        }
    }

    /// Counts one finished request and its latency.
    pub fn record_request(&mut self, latency_ms: u64, success: bool)
        ensures
            *final(self) == (Metrics {
                requests_total: sat_add(old(self).requests_total, 1),
                feed_latency_sum_ms: sat_add(old(self).feed_latency_sum_ms, latency_ms),
                feed_latency_count: sat_add(old(self).feed_latency_count, 1),
                requests_success: if success {
                    sat_add(old(self).requests_success, 1)
                } else {
                    old(self).requests_success
                },
                requests_error: if success {
                    old(self).requests_error
                } else {
                    sat_add(old(self).requests_error, 1)
                },
                ..*old(self)
            }),
    {
        self.requests_total = self.requests_total.saturating_add(1);
        self.feed_latency_sum_ms = self.feed_latency_sum_ms.saturating_add(latency_ms);
        self.feed_latency_count = self.feed_latency_count.saturating_add(1);
        if success {
            self.requests_success = self.requests_success.saturating_add(1);
        } else {
            self.requests_error = self.requests_error.saturating_add(1);
        }
    }

    /// Counts one cache hit or miss.
    pub fn record_cache_access(&mut self, hit: bool)
        ensures
            *final(self) == (if hit {
                Metrics { cache_hits: sat_add(old(self).cache_hits, 1), ..*old(self) }
            } else {
                Metrics { cache_misses: sat_add(old(self).cache_misses, 1), ..*old(self) }
            }),
    {
        if hit {
            self.cache_hits = self.cache_hits.saturating_add(1);
        } else {
            self.cache_misses = self.cache_misses.saturating_add(1);
        }
    }

    /// Counts one batch of `size` requests.
    pub fn record_batch(&mut self, size: usize)
        ensures
            *final(self) == (Metrics {
                batch_size_sum: sat_add(old(self).batch_size_sum, size as u64),
                batch_count: sat_add(old(self).batch_count, 1),
                ..*old(self)
            }),
    {
        self.batch_size_sum = self.batch_size_sum.saturating_add(size as u64);
        self.batch_count = self.batch_count.saturating_add(1);
    }

    /// Counts one post removed by a safety filter.
    pub fn record_filter(&mut self, filter_type: FilterType)
        ensures
            *final(self) == (match filter_type {
                FilterType::Nsfw => Metrics { nsfw_filtered: sat_add(old(self).nsfw_filtered, 1), ..*old(self) },
                FilterType::Spam => Metrics { spam_filtered: sat_add(old(self).spam_filtered, 1), ..*old(self) },
                FilterType::Clickbait => Metrics {
                    clickbait_filtered: sat_add(old(self).clickbait_filtered, 1),
                    ..*old(self)
                },
            }),
    {
        match filter_type {
            FilterType::Nsfw => {
                self.nsfw_filtered = self.nsfw_filtered.saturating_add(1);
            },
            FilterType::Spam => {
                self.spam_filtered = self.spam_filtered.saturating_add(1);
            },
            FilterType::Clickbait => {
                self.clickbait_filtered = self.clickbait_filtered.saturating_add(1);
            },
        }
    }
}

} // verus!
