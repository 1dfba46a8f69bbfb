//! Ranking core of a personalized home timeline: candidate data, weighted and
//! personalized scoring, the caching and batching decorators' decisions,
//! viewer clustering, content filters and top-K selection.
//!
//! Quantities are held in fixed point: probabilities and ratios in
//! millionths, weights in thousandths, scores in billionths.

pub mod age_filter;
pub mod batch_scorer;
pub mod batched_scorer;
pub mod cache_entry;
pub mod cached_scorer;
pub mod candidate;
pub mod candidate_source;
pub mod config;
pub mod content_filters;
pub mod lru_cache;
pub mod params;
pub mod personalized_scorer;
pub mod pipeline;
pub mod proto;
pub mod realtime_query;
pub mod score_api;
pub mod snowflake;
pub mod text;
pub mod thunder_config;
pub mod time;
pub mod user_clusters;
pub mod util;
pub mod weighted_scorer;
