//! Ranking parameters.
//!
//! Probabilities are held in millionths (`PROB_ONE` stands for certainty),
//! weights in thousandths, and a score, the product of the two, in billionths.
use vstd::prelude::*;

verus! {

/// A probability of one, in millionths.
pub const PROB_ONE: u32 = 1_000_000;

/// A weight of one, in thousandths.
pub const WEIGHT_ONE: i64 = 1000;

/// A score of one, in billionths.
pub const SCORE_ONE: i128 = 1_000_000_000;

/// Maximum gRPC message size (16MB).
pub const MAX_GRPC_MESSAGE_SIZE: usize = 16777216;

/// Default result size for scored posts.
pub const RESULT_SIZE: usize = 100;

/// Maximum post age in seconds (7 days).
pub const MAX_POST_AGE: u64 = 604800;

/// Minimum video duration for the video-quality-view weight, in milliseconds.
pub const MIN_VIDEO_DURATION_MS: i32 = 2000;

// Positive signals, in thousandths.
pub const FAVORITE_WEIGHT: i64 = 1000;
pub const REPLY_WEIGHT: i64 = 27000;
pub const RETWEET_WEIGHT: i64 = 1000;
pub const PHOTO_EXPAND_WEIGHT: i64 = 500;
pub const CLICK_WEIGHT: i64 = 500;
pub const PROFILE_CLICK_WEIGHT: i64 = 12000;
pub const VQV_WEIGHT: i64 = 300;
pub const SHARE_WEIGHT: i64 = 1000;
pub const SHARE_VIA_DM_WEIGHT: i64 = 2000;
pub const SHARE_VIA_COPY_LINK_WEIGHT: i64 = 1500;
pub const DWELL_WEIGHT: i64 = 100;
pub const QUOTE_WEIGHT: i64 = 2000;
pub const QUOTED_CLICK_WEIGHT: i64 = 500;
pub const CONT_DWELL_TIME_WEIGHT: i64 = 50;
pub const FOLLOW_AUTHOR_WEIGHT: i64 = 4000;
pub const BOOKMARK_WEIGHT: i64 = 4000;

// Negative signals, in thousandths.
pub const NOT_INTERESTED_WEIGHT: i64 = -74000;
pub const BLOCK_AUTHOR_WEIGHT: i64 = -150000;
pub const MUTE_AUTHOR_WEIGHT: i64 = -50000;
pub const REPORT_WEIGHT: i64 = -369000;

/// Multiplier when the author engages in their own thread, in thousandths.
pub const AUTHOR_REPLY_BONUS: i64 = 1500;

/// Weight of followed accounts, in thousandths.
pub const IN_NETWORK_WEIGHT: i64 = 1000;

/// Discount for out-of-network content, in thousandths.
pub const OON_WEIGHT_FACTOR: i64 = 700;

/// Score kept for each further post of one author, in thousandths.
pub const AUTHOR_DIVERSITY_DECAY: i64 = 800;

/// Half-life of a post's freshness, in hours.
pub const FRESHNESS_DECAY_HOURS: u64 = 6;

/// Sum of the positive weights, in thousandths.
pub const WEIGHTS_SUM: i64 = FAVORITE_WEIGHT + REPLY_WEIGHT + RETWEET_WEIGHT + PHOTO_EXPAND_WEIGHT
    + CLICK_WEIGHT + PROFILE_CLICK_WEIGHT + VQV_WEIGHT + SHARE_WEIGHT + SHARE_VIA_DM_WEIGHT
    + SHARE_VIA_COPY_LINK_WEIGHT + DWELL_WEIGHT + QUOTE_WEIGHT + QUOTED_CLICK_WEIGHT
    + CONT_DWELL_TIME_WEIGHT + FOLLOW_AUTHOR_WEIGHT + BOOKMARK_WEIGHT;

/// Sum of the magnitudes of the negative weights, in thousandths.
pub const NEGATIVE_WEIGHTS_SUM: i64 = 74000 + 150000 + 50000 + 369000;

/// Offset added to every normalized score, in billionths.
pub const NEGATIVE_SCORES_OFFSET: i128 = 0;

} // verus!
