//! The candidate post that moves through the ranking stages.
use vstd::prelude::*;

verus! {

/// Predicted engagement probabilities for one candidate, each in millionths.
/// An absent prediction counts as zero.
#[derive(Clone, Copy, Debug, PartialEq, Eq, Structural)]
pub struct PhoenixScores {
    pub favorite_score: Option<u32>,
    pub reply_score: Option<u32>,
    pub retweet_score: Option<u32>,
    pub photo_expand_score: Option<u32>,
    pub click_score: Option<u32>,
    pub profile_click_score: Option<u32>,
    pub vqv_score: Option<u32>,
    pub share_score: Option<u32>,
    pub share_via_dm_score: Option<u32>,
    pub share_via_copy_link_score: Option<u32>,
    pub dwell_score: Option<u32>,
    pub quote_score: Option<u32>,
    pub quoted_click_score: Option<u32>,
    /// Continuous dwell, in millionths of its unit.
    pub dwell_time: Option<u32>,
    pub follow_author_score: Option<u32>,
    pub not_interested_score: Option<u32>,
    pub block_author_score: Option<u32>,
    pub mute_author_score: Option<u32>,
    pub report_score: Option<u32>,
}

impl PhoenixScores {
    /// A score vector with no prediction at all.
    pub open spec fn spec_empty() -> PhoenixScores {
        PhoenixScores {
            favorite_score: None,
            reply_score: None,
            retweet_score: None,
            photo_expand_score: None,
            click_score: None,
            profile_click_score: None,
            vqv_score: None,
            share_score: None,
            share_via_dm_score: None,
            share_via_copy_link_score: None,
            dwell_score: None,
            quote_score: None,
            quoted_click_score: None,
            dwell_time: None,
            follow_author_score: None,
            not_interested_score: None,
            block_author_score: None,
            mute_author_score: None,
            report_score: None,
        }
    }
}

impl Default for PhoenixScores {
    fn default() -> (r: PhoenixScores)
        ensures
            r == PhoenixScores::spec_empty(),
    {
        PhoenixScores {
            favorite_score: None,
            reply_score: None,
            retweet_score: None,
            photo_expand_score: None,
            click_score: None,
            profile_click_score: None,
            vqv_score: None,
            share_score: None,
            share_via_dm_score: None,
            share_via_copy_link_score: None,
            dwell_score: None,
            quote_score: None,
            quoted_click_score: None,
            dwell_time: None,
            follow_author_score: None,
            not_interested_score: None,
            block_author_score: None,
            mute_author_score: None,
            report_score: None,
        }
    }
}

/// One post being considered for ranking.
///
/// Each stage fills the fields it owns: scorers set `phoenix_scores`,
/// `weighted_score`, `score` and `diversity_boost`; hydrators set the rest.
#[derive(Clone, Debug)]
pub struct PostCandidate {
    pub tweet_id: i64,
    pub author_id: u64,
    pub text: Option<String>,
    pub video_duration_ms: Option<i32>,
    pub phoenix_scores: PhoenixScores,
    /// Weighted score, in billionths.
    pub weighted_score: Option<i128>,
    /// Final ranking score, in billionths.
    pub score: Option<i128>,
    /// Multiplier for content outside the viewer's usual topics, in millionths.
    pub diversity_boost: Option<u32>,
    pub prediction_request_id: Option<u64>,
    pub last_scored_at_ms: Option<u64>,
    pub content_labels: Vec<String>,
    pub author_content_rating: Option<String>,
    pub has_sensitive_media: Option<bool>,
    pub author_follower_count: Option<u64>,
    pub author_following_count: Option<u64>,
    pub author_account_age_days: Option<u64>,
    pub author_tweet_count: Option<u64>,
    pub is_verified_impersonation: Option<bool>,
    pub topics: Option<Vec<u64>>,
}

impl Default for PostCandidate {
    fn default() -> (r: PostCandidate)
        ensures
            r.tweet_id == 0,
            r.author_id == 0,
            r.text is None,
            r.video_duration_ms is None,
            r.phoenix_scores == PhoenixScores::spec_empty(),
            r.weighted_score is None,
            r.score is None,
            r.diversity_boost is None,
            r.prediction_request_id is None,
            r.last_scored_at_ms is None,
            r.content_labels@.len() == 0,
            r.author_content_rating is None,
            r.has_sensitive_media is None,
            r.author_follower_count is None,
            r.author_following_count is None,
            r.author_account_age_days is None,
            r.author_tweet_count is None,
            r.is_verified_impersonation is None,
            r.topics is None,
    {
        PostCandidate {
            tweet_id: 0,
            author_id: 0,
            text: None,
            video_duration_ms: None,
            phoenix_scores: PhoenixScores::default(),
            weighted_score: None,
            score: None,
            diversity_boost: None,
            prediction_request_id: None,
            last_scored_at_ms: None,
            content_labels: Vec::new(),
            author_content_rating: None,
            has_sensitive_media: None,
            author_follower_count: None,
            author_following_count: None,
            author_account_age_days: None,
            author_tweet_count: None,
            is_verified_impersonation: None,
            topics: None,
        }
    }
}

} // verus!
