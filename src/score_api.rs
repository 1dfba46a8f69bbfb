//! The score breakdown served to clients that ask how a post would rank.
use vstd::prelude::*;
use crate::params::{
    BOOKMARK_WEIGHT, FAVORITE_WEIGHT, PROFILE_CLICK_WEIGHT, REPLY_WEIGHT, RETWEET_WEIGHT, SCORE_ONE,
    VQV_WEIGHT,
};

verus! {

/// Predicted probabilities of a post, each in millionths.
#[derive(Clone, Copy, Debug, PartialEq, Eq, Structural)]
pub struct ScoreRequest {
    pub reply_prob: u32,
    pub like_prob: u32,
    pub repost_prob: u32,
    pub profile_click_prob: u32,
    pub bookmark_prob: u32,
    pub video_view_prob: u32,
    pub has_link: bool,
}

/// Contribution of each signal to the score, in billionths.
#[derive(Clone, Copy, Debug, PartialEq, Eq, Structural)]
pub struct ScoreBreakdown {
    pub reply_contribution: i128,
    pub profile_click_contribution: i128,
    pub bookmark_contribution: i128,
    pub like_contribution: i128,
    pub repost_contribution: i128,
    pub video_contribution: i128,
    /// What the link penalty took off the score.
    pub link_penalty: Option<i128>,
}

/// How far a score is likely to carry.
#[derive(Clone, Copy, Debug, PartialEq, Eq, Structural)]
pub enum ScoreTier {
    ViralPotential,
    Good,
    Average,
    Low,
}

impl ScoreTier {
    /// The tier's wire name.
    pub fn as_str(&self) -> (r: &'static str)
        ensures
            *self == ScoreTier::ViralPotential ==> r@ == "VIRAL_POTENTIAL"@,
            *self == ScoreTier::Good ==> r@ == "GOOD"@,
            *self == ScoreTier::Average ==> r@ == "AVERAGE"@,
            *self == ScoreTier::Low ==> r@ == "LOW"@,
    {
        match self {
            ScoreTier::ViralPotential => "VIRAL_POTENTIAL",
            ScoreTier::Good => "GOOD",
            ScoreTier::Average => "AVERAGE",
            ScoreTier::Low => "LOW",
        }
    }
}

/// Score, breakdown and tier of a post.
#[derive(Clone, Copy, Debug, PartialEq, Eq, Structural)]
pub struct ScoreResponse {
    /// The score, in billionths.
    pub score: i128,
    pub breakdown: ScoreBreakdown,
    pub tier: ScoreTier,
}

/// The weighted sum of the request's probabilities, in billionths.
pub open spec fn spec_raw(req: ScoreRequest) -> int {
    req.reply_prob * REPLY_WEIGHT + req.profile_click_prob * PROFILE_CLICK_WEIGHT
        + req.bookmark_prob * BOOKMARK_WEIGHT + req.like_prob * FAVORITE_WEIGHT
        + req.repost_prob * RETWEET_WEIGHT + req.video_view_prob * VQV_WEIGHT
}

/// The score after the link penalty, which takes nine tenths (rounded down)
/// off the score of a post with a link.
pub open spec fn spec_final_score(req: ScoreRequest) -> int {
    if req.has_link {
        spec_raw(req) - spec_raw(req) * 9 / 10
    } else {
        spec_raw(req)
    }
}

/// The tier of a score in billionths: 30 and above, 15 and above, 5 and
/// above, below.
pub open spec fn spec_tier(score: int) -> ScoreTier {
    if score >= 30 * SCORE_ONE {
        ScoreTier::ViralPotential
    } else if score >= 15 * SCORE_ONE {
        ScoreTier::Good
    } else if score >= 5 * SCORE_ONE {
        ScoreTier::Average
    } else {
        ScoreTier::Low
    }
}

fn contribution(prob: u32, weight: i64) -> (r: i128)
    requires
        0 <= weight <= 27000,
    ensures
        r == prob * weight,
        0 <= r <= 0xffff_ffff * 27000,
{
    assert(0 <= (prob as int) * (weight as int) <= 0xffff_ffff * 27000) by (nonlinear_arith)
        requires
            0 <= prob <= 0xffff_ffff,
            0 <= weight <= 27000,
    ;
    (prob as i128) * (weight as i128)
}

/// Scores a post from its predicted probabilities, applies the link penalty
/// and names the tier.
pub fn calculate_score(req: &ScoreRequest) -> (r: ScoreResponse)
    ensures
        r.score == spec_final_score(*req),
        r.tier == spec_tier(r.score as int),
        r.breakdown.reply_contribution == req.reply_prob * REPLY_WEIGHT,
        r.breakdown.profile_click_contribution == req.profile_click_prob * PROFILE_CLICK_WEIGHT,
        r.breakdown.bookmark_contribution == req.bookmark_prob * BOOKMARK_WEIGHT,
        r.breakdown.like_contribution == req.like_prob * FAVORITE_WEIGHT,
        r.breakdown.repost_contribution == req.repost_prob * RETWEET_WEIGHT,
        r.breakdown.video_contribution == req.video_view_prob * VQV_WEIGHT,
        r.breakdown.link_penalty == (if req.has_link {
            Some((spec_raw(*req) * 9 / 10) as i128)
        } else {
            None
        }),
{
    let reply_contribution = contribution(req.reply_prob, REPLY_WEIGHT);
    let profile_click_contribution = contribution(req.profile_click_prob, PROFILE_CLICK_WEIGHT);
    let bookmark_contribution = contribution(req.bookmark_prob, BOOKMARK_WEIGHT);
    let like_contribution = contribution(req.like_prob, FAVORITE_WEIGHT);
    let repost_contribution = contribution(req.repost_prob, RETWEET_WEIGHT);
    let video_contribution = contribution(req.video_view_prob, VQV_WEIGHT);
    let mut score = reply_contribution + profile_click_contribution + bookmark_contribution
        + like_contribution + repost_contribution + video_contribution;
    let link_penalty = if req.has_link {
        let penalty = score * 9 / 10;
        score = score - penalty;
        Some(penalty)
    } else {
        None
    };
    let tier = if score >= 30 * SCORE_ONE {
        ScoreTier::ViralPotential
    } else if score >= 15 * SCORE_ONE {
        ScoreTier::Good
    } else if score >= 5 * SCORE_ONE {
        ScoreTier::Average
    } else {
        ScoreTier::Low
    };
    ScoreResponse {
        score,
        breakdown: ScoreBreakdown {
            reply_contribution,
            profile_click_contribution,
            bookmark_contribution,
            like_contribution,
            repost_contribution,
            video_contribution,
            link_penalty,
        },
        tier,
    }
}

} // verus!
