//! Static engagement-weight scoring.
use vstd::prelude::*;
use crate::candidate::{PhoenixScores, PostCandidate};
use crate::params::{
    BLOCK_AUTHOR_WEIGHT, CLICK_WEIGHT, CONT_DWELL_TIME_WEIGHT, DWELL_WEIGHT, FAVORITE_WEIGHT,
    FOLLOW_AUTHOR_WEIGHT, MIN_VIDEO_DURATION_MS, MUTE_AUTHOR_WEIGHT, NEGATIVE_SCORES_OFFSET,
    NEGATIVE_WEIGHTS_SUM, NOT_INTERESTED_WEIGHT, PHOTO_EXPAND_WEIGHT, PROFILE_CLICK_WEIGHT,
    QUOTED_CLICK_WEIGHT, QUOTE_WEIGHT, REPLY_WEIGHT, REPORT_WEIGHT, RETWEET_WEIGHT,
    SHARE_VIA_COPY_LINK_WEIGHT, SHARE_VIA_DM_WEIGHT, SHARE_WEIGHT, VQV_WEIGHT, WEIGHTS_SUM,
};
use crate::proto::ScoredPostsQuery;
use vstd::arithmetic::div_mod::{lemma_fundamental_div_mod, lemma_fundamental_div_mod_converse, lemma_mod_bound};

verus! {

/// One weight per tracked action, in thousandths, field for field with `PhoenixScores`.
#[derive(Clone, Copy, Debug, PartialEq, Eq, Structural)]
pub struct ActionWeights {
    pub favorite: i64,
    pub reply: i64,
    pub retweet: i64,
    pub photo_expand: i64,
    pub click: i64,
    pub profile_click: i64,
    pub vqv: i64,
    pub share: i64,
    pub share_via_dm: i64,
    pub share_via_copy_link: i64,
    pub dwell: i64,
    pub quote: i64,
    pub quoted_click: i64,
    pub cont_dwell_time: i64,
    pub follow_author: i64,
    pub not_interested: i64,
    pub block_author: i64,
    pub mute_author: i64,
    pub report: i64,
}

/// A prediction as a number: an absent one counts as zero.
pub open spec fn prob(x: Option<u32>) -> int {
    match x {
        Some(v) => v as int,
        None => 0,
    }
}

/// The inner product of a score vector and a weight vector, in billionths.
pub open spec fn spec_dot(s: PhoenixScores, w: ActionWeights) -> int {
    prob(s.favorite_score) * w.favorite + prob(s.reply_score) * w.reply
        + prob(s.retweet_score) * w.retweet + prob(s.photo_expand_score) * w.photo_expand
        + prob(s.click_score) * w.click + prob(s.profile_click_score) * w.profile_click
        + prob(s.vqv_score) * w.vqv + prob(s.share_score) * w.share
        + prob(s.share_via_dm_score) * w.share_via_dm
        + prob(s.share_via_copy_link_score) * w.share_via_copy_link
        + prob(s.dwell_score) * w.dwell + prob(s.quote_score) * w.quote
        + prob(s.quoted_click_score) * w.quoted_click + prob(s.dwell_time) * w.cont_dwell_time
        + prob(s.follow_author_score) * w.follow_author
        + prob(s.not_interested_score) * w.not_interested
        + prob(s.block_author_score) * w.block_author
        + prob(s.mute_author_score) * w.mute_author + prob(s.report_score) * w.report
}

/// Whether a video is long enough for its quality-view weight to count.
pub open spec fn video_eligible(video_duration_ms: Option<i32>) -> bool {
    match video_duration_ms {
        Some(ms) => ms > MIN_VIDEO_DURATION_MS,
        None => false,
    }
}

/// The video-quality-view weight a candidate gets: the full weight for an
/// eligible video, zero otherwise.
pub open spec fn spec_vqv_weight(video_duration_ms: Option<i32>) -> i64 {
    if video_eligible(video_duration_ms) {
        VQV_WEIGHT
    } else {
        0
    }
}

/// The static weight vector for a candidate with the given video duration.
pub open spec fn spec_base_weights(video_duration_ms: Option<i32>) -> ActionWeights {
    ActionWeights {
        favorite: FAVORITE_WEIGHT,
        reply: REPLY_WEIGHT,
        retweet: RETWEET_WEIGHT,
        photo_expand: PHOTO_EXPAND_WEIGHT,
        click: CLICK_WEIGHT,
        profile_click: PROFILE_CLICK_WEIGHT,
        vqv: spec_vqv_weight(video_duration_ms),
        share: SHARE_WEIGHT,
        share_via_dm: SHARE_VIA_DM_WEIGHT,
        share_via_copy_link: SHARE_VIA_COPY_LINK_WEIGHT,
        dwell: DWELL_WEIGHT,
        quote: QUOTE_WEIGHT,
        quoted_click: QUOTED_CLICK_WEIGHT,
        cont_dwell_time: CONT_DWELL_TIME_WEIGHT,
        follow_author: FOLLOW_AUTHOR_WEIGHT,
        not_interested: NOT_INTERESTED_WEIGHT,
        block_author: BLOCK_AUTHOR_WEIGHT,
        mute_author: MUTE_AUTHOR_WEIGHT,
        report: REPORT_WEIGHT,
    }
}

/// Normalization of a raw score, in billionths.
///
/// With no positive weight the score is clamped at zero. Otherwise a negative
/// score is rescaled to `(raw + sum of negative weight magnitudes) / sum of
/// positive weights` (rounded down) and a non-negative one is kept; the offset
/// is then added.
pub open spec fn spec_offset_score(raw: int) -> int {
    if WEIGHTS_SUM == 0 {
        if raw < 0 {
            0
        } else {
            raw
        }
    } else if raw < 0 {
        (raw + NEGATIVE_WEIGHTS_SUM * 1_000_000) * 1000 / (WEIGHTS_SUM as int)
            + NEGATIVE_SCORES_OFFSET
    } else {
        raw + NEGATIVE_SCORES_OFFSET
    }
}

/// Clamps a score at zero.
pub open spec fn spec_normalize(score: int) -> int {
    if score < 0 {
        0
    } else {
        score
    }
}

/// The weighted score of a candidate under the static weights.
pub open spec fn spec_weighted_score(c: PostCandidate) -> int {
    spec_offset_score(spec_dot(c.phoenix_scores, spec_base_weights(c.video_duration_ms)))
}

/// Every prediction of the vector is zero or absent.
pub open spec fn all_zero(s: PhoenixScores) -> bool {
    &&& prob(s.favorite_score) == 0
    &&& prob(s.reply_score) == 0
    &&& prob(s.retweet_score) == 0
    &&& prob(s.photo_expand_score) == 0
    &&& prob(s.click_score) == 0
    &&& prob(s.profile_click_score) == 0
    &&& prob(s.vqv_score) == 0
    &&& prob(s.share_score) == 0
    &&& prob(s.share_via_dm_score) == 0
    &&& prob(s.share_via_copy_link_score) == 0
    &&& prob(s.dwell_score) == 0
    &&& prob(s.quote_score) == 0
    &&& prob(s.quoted_click_score) == 0
    &&& prob(s.dwell_time) == 0
    &&& prob(s.follow_author_score) == 0
    &&& prob(s.not_interested_score) == 0
    &&& prob(s.block_author_score) == 0
    &&& prob(s.mute_author_score) == 0
    &&& prob(s.report_score) == 0
}

/// The candidate with its video-quality-view prediction replaced by `v`.
pub open spec fn with_vqv_score(c: PostCandidate, v: Option<u32>) -> PostCandidate {
    PostCandidate { phoenix_scores: PhoenixScores { vqv_score: v, ..c.phoenix_scores }, ..c }
}

/// When every prediction is zero, the raw score is zero whatever the weights,
/// and the normalized score is exactly the configured offset.
pub proof fn lemma_zero_scores_give_offset(s: PhoenixScores, w: ActionWeights)
    requires
        all_zero(s),
    ensures
        spec_dot(s, w) == 0,
        spec_offset_score(spec_dot(s, w)) == NEGATIVE_SCORES_OFFSET,
        spec_normalize(spec_offset_score(spec_dot(s, w))) == NEGATIVE_SCORES_OFFSET,
{
}

/// A candidate without an eligible video scores the same whatever its
/// video-quality-view prediction; one whose video is longer than the
/// threshold gets the full video-quality-view weight.
pub proof fn lemma_video_gate(c: PostCandidate, v: Option<u32>)
    ensures
        !video_eligible(c.video_duration_ms) ==> spec_base_weights(c.video_duration_ms).vqv == 0
            && spec_weighted_score(c) == spec_weighted_score(with_vqv_score(c, v)),
        c.video_duration_ms is None ==> !video_eligible(c.video_duration_ms),
        video_eligible(c.video_duration_ms) ==> spec_base_weights(c.video_duration_ms).vqv
            == VQV_WEIGHT,
        (c.video_duration_ms matches Some(ms) && ms > MIN_VIDEO_DURATION_MS) ==> video_eligible(
            c.video_duration_ms,
        ),
{
}

/// Largest magnitude of a raw score: 19 terms, each under 2^95.
pub open spec fn raw_bound() -> int {
    19 * 0x8000_0000_0000_0000_0000_0000int
}

/// Rounding a negative quotient down through the magnitude of its dividend.
proof fn lemma_floor_div_negative(a: int, d: int)
    requires
        a < 0,
        d > 0,
    ensures
        -((-a + d - 1) / d) == a / d,
{
    let q = a / d;
    let r = a % d;
    lemma_fundamental_div_mod(a, d);
    lemma_mod_bound(a, d);
    assert(d * q == q * d) by (nonlinear_arith);
    assert(-a + d - 1 == (-q) * d + (d - 1 - r)) by (nonlinear_arith)
        requires
            a == q * d + r,
    ;
    lemma_fundamental_div_mod_converse(-a + d - 1, d, -q, d - 1 - r);
}

fn term(x: Option<u32>, w: i64) -> (r: i128)
    ensures
        r == prob(x) * w,
        -0x8000_0000_0000_0000_0000_0000 < r < 0x8000_0000_0000_0000_0000_0000,
{
    let v: u32 = match x {
        Some(v) => v,
        None => 0,
    };
    assert(-0x8000_0000_0000_0000_0000_0000 < (v as int) * (w as int)
        < 0x8000_0000_0000_0000_0000_0000) by (nonlinear_arith)
        requires
            0 <= v < 0x1_0000_0000,
            -0x8000_0000_0000_0000 <= w < 0x8000_0000_0000_0000,
    ;
    (v as i128) * (w as i128)
}

/// Inner product of a score vector and a weight vector, in billionths.
pub fn dot(s: &PhoenixScores, w: &ActionWeights) -> (r: i128)
    ensures
        r == spec_dot(*s, *w),
        -raw_bound() < r < raw_bound(),
{
    term(s.favorite_score, w.favorite) + term(s.reply_score, w.reply) + term(
        s.retweet_score,
        w.retweet,
    ) + term(s.photo_expand_score, w.photo_expand) + term(s.click_score, w.click) + term(
        s.profile_click_score,
        w.profile_click,
    ) + term(s.vqv_score, w.vqv) + term(s.share_score, w.share) + term(
        s.share_via_dm_score,
        w.share_via_dm,
    ) + term(s.share_via_copy_link_score, w.share_via_copy_link) + term(s.dwell_score, w.dwell)
        + term(s.quote_score, w.quote) + term(s.quoted_click_score, w.quoted_click) + term(
        s.dwell_time,
        w.cont_dwell_time,
    ) + term(s.follow_author_score, w.follow_author) + term(
        s.not_interested_score,
        w.not_interested,
    ) + term(s.block_author_score, w.block_author) + term(s.mute_author_score, w.mute_author)
        + term(s.report_score, w.report)
}

/// Applies the normalization of `spec_offset_score` to a raw score.
pub fn offset_score(combined_score: i128) -> (r: i128)
    requires
        -raw_bound() < combined_score < raw_bound(),
    ensures
        r == spec_offset_score(combined_score as int),
{
    if WEIGHTS_SUM == 0 {
        if combined_score < 0 {
            0
        } else {
            combined_score
        }
    } else if combined_score < 0 {
        let shifted: i128 = (combined_score + (NEGATIVE_WEIGHTS_SUM as i128) * 1_000_000) * 1000;
        let d: i128 = WEIGHTS_SUM as i128;
        proof {
            if shifted < 0 {
                lemma_floor_div_negative(shifted as int, d as int);
            }
        }
        let q: i128 = if shifted >= 0 {
            ((shifted as u128) / (d as u128)) as i128
        } else {
            -(((((-shifted) as u128) + (d as u128) - 1) / (d as u128)) as i128)
        };
        q + NEGATIVE_SCORES_OFFSET
    } else {
        combined_score + NEGATIVE_SCORES_OFFSET
    }
}

/// Clamps a candidate's score at zero.
pub fn normalize_score(_candidate: &PostCandidate, score: i128) -> (r: i128)
    ensures
        r == spec_normalize(score as int),
{
    if score < 0 {
        0
    } else {
        score
    }
}

/// Scores candidates with the static engagement weights.
pub struct WeightedScorer;

impl WeightedScorer {
    /// The video-quality-view weight of a candidate.
    pub fn vqv_weight_eligibility(candidate: &PostCandidate) -> (r: i64)
        ensures
            r == spec_vqv_weight(candidate.video_duration_ms),
    {
        match candidate.video_duration_ms {
            Some(ms) => if ms > MIN_VIDEO_DURATION_MS {
                VQV_WEIGHT
            } else {
                0
            },
            None => 0,
        }
    }

    /// The static weight vector of a candidate.
    pub fn weights_for(candidate: &PostCandidate) -> (r: ActionWeights)
        ensures
            r == spec_base_weights(candidate.video_duration_ms),
    {
        ActionWeights {
            favorite: FAVORITE_WEIGHT,
            reply: REPLY_WEIGHT,
            retweet: RETWEET_WEIGHT,
            photo_expand: PHOTO_EXPAND_WEIGHT,
            click: CLICK_WEIGHT,
            profile_click: PROFILE_CLICK_WEIGHT,
            vqv: Self::vqv_weight_eligibility(candidate),
            share: SHARE_WEIGHT,
            share_via_dm: SHARE_VIA_DM_WEIGHT,
            share_via_copy_link: SHARE_VIA_COPY_LINK_WEIGHT,
            dwell: DWELL_WEIGHT,
            quote: QUOTE_WEIGHT,
            quoted_click: QUOTED_CLICK_WEIGHT,
            cont_dwell_time: CONT_DWELL_TIME_WEIGHT,
            follow_author: FOLLOW_AUTHOR_WEIGHT,
            not_interested: NOT_INTERESTED_WEIGHT,
            block_author: BLOCK_AUTHOR_WEIGHT,
            mute_author: MUTE_AUTHOR_WEIGHT,
            report: REPORT_WEIGHT,
        }
    }

    /// The weighted score of a candidate, before clamping, in billionths.
    pub fn compute_weighted_score(candidate: &PostCandidate) -> (r: i128)
        ensures
            r == spec_weighted_score(*candidate),
    {
        let w = Self::weights_for(candidate);
        Self::offset(dot(&candidate.phoenix_scores, &w))
    }

    fn offset(combined_score: i128) -> (r: i128)
        requires
            -raw_bound() < combined_score < raw_bound(),
        ensures
            r == spec_offset_score(combined_score as int),
    {
        offset_score(combined_score)
    }

    /// One scored delta per candidate, in input order: each carries the
    /// clamped weighted score and nothing else.
    pub fn score(&self, _query: &ScoredPostsQuery, candidates: &[PostCandidate]) -> (r: Result<
        Vec<PostCandidate>,
        String,
    >)
        ensures
            r is Ok,
            r->Ok_0@.len() == candidates@.len(),
            forall|i: int|
                0 <= i < candidates@.len() ==> #[trigger] r->Ok_0@[i].weighted_score == Some(
                    spec_normalize(spec_weighted_score(candidates@[i])) as i128,
                ),
    {
        let mut scored: Vec<PostCandidate> = Vec::new();
        let mut i: usize = 0;
        while i < candidates.len()
            invariant
                i <= candidates@.len(),
                scored@.len() == i,
                forall|j: int|
                    0 <= j < i ==> #[trigger] scored@[j].weighted_score == Some(
                        spec_normalize(spec_weighted_score(candidates@[j])) as i128,
                    ),
            decreases candidates@.len() - i,
        {
            let c = &candidates[i];
            let weighted = Self::compute_weighted_score(c);
            let normalized = normalize_score(c, weighted);
            let mut delta = PostCandidate::default();
            delta.weighted_score = Some(normalized);
            scored.push(delta);
            i = i + 1;
        }
        Ok(scored)
    }

    /// Copies the weighted score of a scored delta onto the candidate.
    pub fn update(&self, candidate: &mut PostCandidate, scored: PostCandidate)
        ensures
            *final(candidate) == (PostCandidate {
                weighted_score: scored.weighted_score,
                ..*old(candidate)
            }),
    {
        candidate.weighted_score = scored.weighted_score;
    }
}

} // verus!
