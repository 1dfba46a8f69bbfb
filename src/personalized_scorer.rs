//! Scoring with weights modulated by the viewer's cluster profile.
use vstd::prelude::*;
use crate::candidate::PostCandidate;
use crate::params::{
    BLOCK_AUTHOR_WEIGHT, CLICK_WEIGHT, CONT_DWELL_TIME_WEIGHT, DWELL_WEIGHT, FAVORITE_WEIGHT,
    FOLLOW_AUTHOR_WEIGHT, MIN_VIDEO_DURATION_MS, MUTE_AUTHOR_WEIGHT, NOT_INTERESTED_WEIGHT,
    PHOTO_EXPAND_WEIGHT, PROFILE_CLICK_WEIGHT, QUOTED_CLICK_WEIGHT, QUOTE_WEIGHT, REPLY_WEIGHT,
    REPORT_WEIGHT, RETWEET_WEIGHT, SHARE_VIA_COPY_LINK_WEIGHT, SHARE_VIA_DM_WEIGHT, SHARE_WEIGHT,
    VQV_WEIGHT,
};
use crate::proto::ScoredPostsQuery;
use crate::user_clusters::{ClusterProfile, UserClusteringService};
use crate::weighted_scorer::{
    all_zero, dot, lemma_zero_scores_give_offset, offset_score, spec_dot, spec_normalize,
    spec_offset_score, video_eligible, with_vqv_score, ActionWeights,
};
use crate::params::NEGATIVE_SCORES_OFFSET;

verus! {

/// A factor of one, in millionths.
pub const FACTOR_ONE: u64 = 1_000_000;

/// Engagement multiplier above which share weights get a further boost, in millionths.
pub const SHARE_BOOST_THRESHOLD: u32 = 1_200_000;

/// The share boost, in millionths.
pub const SHARE_BOOST: u64 = 1_500_000;

/// `w` scaled by the factor `f` (in millionths), rounded toward zero.
pub open spec fn spec_scale(w: int, f: int) -> int {
    if w >= 0 {
        w * f / 1_000_000
    } else {
        -((-w) * f / 1_000_000)
    }
}

/// The factor of the share-family weights.
pub open spec fn spec_share_factor(p: ClusterProfile) -> int {
    if p.engagement_multiplier > SHARE_BOOST_THRESHOLD {
        SHARE_BOOST as int
    } else {
        FACTOR_ONE as int
    }
}

/// The factor of the negative weights: `1 + 10 * negative_feedback_rate`.
pub open spec fn spec_negative_factor(p: ClusterProfile) -> int {
    FACTOR_ONE + 10 * p.negative_feedback_rate
}

/// The personalized video-quality-view weight: twice the base weight scaled
/// by the video preference for an eligible video, zero otherwise.
pub open spec fn spec_personalized_vqv(video_duration_ms: Option<i32>, p: ClusterProfile) -> int {
    if video_eligible(video_duration_ms) {
        spec_scale(VQV_WEIGHT as int, 2 * p.video_preference)
    } else {
        0
    }
}

/// The weight vector of a candidate for a viewer in cluster `p`.
pub open spec fn spec_personalized_weights(video_duration_ms: Option<i32>, p: ClusterProfile) -> ActionWeights {
    ActionWeights {
        favorite: spec_scale(FAVORITE_WEIGHT as int, p.engagement_multiplier as int) as i64,
        reply: spec_scale(REPLY_WEIGHT as int, p.engagement_multiplier as int) as i64,
        retweet: spec_scale(RETWEET_WEIGHT as int, p.engagement_multiplier as int) as i64,
        photo_expand: spec_scale(PHOTO_EXPAND_WEIGHT as int, p.image_preference as int) as i64,
        click: CLICK_WEIGHT,
        profile_click: PROFILE_CLICK_WEIGHT,
        vqv: spec_personalized_vqv(video_duration_ms, p) as i64,
        share: spec_scale(SHARE_WEIGHT as int, spec_share_factor(p)) as i64,
        share_via_dm: spec_scale(SHARE_VIA_DM_WEIGHT as int, spec_share_factor(p)) as i64,
        share_via_copy_link: spec_scale(SHARE_VIA_COPY_LINK_WEIGHT as int, spec_share_factor(p)) as i64,
        dwell: DWELL_WEIGHT,
        quote: QUOTE_WEIGHT,
        quoted_click: QUOTED_CLICK_WEIGHT,
        cont_dwell_time: CONT_DWELL_TIME_WEIGHT,
        follow_author: FOLLOW_AUTHOR_WEIGHT,
        not_interested: spec_scale(NOT_INTERESTED_WEIGHT as int, spec_negative_factor(p)) as i64,
        block_author: spec_scale(BLOCK_AUTHOR_WEIGHT as int, spec_negative_factor(p)) as i64,
        mute_author: spec_scale(MUTE_AUTHOR_WEIGHT as int, spec_negative_factor(p)) as i64,
        report: spec_scale(REPORT_WEIGHT as int, spec_negative_factor(p)) as i64,
    }
}

/// The personalized weighted score of a candidate, before clamping, in billionths.
pub open spec fn spec_personalized_score(c: PostCandidate, p: ClusterProfile) -> int {
    spec_offset_score(spec_dot(c.phoenix_scores, spec_personalized_weights(c.video_duration_ms, p)))
}

/// With every prediction zero, the personalized score is exactly the
/// configured offset for any cluster.
pub proof fn lemma_personalized_zero_scores_give_offset(c: PostCandidate, p: ClusterProfile)
    requires
        all_zero(c.phoenix_scores),
    ensures
        spec_personalized_score(c, p) == NEGATIVE_SCORES_OFFSET,
        spec_normalize(spec_personalized_score(c, p)) == NEGATIVE_SCORES_OFFSET,
{
    lemma_zero_scores_give_offset(
        c.phoenix_scores,
        spec_personalized_weights(c.video_duration_ms, p),
    );
}

/// Without an eligible video, the personalized score does not depend on the
/// video-quality-view prediction; with one, the video weight is the
/// personalized weight in full.
pub proof fn lemma_personalized_video_gate(c: PostCandidate, v: Option<u32>, p: ClusterProfile)
    ensures
        !video_eligible(c.video_duration_ms) ==> spec_personalized_weights(
            c.video_duration_ms,
            p,
        ).vqv == 0 && spec_personalized_score(c, p) == spec_personalized_score(
            with_vqv_score(c, v),
            p,
        ),
        video_eligible(c.video_duration_ms) ==> spec_personalized_weights(
            c.video_duration_ms,
            p,
        ).vqv == spec_scale(VQV_WEIGHT as int, 2 * p.video_preference),
{
    if video_eligible(c.video_duration_ms) {
        assert(0 <= spec_scale(VQV_WEIGHT as int, 2 * p.video_preference) <= 300 * 0x2_0000_0000)
            by (nonlinear_arith)
            requires
                0 <= p.video_preference < 0x1_0000_0000,
        ;
    }
}

/// `w` scaled by `f` millionths, rounded toward zero.
pub fn scale_weight(w: i64, f: u64) -> (r: i64)
    requires
        -1_000_000 <= w <= 1_000_000,
        f <= 0x10_0000_0000,
    ensures
        r == spec_scale(w as int, f as int),
{
    let m: u64 = if w >= 0 {
        w as u64
    } else {
        (-w) as u64
    };
    assert(m * f <= 1_000_000 * 0x10_0000_0000) by (nonlinear_arith)
        requires
            m <= 1_000_000,
            f <= 0x10_0000_0000,
    ;
    let q: u64 = m * f / 1_000_000;
    if w >= 0 {
        q as i64
    } else {
        -(q as i64)
    }
}

/// Scores candidates with weights modulated by the viewer's cluster profile.
pub struct PersonalizedWeightedScorer {
    clustering_service: UserClusteringService,
}

impl PersonalizedWeightedScorer {
    /// The clustering service the scorer reads profiles from.
    pub closed spec fn service(&self) -> UserClusteringService {
        self.clustering_service
    }

    pub fn new(clustering_service: UserClusteringService) -> (r: PersonalizedWeightedScorer)
        ensures
            r.service() == clustering_service,
    {
        PersonalizedWeightedScorer { clustering_service }
    }

    /// The clustering service the scorer reads profiles from.
    pub fn clustering_service(&self) -> (r: &UserClusteringService)
        ensures
            *r == self.service(),
    {
        &self.clustering_service
    }

    /// Sets or overwrites one viewer's profile.
    pub fn assign_user_cluster(&mut self, user_id: u64, profile: ClusterProfile)
        ensures
            final(self).service().assignments() == old(self).service().assignments().insert(
                user_id,
                profile,
            ),
            final(self).service().spec_num_clusters() == old(self).service().spec_num_clusters(),
    {
        self.clustering_service.assign_user_cluster(user_id, profile);
    }

    /// One scored delta per candidate, in input order, each carrying the
    /// clamped personalized score for the viewer's profile, or for the
    /// default profile when the viewer is unknown.
    pub fn score(&self, query: &ScoredPostsQuery, candidates: &[PostCandidate]) -> (r: Result<
        Vec<PostCandidate>,
        String,
    >)
        ensures
            r is Ok,
            r->Ok_0@.len() == candidates@.len(),
            self.service().assignments().contains_key(query.viewer_id) ==> forall|i: int|
                0 <= i < candidates@.len() ==> #[trigger] r->Ok_0@[i].weighted_score == Some(
                    spec_normalize(
                        spec_personalized_score(
                            candidates@[i],
                            self.service().assignments()[query.viewer_id],
                        ),
                    ) as i128,
                ),
            !self.service().assignments().contains_key(query.viewer_id) ==> forall|
                i: int,
                p: ClusterProfile,
            |
                0 <= i < candidates@.len() && p.is_default() ==> #[trigger] r->Ok_0@[i].weighted_score
                    == Some(spec_normalize(#[trigger] spec_personalized_score(candidates@[i], p)) as i128),
    {
        let cluster = self.clustering_service.get_user_cluster(query.viewer_id);
        Ok(Self::score_with_cluster(&cluster, candidates))
    }

    /// Copies the weighted score of a scored delta onto the candidate.
    pub fn update(&self, candidate: &mut PostCandidate, scored: PostCandidate)
        ensures
            *final(candidate) == (PostCandidate {
                weighted_score: scored.weighted_score,
                ..*old(candidate)
            }),
    {
        candidate.weighted_score = scored.weighted_score;
    }

    /// The personalized video-quality-view weight of a candidate.
    pub fn personalized_vqv_weight(candidate: &PostCandidate, cluster: &ClusterProfile) -> (r: i64)
        ensures
            r == spec_personalized_vqv(candidate.video_duration_ms, *cluster),
    {
        let eligible = match candidate.video_duration_ms {
            Some(ms) => ms > MIN_VIDEO_DURATION_MS,
            None => false,
        };
        if eligible {
            scale_weight(VQV_WEIGHT, 2 * (cluster.video_preference as u64))
        } else {
            0
        }
    }

    /// The weight vector of a candidate for a viewer in `cluster`.
    pub fn personalized_weights(candidate: &PostCandidate, cluster: &ClusterProfile) -> (r: ActionWeights)
        ensures
            r == spec_personalized_weights(candidate.video_duration_ms, *cluster),
    {
        let engagement = cluster.engagement_multiplier as u64;
        let share_factor: u64 = if cluster.engagement_multiplier > SHARE_BOOST_THRESHOLD {
            SHARE_BOOST
        } else {
            FACTOR_ONE
        };
        let negative_factor: u64 = FACTOR_ONE + 10 * (cluster.negative_feedback_rate as u64);
        ActionWeights {
            favorite: scale_weight(FAVORITE_WEIGHT, engagement),
            reply: scale_weight(REPLY_WEIGHT, engagement),
            retweet: scale_weight(RETWEET_WEIGHT, engagement),
            photo_expand: scale_weight(PHOTO_EXPAND_WEIGHT, cluster.image_preference as u64),
            click: CLICK_WEIGHT,
            profile_click: PROFILE_CLICK_WEIGHT,
            vqv: Self::personalized_vqv_weight(candidate, cluster),
            share: scale_weight(SHARE_WEIGHT, share_factor),
            share_via_dm: scale_weight(SHARE_VIA_DM_WEIGHT, share_factor),
            share_via_copy_link: scale_weight(SHARE_VIA_COPY_LINK_WEIGHT, share_factor),
            dwell: DWELL_WEIGHT,
            quote: QUOTE_WEIGHT,
            quoted_click: QUOTED_CLICK_WEIGHT,
            cont_dwell_time: CONT_DWELL_TIME_WEIGHT,
            follow_author: FOLLOW_AUTHOR_WEIGHT,
            not_interested: scale_weight(NOT_INTERESTED_WEIGHT, negative_factor),
            block_author: scale_weight(BLOCK_AUTHOR_WEIGHT, negative_factor),
            mute_author: scale_weight(MUTE_AUTHOR_WEIGHT, negative_factor),
            report: scale_weight(REPORT_WEIGHT, negative_factor),
        }
    }

    /// The personalized weighted score of a candidate, before clamping, in billionths.
    pub fn compute_personalized_score(candidate: &PostCandidate, cluster: &ClusterProfile) -> (r: i128)
        ensures
            r == spec_personalized_score(*candidate, *cluster),
    {
        let w = Self::personalized_weights(candidate, cluster);
        offset_score(dot(&candidate.phoenix_scores, &w))
    }

    /// One scored delta per candidate, in input order, each carrying the
    /// clamped personalized score for `cluster`.
    pub fn score_with_cluster(cluster: &ClusterProfile, candidates: &[PostCandidate]) -> (r: Vec<PostCandidate>)
        ensures
            r@.len() == candidates@.len(),
            forall|i: int|
                0 <= i < candidates@.len() ==> #[trigger] r@[i].weighted_score == Some(
                    spec_normalize(spec_personalized_score(candidates@[i], *cluster)) as i128,
                ),
    {
        let mut scored: Vec<PostCandidate> = Vec::new();
        let mut i: usize = 0;
        while i < candidates.len()
            invariant
                i <= candidates@.len(),
                scored@.len() == i,
                forall|j: int|
                    0 <= j < i ==> #[trigger] scored@[j].weighted_score == Some(
                        spec_normalize(spec_personalized_score(candidates@[j], *cluster)) as i128,
                    ),
            decreases candidates@.len() - i,
        {
            let c = &candidates[i];
            let weighted = Self::compute_personalized_score(c, cluster);
            let normalized: i128 = if weighted < 0 {
                0
            } else {
                weighted
            };
            let mut delta = PostCandidate::default();
            delta.weighted_score = Some(normalized);
            scored.push(delta);
            i = i + 1;
        }
        scored
    }
}

} // verus!
