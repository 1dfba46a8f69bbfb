use home_mixer::batch_scorer::BatchScorer;
use home_mixer::candidate::{PhoenixScores, PostCandidate};
use home_mixer::params::{MIN_VIDEO_DURATION_MS, NEGATIVE_SCORES_OFFSET, SCORE_ONE, VQV_WEIGHT};
use home_mixer::personalized_scorer::PersonalizedWeightedScorer;
use home_mixer::proto::ScoredPostsQuery;
use home_mixer::score_api::{calculate_score, ScoreRequest, ScoreTier};
use home_mixer::user_clusters::{ClusterProfile, UserClusteringService};
use home_mixer::weighted_scorer::{normalize_score, offset_score, WeightedScorer};

fn with_scores(favorite: u32, reply: u32) -> PostCandidate {
    let mut candidate = PostCandidate::default();
    candidate.phoenix_scores.favorite_score = Some(favorite);
    candidate.phoenix_scores.reply_score = Some(reply);
    candidate
}

#[test]
fn test_weighted_score_computation() {
    let candidate = with_scores(800_000, 600_000);
    let score = WeightedScorer::compute_weighted_score(&candidate);
    assert!(score > 0);
}

#[test]
fn test_vqv_weight_eligibility() {
    let mut candidate = PostCandidate::default();
    assert_eq!(WeightedScorer::vqv_weight_eligibility(&candidate), 0);
    candidate.video_duration_ms = Some(1000);
    assert_eq!(WeightedScorer::vqv_weight_eligibility(&candidate), 0);
    candidate.video_duration_ms = Some(MIN_VIDEO_DURATION_MS + 1000);
    assert_eq!(WeightedScorer::vqv_weight_eligibility(&candidate), VQV_WEIGHT);
}

#[test]
fn weighted_score_of_the_worked_example_is_seventeen() {
    let candidate = with_scores(800_000, 600_000);
    assert_eq!(WeightedScorer::compute_weighted_score(&candidate), 17 * SCORE_ONE);
    let scorer = WeightedScorer;
    let query = ScoredPostsQuery::new(123);
    let scored = scorer.score(&query, &[candidate]).unwrap();
    assert_eq!(scored.len(), 1);
    assert_eq!(scored[0].weighted_score, Some(17 * SCORE_ONE));
}

#[test]
fn all_zero_predictions_score_the_offset() {
    let candidate = PostCandidate::default();
    assert_eq!(WeightedScorer::compute_weighted_score(&candidate), NEGATIVE_SCORES_OFFSET);
    let mut zeros = PostCandidate::default();
    zeros.phoenix_scores = PhoenixScores::default();
    zeros.phoenix_scores.report_score = Some(0);
    zeros.phoenix_scores.favorite_score = Some(0);
    assert_eq!(WeightedScorer::compute_weighted_score(&zeros), 0);
}

#[test]
fn video_gate_ignores_view_probability_without_video() {
    let mut candidate = PostCandidate::default();
    candidate.phoenix_scores.vqv_score = Some(1_000_000);
    assert_eq!(WeightedScorer::compute_weighted_score(&candidate), 0);
    candidate.video_duration_ms = Some(MIN_VIDEO_DURATION_MS);
    assert_eq!(WeightedScorer::compute_weighted_score(&candidate), 0);
    candidate.video_duration_ms = Some(MIN_VIDEO_DURATION_MS + 1);
    assert_eq!(WeightedScorer::compute_weighted_score(&candidate), 3 * SCORE_ONE / 10);
}

#[test]
fn negative_scores_are_rescaled_by_the_weight_sums() {
    let mut candidate = PostCandidate::default();
    candidate.phoenix_scores.report_score = Some(1_000_000);
    // raw = -369, rescaled to (-369 + 643) / 57.45, rounded down in billionths
    let expected: i128 = (274 * SCORE_ONE * 1000) / 57450;
    assert_eq!(WeightedScorer::compute_weighted_score(&candidate), expected);
    assert_eq!(offset_score(-643 * SCORE_ONE - 1), -1);
    assert_eq!(offset_score(-643 * SCORE_ONE - 57450), -1000);
}

#[test]
fn normalize_clamps_at_zero() {
    let candidate = PostCandidate::default();
    assert_eq!(normalize_score(&candidate, -5), 0);
    assert_eq!(normalize_score(&candidate, 7), 7);
}

#[test]
fn update_copies_only_the_weighted_score() {
    let scorer = WeightedScorer;
    let mut candidate = with_scores(1, 2);
    candidate.tweet_id = 9;
    let mut delta = PostCandidate::default();
    delta.weighted_score = Some(42);
    scorer.update(&mut candidate, delta);
    assert_eq!(candidate.weighted_score, Some(42));
    assert_eq!(candidate.tweet_id, 9);
    assert_eq!(candidate.phoenix_scores.reply_score, Some(2));
}

#[test]
fn test_personalized_vqv_weight() {
    let mut video_lover_cluster = ClusterProfile::default();
    video_lover_cluster.video_preference = 900_000;
    let mut video_hater_cluster = ClusterProfile::default();
    video_hater_cluster.video_preference = 100_000;
    let mut candidate = PostCandidate::default();
    candidate.video_duration_ms = Some(MIN_VIDEO_DURATION_MS + 1000);
    let weight_lover = PersonalizedWeightedScorer::personalized_vqv_weight(&candidate, &video_lover_cluster);
    let weight_hater = PersonalizedWeightedScorer::personalized_vqv_weight(&candidate, &video_hater_cluster);
    assert!(weight_lover > weight_hater * 5);
    assert_eq!(weight_lover, 540);
}

#[test]
fn test_personalized_scoring() {
    let mut service = UserClusteringService::new(10);
    let mut high_engagement = ClusterProfile::default();
    high_engagement.engagement_multiplier = 2_000_000;
    service.assign_user_cluster(123, high_engagement);
    let scorer = PersonalizedWeightedScorer::new(service);
    let query = ScoredPostsQuery::new(123);
    let mut candidate = PostCandidate::default();
    candidate.phoenix_scores.favorite_score = Some(800_000);
    let scored = scorer.score(&query, &[candidate]).unwrap();
    assert!(scored[0].weighted_score.unwrap() > 0);
    assert_eq!(scored[0].weighted_score, Some(16 * SCORE_ONE / 10));
}

#[test]
fn personalized_default_profile_for_unknown_viewer() {
    let scorer = PersonalizedWeightedScorer::new(UserClusteringService::new(4));
    let query = ScoredPostsQuery::new(77);
    let candidate = with_scores(800_000, 600_000);
    let scored = scorer.score(&query, &[candidate]).unwrap();
    assert_eq!(scored[0].weighted_score, Some(17 * SCORE_ONE));
}

#[test]
fn personalized_negative_weights_grow_with_sensitivity() {
    let mut cluster = ClusterProfile::default();
    cluster.negative_feedback_rate = 100_000;
    let mut candidate = PostCandidate::default();
    candidate.phoenix_scores.block_author_score = Some(1_000_000);
    let weights = PersonalizedWeightedScorer::personalized_weights(&candidate, &cluster);
    assert_eq!(weights.block_author, -300_000);
    cluster.engagement_multiplier = 1_300_000;
    let weights = PersonalizedWeightedScorer::personalized_weights(&candidate, &cluster);
    assert_eq!(weights.share_via_dm, 3000);
    assert_eq!(weights.reply, 35_100);
}

#[test]
fn test_batch_scoring() {
    let scorer = BatchScorer::new();
    let num_candidates = 100;
    let probabilities: Vec<u32> = (0..num_candidates * 16).map(|i| ((i % 100) as u32) * 10_000).collect();
    let result = scorer.score_batch(&probabilities, num_candidates);
    assert_eq!(result.scores.len(), num_candidates);
    assert!(result.scores.iter().all(|&s| s >= 0));
}

#[test]
fn batch_score_of_one_candidate_is_its_weighted_sum() {
    let scorer = BatchScorer::new();
    let mut probabilities = vec![0u32; 16];
    probabilities[1] = 500_000;
    probabilities[15] = 1_000_000;
    let result = scorer.score_batch(&probabilities, 1);
    assert_eq!(result.scores, vec![175 * SCORE_ONE / 10]);
    assert_eq!(scorer.positive_weights_sum(), 57_450);
}

#[test]
fn test_diversity_penalty() {
    let scorer = BatchScorer::new();
    let base_score = 100 * SCORE_ONE;
    assert_eq!(scorer.apply_diversity_penalty(base_score, 1), 100 * SCORE_ONE);
    assert_eq!(scorer.apply_diversity_penalty(base_score, 2), 80 * SCORE_ONE);
    assert_eq!(scorer.apply_diversity_penalty(base_score, 3), 64 * SCORE_ONE);
}

#[test]
fn diversity_penalty_edge_ranks_and_signs() {
    let scorer = BatchScorer::new();
    assert_eq!(scorer.apply_diversity_penalty(1000, 0), 1000);
    assert_eq!(scorer.apply_diversity_penalty(-100 * SCORE_ONE, 2), -80 * SCORE_ONE);
    assert_eq!(scorer.apply_diversity_penalty(7, 2), 5);
    assert_eq!(scorer.apply_diversity_penalty(-7, 2), -5);
    assert!(scorer.apply_diversity_penalty(i128::MIN, 2) < 0);
}

#[test]
fn score_endpoint_applies_link_penalty_and_tiers() {
    let request = ScoreRequest {
        reply_prob: 1_000_000,
        like_prob: 1_000_000,
        repost_prob: 0,
        profile_click_prob: 250_000,
        bookmark_prob: 0,
        video_view_prob: 0,
        has_link: false,
    };
    let response = calculate_score(&request);
    assert_eq!(response.score, 31 * SCORE_ONE);
    assert_eq!(response.tier, ScoreTier::ViralPotential);
    assert_eq!(response.tier.as_str(), "VIRAL_POTENTIAL");
    assert_eq!(response.breakdown.link_penalty, None);
    let linked = calculate_score(&ScoreRequest { has_link: true, ..request });
    assert_eq!(linked.breakdown.link_penalty, Some(279 * SCORE_ONE / 10));
    assert_eq!(linked.score, 31 * SCORE_ONE / 10);
    assert_eq!(linked.tier, ScoreTier::Low);
    assert_eq!(linked.tier.as_str(), "LOW");
}

#[test]
fn test_weighted_scorer_optimization() {
    let mut candidate = PostCandidate::default();
    candidate.phoenix_scores.favorite_score = Some(800_000);
    candidate.phoenix_scores.reply_score = Some(600_000);
    candidate.phoenix_scores.retweet_score = Some(700_000);
    let start = std::time::Instant::now();
    for _ in 0..10000 {
        let _score = WeightedScorer::compute_weighted_score(&candidate);
    }
    let elapsed = start.elapsed();
    assert!(elapsed.as_millis() < 10, "Optimized scoring should be very fast");
}
