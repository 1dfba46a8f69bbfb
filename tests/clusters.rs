use home_mixer::user_clusters::{ClusterProfile, ContentType, UserClusteringService, UserFeatures};

fn features(user_id: u64, video: u32) -> UserFeatures {
    UserFeatures {
        user_id,
        preferred_content_types: vec![ContentType::Sports],
        video_engagement_rate: video,
        image_engagement_rate: 200_000,
        text_engagement_rate: 300_000,
        avg_post_age_hours: 12_000_000,
        diversity_score: 400_000,
        overall_engagement_rate: 1_500_000,
        peak_hours: vec![7, 8],
        avg_session_duration_min: 3_000_000,
        negative_feedback_rate: 10_000,
    }
}

#[test]
fn test_cluster_assignment() {
    let mut service = UserClusteringService::new(10);
    let mut profile = ClusterProfile::default();
    profile.cluster_id = 3;
    profile.video_preference = 800_000;
    service.assign_user_cluster(12345, profile);
    let retrieved = service.get_user_cluster(12345);
    assert_eq!(retrieved.cluster_id, 3);
    assert_eq!(retrieved.video_preference, 800_000);
}

#[test]
fn test_unknown_user_gets_default() {
    let service = UserClusteringService::new(10);
    let profile = service.get_user_cluster(99999);
    assert_eq!(profile.cluster_id, 0);
    assert_eq!(profile.engagement_multiplier, 1_000_000);
    assert_eq!(profile.video_preference, 500_000);
    assert_eq!(profile.image_preference, 500_000);
    assert_eq!(profile.text_preference, 500_000);
}

#[test]
fn test_cluster_profile_default() {
    let profile = ClusterProfile::default();
    assert_eq!(profile.engagement_multiplier, 1_000_000);
    assert_eq!(profile.diversity_preference, 500_000);
    assert_eq!(profile.preferred_content_types, vec![ContentType::Other]);
    assert_eq!(profile.peak_activity_hours, vec![9, 10, 11, 12, 13, 14, 15, 16, 17, 18, 19, 20]);
    assert_eq!(profile.negative_feedback_rate, 20_000);
}

#[test]
fn refresh_replaces_the_whole_map() {
    let mut service = UserClusteringService::new(4);
    service.assign_user_cluster(1, ClusterProfile::default());
    service.refresh_clusters(vec![features(10, 900_000), features(7, 100_000), features(10, 600_000)]);
    assert_eq!(service.get_user_cluster(1).engagement_multiplier, 1_000_000);
    assert_eq!(service.get_user_cluster(1).cluster_id, 0);
    let ten = service.get_user_cluster(10);
    assert_eq!(ten.cluster_id, 2);
    assert_eq!(ten.video_preference, 600_000);
    assert_eq!(ten.peak_activity_hours, vec![7, 8]);
    let seven = service.get_user_cluster(7);
    assert_eq!(seven.cluster_id, 3);
    assert_eq!(seven.engagement_multiplier, 1_500_000);
    assert_eq!(service.default_cluster().cluster_id, 0);
}

#[test]
fn cluster_statistics_count_assigned_profiles() {
    let mut service = UserClusteringService::new(4);
    service.refresh_clusters(vec![features(1, 0), features(5, 0), features(2, 0)]);
    let mut odd = ClusterProfile::default();
    odd.cluster_id = 9;
    service.assign_user_cluster(3, odd);
    let stats = service.cluster_stats();
    assert_eq!(stats.total_users, 4);
    assert_eq!(stats.num_clusters, 4);
    assert_eq!(stats.cluster_sizes, vec![0, 2, 1, 0]);
}
