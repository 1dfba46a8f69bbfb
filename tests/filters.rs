use home_mixer::candidate::PostCandidate;
use home_mixer::content_filters::{boosted, DiversityBoostScorer, EngagementBaitFilter, NSFWContentFilter, SpamBotFilter};
use home_mixer::proto::{ScoredPostsQuery, UserPreferences};

fn with_text(text: &str) -> PostCandidate {
    let mut candidate = PostCandidate::default();
    candidate.text = Some(text.to_string());
    candidate
}

#[test]
fn test_nsfw_detection() {
    let filter = NSFWContentFilter::new(true);
    let mut candidate = PostCandidate::default();
    candidate.has_sensitive_media = Some(true);
    assert!(filter.is_nsfw_content(&candidate));
}

#[test]
fn nsfw_signals_each_count() {
    let filter = NSFWContentFilter::new(false);
    let mut labelled = PostCandidate::default();
    labelled.content_labels = vec!["sports".to_string(), "adult_content".to_string()];
    assert!(filter.is_nsfw_content(&labelled));
    let mut rated = PostCandidate::default();
    rated.author_content_rating = Some("adult".to_string());
    assert!(filter.is_nsfw_content(&rated));
    rated.author_content_rating = Some("adults".to_string());
    assert!(!filter.is_nsfw_content(&rated));
    assert!(filter.is_nsfw_content(&with_text("Totally NSFW stuff")));
    assert!(filter.is_nsfw_content(&with_text("only 18+")));
    assert!(!filter.is_nsfw_content(&with_text("a cat picture")));
    assert!(!filter.is_nsfw_content(&PostCandidate::default()));
}

#[test]
fn nsfw_filter_respects_opt_in_and_strict_mode() {
    let mut query = ScoredPostsQuery::new(1);
    query.user_preferences = Some(UserPreferences { show_sensitive_media: Some(true) });
    let relaxed = NSFWContentFilter::new(false);
    let strict = NSFWContentFilter::new(true);
    let posts = || vec![with_text("nsfw"), with_text("hello"), with_text("18+ only")];
    let kept = relaxed.filter(&query, posts()).unwrap();
    assert_eq!(kept.kept.len(), 3);
    assert_eq!(kept.removed.len(), 0);
    let result = strict.filter(&query, posts()).unwrap();
    assert_eq!(result.kept.len(), 1);
    assert_eq!(result.kept[0].text.as_deref(), Some("hello"));
    assert_eq!(result.removed.len(), 2);
    let anonymous = ScoredPostsQuery::new(2);
    assert!(!relaxed.user_allows_nsfw(&anonymous));
    assert_eq!(relaxed.filter(&anonymous, posts()).unwrap().removed.len(), 2);
}

#[test]
fn test_engagement_bait_detection() {
    let filter = EngagementBaitFilter::new();
    let candidate = with_text("You won't believe what happened next!");
    assert!(filter.is_engagement_bait(&candidate));
}

#[test]
fn bait_by_emoji_density_and_shouting() {
    let filter = EngagementBaitFilter::new();
    assert!(filter.is_emoji('\u{1F600}'));
    assert!(!filter.is_emoji('a'));
    assert!(filter.is_engagement_bait(&with_text("\u{1F600}\u{1F600}")));
    assert!(filter.is_engagement_bait(&with_text("THIS IS ABSOLUTELY HUGE NEWS")));
    assert!(!filter.is_engagement_bait(&with_text("SHORT CAPS")));
    assert!(!filter.is_engagement_bait(&with_text("a calm and ordinary sentence")));
    let result = filter.filter(&ScoredPostsQuery::new(1), vec![with_text("doctors hate him"), with_text("fine")]).unwrap();
    assert_eq!(result.kept.len(), 1);
    assert_eq!(result.removed.len(), 1);
}

#[test]
fn test_spam_detection() {
    let filter = SpamBotFilter::new();
    let mut candidate = with_text("Send me Bitcoin and I'll double it!");
    candidate.author_follower_count = Some(10);
    candidate.author_following_count = Some(5000);
    assert!(filter.is_spam(&candidate));
}

#[test]
fn spam_signals_each_count() {
    let filter = SpamBotFilter::new();
    let mut farm = PostCandidate::default();
    farm.author_follower_count = Some(10);
    farm.author_following_count = Some(101);
    assert!(filter.is_spam(&farm));
    farm.author_following_count = Some(100);
    assert!(!filter.is_spam(&farm));
    let mut fresh = PostCandidate::default();
    fresh.author_account_age_days = Some(2);
    fresh.author_tweet_count = Some(201);
    assert!(filter.is_spam(&fresh));
    fresh.author_tweet_count = Some(200);
    assert!(!filter.is_spam(&fresh));
    fresh.author_account_age_days = Some(0);
    fresh.author_tweet_count = Some(1);
    assert!(filter.is_spam(&fresh));
    let mut fake = PostCandidate::default();
    fake.is_verified_impersonation = Some(true);
    assert!(filter.is_spam(&fake));
    let result = filter.filter(&ScoredPostsQuery::new(1), vec![fake, with_text("hello")]).unwrap();
    assert_eq!(result.kept.len(), 1);
    assert_eq!(result.removed.len(), 1);
}

#[test]
fn diversity_boost_for_posts_outside_the_bubble() {
    let scorer = DiversityBoostScorer::new(1_300_000);
    let mut query = ScoredPostsQuery::new(1);
    query.user_interest_topics = Some(vec![1, 2, 3]);
    let mut outside = PostCandidate::default();
    outside.topics = Some(vec![1, 7, 8, 9]);
    let mut inside = PostCandidate::default();
    inside.topics = Some(vec![1, 2, 9]);
    let mut untagged = PostCandidate::default();
    untagged.topics = Some(vec![]);
    assert!(scorer.is_outside_bubble(&outside, &query));
    assert!(!scorer.is_outside_bubble(&inside, &query));
    assert!(!scorer.is_outside_bubble(&untagged, &query));
    let deltas = scorer.score(&query, &[outside.clone(), inside, untagged]).unwrap();
    assert_eq!(deltas[0].diversity_boost, Some(1_300_000));
    assert_eq!(deltas[1].diversity_boost, Some(1_000_000));
    let mut target = outside;
    target.weighted_score = Some(10_000_000_000);
    scorer.update(&mut target, deltas[0].clone());
    assert_eq!(target.weighted_score, Some(13_000_000_000));
    assert_eq!(boosted(-7, 1_500_000), -10);
    assert_eq!(boosted(i128::MAX, 2_000_000), i128::MAX);
    assert_eq!(boosted(i128::MIN, 2_000_000), i128::MIN);
    assert_eq!(boosted(i128::MIN, 1_000_000), i128::MIN);
}
