//! Request, response and prediction types exchanged with the serving layer.
use vstd::prelude::*;

verus! {

/// How a post came to be served.
#[derive(Clone, Copy, Debug, PartialEq, Eq, Structural)]
pub enum ServedType {
    Unknown,
    InNetwork,
    OutOfNetwork,
    Promoted,
}

/// One entry of the viewer's impression bloom filter.
#[derive(Clone, Debug)]
pub struct ImpressionBloomFilterEntry {
    pub filter_data: Vec<u8>,
    pub num_bits: i32,
    pub num_hashes: i32,
}

/// Why a post was hidden.
#[derive(Clone, Copy, Debug, PartialEq, Eq, Structural)]
pub enum FilteredReason {
    Unfiltered,
    Blocked,
    Muted,
    Nsfw,
    Spam,
    LowQuality,
    Hidden,
}

/// Visibility decision attached to a served post.
#[derive(Clone, Copy, Debug, PartialEq, Eq, Structural)]
pub struct VisibilityReason {
    pub filtered_reason: Option<FilteredReason>,
}

/// Content preferences the viewer has set.
#[derive(Clone, Copy, Debug, PartialEq, Eq, Structural)]
pub struct UserPreferences {
    pub show_sensitive_media: Option<bool>,
}

/// Per-request viewer context.
///
/// `user_preferences` and `user_interest_topics` are attached by query
/// hydrators before scoring begins.
#[derive(Clone, Debug)]
pub struct ScoredPostsQuery {
    pub viewer_id: u64,
    pub client_app_id: i64,
    pub country_code: String,
    pub language_code: String,
    pub seen_ids: Vec<i64>,
    pub served_ids: Vec<i64>,
    pub in_network_only: bool,
    pub is_bottom_request: bool,
    pub bloom_filter_entries: Vec<ImpressionBloomFilterEntry>,
    pub user_preferences: Option<UserPreferences>,
    pub user_interest_topics: Option<Vec<u64>>,
}

impl ScoredPostsQuery {
    /// A query for `viewer_id` with every other field empty.
    pub fn new(viewer_id: u64) -> (r: ScoredPostsQuery)
        ensures
            r.viewer_id == viewer_id,
            r.seen_ids@.len() == 0,
            r.served_ids@.len() == 0,
            !r.in_network_only,
            r.user_preferences is None,
            r.user_interest_topics is None,
    {
        ScoredPostsQuery {
            viewer_id,
            client_app_id: 0,
            country_code: String::new(),
            language_code: String::new(),
            seen_ids: Vec::new(),
            served_ids: Vec::new(),
            in_network_only: false,
            is_bottom_request: false,
            bloom_filter_entries: Vec::new(),
            user_preferences: None,
            user_interest_topics: None,
        }
    }
}

/// Visibility action.
#[derive(Clone, Copy, Debug, PartialEq, Eq, Structural)]
pub enum Action {
    Allow,
    Drop,
    Interstitial,
    LocalizedInterstitial,
    SoftIntervention,
}

/// Engagement actions the prediction service scores, in its output order.
#[derive(Clone, Copy, Debug, PartialEq, Eq, Structural)]
pub enum ActionName {
    ServerTweetFav,
    ServerTweetReply,
    ServerTweetRetweet,
    ClientTweetPhotoExpand,
    ClientTweetClick,
    ClientTweetClickProfile,
    ClientTweetVideoQualityView,
    ClientTweetShare,
    ClientTweetClickSendViaDirectMessage,
    ClientTweetShareViaCopyLink,
    ClientTweetRecapDwelled,
    ServerTweetQuote,
    ClientQuotedTweetClick,
    ClientTweetFollowAuthor,
    ClientTweetNotInterestedIn,
    ClientTweetBlockAuthor,
    ClientTweetMuteAuthor,
    ClientTweetReport,
}

/// Continuous actions the prediction service scores.
#[derive(Clone, Copy, Debug, PartialEq, Eq, Structural)]
pub enum ContinuousActionName {
    DwellTime,
}

/// The viewer's recent actions.
#[derive(Clone, Debug)]
pub struct UserActionSequence {
    pub actions: Vec<UserAction>,
}

/// One recent action of the viewer.
#[derive(Clone, Copy, Debug, PartialEq, Eq, Structural)]
pub struct UserAction {
    pub action_type: i32,
    pub tweet_id: u64,
    pub timestamp_ms: u64,
}

/// A post handed to the prediction service.
#[derive(Clone, Copy, Debug, PartialEq, Eq, Structural)]
pub struct TweetInfo {
    pub tweet_id: u64,
    pub author_id: u64,
}

/// Viewer context carried by a request.
#[derive(Clone, Debug)]
pub struct TwitterContextViewer {
    pub user_id: i64,
    pub client_application_id: i64,
    pub request_country_code: String,
    pub request_language_code: String,
}

/// A request that may carry a viewer context.
pub trait GetTwitterContextViewer {
    fn get_viewer(&self) -> Option<TwitterContextViewer>;
}

} // verus!
