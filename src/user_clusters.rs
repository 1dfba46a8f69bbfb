//! Viewer clusters that personalize the scoring weights.
use vstd::prelude::*;
use std::collections::HashMap;
use crate::params::PROB_ONE;
use vstd::std_specs::iter::IteratorSpec;

verus! {

broadcast use vstd::std_specs::hash::group_hash_axioms;

/// Broad content categories.
#[derive(Clone, Copy, Debug, PartialEq, Eq, Hash, Structural)]
pub enum ContentType {
    News,
    Entertainment,
    Sports,
    Technology,
    Politics,
    Gaming,
    Fashion,
    Food,
    Travel,
    Education,
    Other,
}

/// A personalization unit. Every fractional quantity is held in millionths.
#[derive(Debug)]
pub struct ClusterProfile {
    pub cluster_id: usize,
    pub preferred_content_types: Vec<ContentType>,
    /// Preference for video, in [0, 1].
    pub video_preference: u32,
    /// Preference for images, in [0, 1].
    pub image_preference: u32,
    /// Preference for text, in [0, 1].
    pub text_preference: u32,
    /// Post age this cluster engages with most, in millionths of an hour.
    pub optimal_post_age_hours: u32,
    /// Wish for variety, in [0, 1].
    pub diversity_preference: u32,
    /// Overall engagement tendency, above zero.
    pub engagement_multiplier: u32,
    /// Hours of the day (0 to 23) when the cluster is most active.
    pub peak_activity_hours: Vec<u8>,
    /// Average session length, in millionths of a minute.
    pub avg_session_duration_min: u32,
    /// Sensitivity to negative feedback, in [0, 1].
    pub negative_feedback_rate: u32,
}

impl ClusterProfile {
    /// Ratios lie in [0, 1] and the engagement multiplier is positive.
    pub open spec fn wf(&self) -> bool {
        &&& self.video_preference <= PROB_ONE
        &&& self.image_preference <= PROB_ONE
        &&& self.text_preference <= PROB_ONE
        &&& self.diversity_preference <= PROB_ONE
        &&& self.negative_feedback_rate <= PROB_ONE
        &&& self.engagement_multiplier > 0
    }

    /// The profile of unknown viewers: cluster 0, neutral preferences and
    /// engagement, activity from 9:00 to 20:00.
    pub open spec fn is_default(&self) -> bool {
        &&& self.cluster_id == 0
        &&& self.preferred_content_types@ == seq![ContentType::Other]
        &&& self.video_preference == 500_000
        &&& self.image_preference == 500_000
        &&& self.text_preference == 500_000
        &&& self.optimal_post_age_hours == 24_000_000
        &&& self.diversity_preference == 500_000
        &&& self.engagement_multiplier == 1_000_000
        &&& self.peak_activity_hours@ == seq![9u8, 10, 11, 12, 13, 14, 15, 16, 17, 18, 19, 20]
        &&& self.avg_session_duration_min == 2_000_000
        &&& self.negative_feedback_rate == 20_000
    }

    /// The same profile: equal numbers and equal lists.
    pub open spec fn same_as(&self, o: ClusterProfile) -> bool {
        &&& self.cluster_id == o.cluster_id
        &&& self.preferred_content_types@ == o.preferred_content_types@
        &&& self.video_preference == o.video_preference
        &&& self.image_preference == o.image_preference
        &&& self.text_preference == o.text_preference
        &&& self.optimal_post_age_hours == o.optimal_post_age_hours
        &&& self.diversity_preference == o.diversity_preference
        &&& self.engagement_multiplier == o.engagement_multiplier
        &&& self.peak_activity_hours@ == o.peak_activity_hours@
        &&& self.avg_session_duration_min == o.avg_session_duration_min
        &&& self.negative_feedback_rate == o.negative_feedback_rate
    }

    /// A copy of this profile.
    pub fn duplicate(&self) -> (r: ClusterProfile)
        ensures
            r.same_as(*self),
    {
        let types = self.preferred_content_types.clone();
        let hours = self.peak_activity_hours.clone();
        assert(types@ == self.preferred_content_types@);
        assert(hours@ == self.peak_activity_hours@);
        ClusterProfile {
            cluster_id: self.cluster_id,
            preferred_content_types: types,
            video_preference: self.video_preference,
            image_preference: self.image_preference,
            text_preference: self.text_preference,
            optimal_post_age_hours: self.optimal_post_age_hours,
            diversity_preference: self.diversity_preference,
            engagement_multiplier: self.engagement_multiplier,
            peak_activity_hours: hours,
            avg_session_duration_min: self.avg_session_duration_min,
            negative_feedback_rate: self.negative_feedback_rate,
        }
    }
}

impl Default for ClusterProfile {
    fn default() -> (r: ClusterProfile)
        ensures
            r.is_default(),
            r.wf(),
    {
        let mut types: Vec<ContentType> = Vec::new();
        types.push(ContentType::Other);
        let mut hours: Vec<u8> = Vec::new();
        let mut h: u8 = 9;
        while h <= 20
            invariant
                9 <= h <= 21,
                hours@.len() == h - 9,
                forall|i: int| 0 <= i < hours@.len() ==> hours@[i] == 9 + i,
            decreases 21 - h,
        {
            hours.push(h);
            h = h + 1;
        }
        let r = ClusterProfile {
            cluster_id: 0,
            preferred_content_types: types,
            video_preference: 500_000,
            image_preference: 500_000,
            text_preference: 500_000,
            optimal_post_age_hours: 24_000_000,
            diversity_preference: 500_000,
            engagement_multiplier: 1_000_000,
            peak_activity_hours: hours,
            avg_session_duration_min: 2_000_000,
            negative_feedback_rate: 20_000,
        };
        assert(r.peak_activity_hours@ =~= seq![9u8, 10, 11, 12, 13, 14, 15, 16, 17, 18, 19, 20]);
        assert(r.preferred_content_types@ =~= seq![ContentType::Other]);
        r
    }
}

/// Behavioural features of one viewer, each fractional quantity in millionths.
#[derive(Debug)]
pub struct UserFeatures {
    pub user_id: u64,
    pub preferred_content_types: Vec<ContentType>,
    pub video_engagement_rate: u32,
    pub image_engagement_rate: u32,
    pub text_engagement_rate: u32,
    pub avg_post_age_hours: u32,
    pub diversity_score: u32,
    pub overall_engagement_rate: u32,
    pub peak_hours: Vec<u8>,
    pub avg_session_duration_min: u32,
    pub negative_feedback_rate: u32,
}

/// Cluster statistics for monitoring.
#[derive(Debug, Clone)]
pub struct ClusterStats {
    pub total_users: usize,
    pub cluster_sizes: Vec<usize>,
    pub num_clusters: usize,
}

/// The cluster a viewer falls in: the identifier bucketed by the cluster count.
pub open spec fn spec_cluster_of(user_id: u64, num_clusters: usize) -> usize {
    (user_id % (num_clusters as u64)) as usize
}

/// The profile built from a viewer's features in the given cluster.
pub open spec fn spec_profile_of(f: UserFeatures, cluster_id: usize) -> ClusterProfile {
    ClusterProfile {
        cluster_id,
        preferred_content_types: f.preferred_content_types,
        video_preference: f.video_engagement_rate,
        image_preference: f.image_engagement_rate,
        text_preference: f.text_engagement_rate,
        optimal_post_age_hours: f.avg_post_age_hours,
        diversity_preference: f.diversity_score,
        engagement_multiplier: f.overall_engagement_rate,
        peak_activity_hours: f.peak_hours,
        avg_session_duration_min: f.avg_session_duration_min,
        negative_feedback_rate: f.negative_feedback_rate,
    }
}

/// The viewer map a refresh builds from a batch of features: each viewer is
/// mapped to the profile of its last feature record.
pub open spec fn spec_refreshed(fs: Seq<UserFeatures>, num_clusters: usize) -> Map<u64, ClusterProfile>
    decreases fs.len(),
{
    if fs.len() == 0 {
        Map::empty()
    } else {
        let f = fs.last();
        spec_refreshed(fs.drop_last(), num_clusters).insert(
            f.user_id,
            spec_profile_of(f, spec_cluster_of(f.user_id, num_clusters)),
        )
    }
}

/// Number of `users` whose profile in `m` is in cluster `c`.
pub open spec fn count_in_cluster(users: Seq<u64>, m: Map<u64, ClusterProfile>, c: int) -> nat
    decreases users.len(),
{
    if users.len() == 0 {
        0
    } else {
        count_in_cluster(users.drop_last(), m, c) + if m[users.last()].cluster_id == c {
            1nat
        } else {
            0nat
        }
    }
}

/// A sequence as long as a set, holding exactly its elements, holds each
/// element once.
proof fn lemma_enumeration(users: Seq<u64>, dom: Set<u64>)
    requires
        users.len() == dom.len(),
        forall|i: int| 0 <= i < users.len() ==> dom.contains(#[trigger] users[i]),
        forall|u: u64| dom.contains(u) ==> users.contains(u),
    ensures
        users.no_duplicates(),
        users.to_set() == dom,
{
    assert(users.to_set() =~= dom);
    assert forall|a: int, b: int| 0 <= a < users.len() && 0 <= b < users.len() && a != b implies users[a]
        != users[b] by {
        if users[a] == users[b] {
            let hi = if a < b { b } else { a };
            let lo = if a < b { a } else { b };
            let rest = users.remove(hi);
            assert(rest.to_set() =~= users.to_set()) by {
                assert forall|u: u64| users.to_set().contains(u) implies rest.to_set().contains(u) by {
                    let j = choose|j: int| 0 <= j < users.len() && users[j] == u;
                    if j == hi {
                        assert(rest[lo] == u);
                    } else if j < hi {
                        assert(rest[j] == u);
                    } else {
                        assert(rest[j - 1] == u);
                    }
                }
            }
            rest.lemma_cardinality_of_set();
        }
    }
}

/// Maps viewers to cluster profiles.
pub struct UserClusteringService {
    clusters: HashMap<u64, ClusterProfile>,
    cluster_centroids: Vec<ClusterProfile>,
    num_clusters: usize,
}

impl UserClusteringService {
    /// The viewer-to-profile map.
    pub closed spec fn assignments(&self) -> Map<u64, ClusterProfile> {
        self.clusters@
    }

    /// The number of clusters.
    pub closed spec fn spec_num_clusters(&self) -> usize {
        self.num_clusters
    }

    /// The cluster count is positive.
    pub open spec fn wf(&self) -> bool {
        self.spec_num_clusters() > 0
    }

    /// The profile `get_user_cluster` returns for a viewer.
    pub open spec fn spec_profile(&self, user_id: u64) -> Option<ClusterProfile> {
        if self.assignments().contains_key(user_id) {
            Some(self.assignments()[user_id])
        } else {
            None
        }
    }

    /// An empty service with `num_clusters` clusters; a zero count is a
    /// configuration error.
    pub fn new(num_clusters: usize) -> (r: UserClusteringService)
        requires
            num_clusters > 0,
        ensures
            r.wf(),
            r.assignments() == Map::<u64, ClusterProfile>::empty(),
            r.spec_num_clusters() == num_clusters,
    {
        UserClusteringService {
            clusters: HashMap::new(),
            cluster_centroids: Vec::new(),
            num_clusters,
        }
    }

    /// The viewer's assigned profile, or the default profile for an unknown
    /// viewer. Never fails.
    pub fn get_user_cluster(&self, user_id: u64) -> (r: ClusterProfile)
        ensures
            self.assignments().contains_key(user_id) ==> r.same_as(self.assignments()[user_id]),
            !self.assignments().contains_key(user_id) ==> r.is_default(),
    {
        match self.clusters.get(&user_id) {
            Some(p) => p.duplicate(),
            None => self.default_cluster(),
        }
    }

    /// Sets or overwrites one viewer's profile.
    pub fn assign_user_cluster(&mut self, user_id: u64, profile: ClusterProfile)
        ensures
            final(self).assignments() == old(self).assignments().insert(user_id, profile),
            final(self).spec_num_clusters() == old(self).spec_num_clusters(),
    {
        self.clusters.insert(user_id, profile);
    }

    /// The profile of unknown viewers.
    pub fn default_cluster(&self) -> (r: ClusterProfile)
        ensures
            r.is_default(),
            r.wf(),
    {
        ClusterProfile::default()
    }

    /// The cluster of a viewer: its identifier bucketed by the cluster count.
    fn find_nearest_cluster(&self, features: &UserFeatures) -> (r: usize)
        requires
            self.wf(),
        ensures
            r == spec_cluster_of(features.user_id, self.spec_num_clusters()),
            r < self.spec_num_clusters(),
    {
        (features.user_id % (self.num_clusters as u64)) as usize
    }

    fn features_to_profile(&self, features: UserFeatures, cluster_id: usize) -> (r: ClusterProfile)
        ensures
            r == spec_profile_of(features, cluster_id),
    {
        ClusterProfile {
            cluster_id,
            preferred_content_types: features.preferred_content_types,
            video_preference: features.video_engagement_rate,
            image_preference: features.image_engagement_rate,
            text_preference: features.text_engagement_rate,
            optimal_post_age_hours: features.avg_post_age_hours,
            diversity_preference: features.diversity_score,
            engagement_multiplier: features.overall_engagement_rate,
            peak_activity_hours: features.peak_hours,
            avg_session_duration_min: features.avg_session_duration_min,
            negative_feedback_rate: features.negative_feedback_rate,
        }
    }

    /// Recomputes every assignment from a batch of features and replaces the
    /// whole viewer map at once.
    pub fn refresh_clusters(&mut self, user_features: Vec<UserFeatures>)
        requires
            old(self).wf(),
        ensures
            final(self).wf(),
            final(self).assignments() == spec_refreshed(
                user_features@,
                old(self).spec_num_clusters(),
            ),
            final(self).spec_num_clusters() == old(self).spec_num_clusters(),
    {
        let ghost fs = user_features@;
        let ghost n = self.num_clusters;
        let mut new_clusters: HashMap<u64, ClusterProfile> = HashMap::new();
        for feature in it: user_features
            invariant
                self.wf(),
                self.num_clusters == n,
                it.seq() == fs,
                new_clusters@ == spec_refreshed(fs.subrange(0, it.index() as int), n),
        {
            let ghost done = it.index() as int;
            assert(feature == fs[done]);
            let cluster_id = self.find_nearest_cluster(&feature);
            let user_id = feature.user_id;
            let profile = self.features_to_profile(feature, cluster_id);
            new_clusters.insert(user_id, profile);
            assert(fs.subrange(0, done + 1).drop_last() == fs.subrange(0, done));
        }
        assert(fs.subrange(0, fs.len() as int) == fs);
        self.clusters = new_clusters;
    }

    /// Users assigned so far and, per cluster, how many assigned viewers are
    /// in it, counted over an enumeration of the viewers without repeats;
    /// profiles whose cluster is out of range are counted nowhere.
    pub fn cluster_stats(&self) -> (r: ClusterStats)
        requires
            self.wf(),
        ensures
            r.total_users == self.assignments().len(),
            r.num_clusters == self.spec_num_clusters(),
            r.cluster_sizes@.len() == self.spec_num_clusters(),
            exists|users: Seq<u64>|
                #![trigger users.to_set()]
                users.no_duplicates() && users.to_set() == self.assignments().dom() && forall|c: int|
                    0 <= c < self.spec_num_clusters() ==> #[trigger] r.cluster_sizes@[c]
                        == count_in_cluster(users, self.assignments(), c),
    {
        let n = self.num_clusters;
        let total = self.clusters.len();
        let ghost m = self.clusters@;
        let mut sizes: Vec<usize> = Vec::new();
        while sizes.len() < n
            invariant
                sizes@.len() <= n,
                forall|c: int| 0 <= c < sizes@.len() ==> sizes@[c] == 0,
            decreases n - sizes@.len(),
        {
            sizes.push(0);
        }
        assert(Seq::<u64>::empty().subrange(0, 0) =~= Seq::<u64>::empty());
        let ghost mut users: Seq<u64> = Seq::empty();
        let ghost pairs = vstd::std_specs::hash::spec_hash_map_iter(&self.clusters).remaining();
        for pair in it: self.clusters.iter()
            invariant
                m == self.clusters@,
                it.seq() == pairs,
                total == m.len(),
                it.seq().len() == total,
                forall|k: u64| #[trigger] m.contains_key(k) ==> it.seq().contains((&k, &m[k])),
                forall|i: int|
                    0 <= i < it.seq().len() ==> #[trigger] m.contains_key(*it.seq()[i].0) && m[*it.seq()[i].0]
                        == *it.seq()[i].1,
                sizes@.len() == n,
                users.len() == it.index(),
                forall|i: int| 0 <= i < it.index() ==> #[trigger] users[i] == *it.seq()[i].0,
                forall|c: int| 0 <= c < n ==> #[trigger] sizes@[c] == count_in_cluster(users, m, c),
                forall|c: int| 0 <= c < n ==> #[trigger] sizes@[c] <= it.index(),
        {
            let ghost i = it.index() as int;
            let ghost before = users;
            let (uid, profile) = pair;
            proof {
                assert(*uid == *it.seq()[i].0);
                assert(m[*uid] == *profile);
                users = users.push(*uid);
                assert(users.drop_last() == before);
            }
            if profile.cluster_id < n {
                let id = profile.cluster_id;
                sizes.set(id, sizes[id] + 1);
            }
        }
        proof {
            assert forall|u: u64| m.dom().contains(u) implies users.contains(u) by {
                assert(m.contains_key(u));
                assert(pairs.contains((&u, &m[u])));
                let i = choose|i: int| 0 <= i < pairs.len() && pairs[i] == (&u, &m[u]);
                assert(users[i] == u);
            }
            lemma_enumeration(users, m.dom());
        }
        ClusterStats { total_users: total, cluster_sizes: sizes, num_clusters: n }
    }
}

} // verus!
