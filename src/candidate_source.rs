//! In-network post candidates: posts of accounts the viewer follows.
use vstd::prelude::*;

verus! {

/// Snapshot of engagement metrics at retrieval time.
#[derive(Clone, Copy, Debug, PartialEq, Eq, Structural)]
pub struct EngagementSnapshot {
    pub likes: u32,
    pub replies: u32,
    pub reposts: u32,
    pub bookmarks: u32,
    pub views: u64,
}

impl Default for EngagementSnapshot {
    fn default() -> (r: EngagementSnapshot)
        ensures
            r == (EngagementSnapshot { likes: 0, replies: 0, reposts: 0, bookmarks: 0, views: 0 }),
    {
        EngagementSnapshot { likes: 0, replies: 0, reposts: 0, bookmarks: 0, views: 0 }
    }
}

/// An in-network post candidate.
#[derive(Clone, Debug)]
pub struct ThunderCandidate {
    pub post_id: i64,
    pub author_id: i64,
    pub author_handle: String,
    pub content: String,
    /// Creation time, in Unix seconds.
    pub created_at: u64,
    pub has_media: bool,
    pub is_reply: bool,
    pub reply_to_id: Option<i64>,
    pub has_link: bool,
    pub engagement: EngagementSnapshot,
}

/// The age of a post at `now`, zero for a post from the future.
pub open spec fn spec_age_seconds(created_at: u64, now: u64) -> u64 {
    if now >= created_at {
        (now - created_at) as u64
    } else {
        0
    }
}

impl ThunderCandidate {
    /// The same post: equal fields and equal texts.
    pub open spec fn same_as(&self, o: ThunderCandidate) -> bool {
        &&& self.post_id == o.post_id
        &&& self.author_id == o.author_id
        &&& self.author_handle@ == o.author_handle@
        &&& self.content@ == o.content@
        &&& self.created_at == o.created_at
        &&& self.has_media == o.has_media
        &&& self.is_reply == o.is_reply
        &&& self.reply_to_id == o.reply_to_id
        &&& self.has_link == o.has_link
        &&& self.engagement == o.engagement
    }

    /// Whether the post is younger than `max_age_seconds` at `now`.
    pub open spec fn spec_is_fresh(&self, now: u64, max_age_seconds: u64) -> bool {
        spec_age_seconds(self.created_at, now) < max_age_seconds
    }

    /// A plain post: no media, reply or link, and no engagement yet.
    pub fn new(post_id: i64, author_id: i64, content: String, created_at: u64) -> (r: ThunderCandidate)
        ensures
            r.post_id == post_id,
            r.author_id == author_id,
            r.author_handle@.len() == 0,
            r.content == content,
            r.created_at == created_at,
            !r.has_media,
            !r.is_reply,
            r.reply_to_id is None,
            !r.has_link,
            r.engagement == (EngagementSnapshot { likes: 0, replies: 0, reposts: 0, bookmarks: 0, views: 0 }),
    {
        ThunderCandidate {
            post_id,
            author_id,
            author_handle: String::new(),
            content,
            created_at,
            has_media: false,
            is_reply: false,
            reply_to_id: None,
            has_link: false,
            engagement: EngagementSnapshot::default(),
        }
    }

    /// A copy of this post.
    pub fn duplicate(&self) -> (r: ThunderCandidate)
        ensures
            r.same_as(*self),
    {
        ThunderCandidate {
            post_id: self.post_id,
            author_id: self.author_id,
            author_handle: self.author_handle.clone(),
            content: self.content.clone(),
            created_at: self.created_at,
            has_media: self.has_media,
            is_reply: self.is_reply,
            reply_to_id: self.reply_to_id,
            has_link: self.has_link,
            engagement: self.engagement,
        }
    }

    /// Age in seconds at `now`; zero for a post from the future.
    pub fn age_seconds(&self, now: u64) -> (r: u64)
        ensures
            r == spec_age_seconds(self.created_at, now),
    {
        now.saturating_sub(self.created_at)
    }

    /// Whether the post is younger than `max_age_seconds` at `now`.
    pub fn is_fresh(&self, now: u64, max_age_seconds: u64) -> (r: bool)
        ensures
            r == self.spec_is_fresh(now, max_age_seconds),
    {
        self.age_seconds(now) < max_age_seconds
    }
}

/// Whether `ids` holds `x`.
pub fn contains_id(ids: &[i64], x: i64) -> (r: bool)
    ensures
        r == ids@.contains(x),
{
    let mut i: usize = 0;
    while i < ids.len()
        invariant
            i <= ids@.len(),
            forall|j: int| 0 <= j < i ==> ids@[j] != x,
        decreases ids@.len() - i,
    {
        if ids[i] == x {
            assert(ids@[i as int] == x);
            return true;
        }
        i = i + 1;
    }
    false
}

/// The posts whose author is followed, in order.
pub open spec fn spec_by_followed(posts: Seq<ThunderCandidate>, following_ids: Seq<i64>) -> Seq<ThunderCandidate>
    decreases posts.len(),
{
    if posts.len() == 0 {
        Seq::empty()
    } else {
        let rest = spec_by_followed(posts.drop_last(), following_ids);
        if following_ids.contains(posts.last().author_id) {
            rest.push(posts.last())
        } else {
            rest
        }
    }
}

/// The first `limit` elements of `s`, or all of them.
pub open spec fn spec_take<T>(s: Seq<T>, limit: usize) -> Seq<T> {
    if s.len() <= limit {
        s
    } else {
        s.subrange(0, limit as int)
    }
}

/// `r` is `s` element for element, up to copying.
pub open spec fn same_posts(r: Seq<ThunderCandidate>, s: Seq<ThunderCandidate>) -> bool {
    r.len() == s.len() && forall|i: int| 0 <= i < r.len() ==> (#[trigger] r[i]).same_as(s[i])
}

/// A source of in-network candidates.
pub trait CandidateSource {
    /// At most `limit` posts of the accounts in `following_ids`.
    fn fetch_candidates(&self, user_id: i64, following_ids: &[i64], limit: usize) -> (r: Vec<
        ThunderCandidate,
    >)
        ensures
            r@.len() <= limit,
    ;
}

/// A candidate source that keeps its posts in memory, in insertion order.
pub struct InMemoryCandidateSource {
    posts: Vec<ThunderCandidate>,
}

impl InMemoryCandidateSource {
    /// The stored posts, in insertion order.
    pub closed spec fn spec_posts(&self) -> Seq<ThunderCandidate> {
        self.posts@
    }

    pub fn new() -> (r: InMemoryCandidateSource)
        ensures
            r.spec_posts().len() == 0,
    {
        InMemoryCandidateSource { posts: Vec::new() }
    }

    pub fn add_post(&mut self, post: ThunderCandidate)
        ensures
            final(self).spec_posts() == old(self).spec_posts().push(post),
    {
        self.posts.push(post);
    }

    /// The first `limit` stored posts whose author is followed, in insertion order.
    pub fn fetch_followed(&self, following_ids: &[i64], limit: usize) -> (r: Vec<ThunderCandidate>)
        ensures
            same_posts(r@, spec_take(spec_by_followed(self.spec_posts(), following_ids@), limit)),
    {
        let mut out: Vec<ThunderCandidate> = Vec::new();
        let mut i: usize = 0;
        while i < self.posts.len()
            invariant
                i <= self.posts@.len(),
                same_posts(
                    out@,
                    spec_take(spec_by_followed(self.posts@.subrange(0, i as int), following_ids@), limit),
                ),
            decreases self.posts@.len() - i,
        {
            proof {
                assert(self.posts@.subrange(0, i + 1).drop_last() == self.posts@.subrange(0, i as int));
            }
            if out.len() < limit && contains_id(following_ids, self.posts[i].author_id) {
                out.push(self.posts[i].duplicate());
            }
            i = i + 1;
        }
        assert(self.posts@.subrange(0, self.posts@.len() as int) == self.posts@);
        out
    }
}

impl CandidateSource for InMemoryCandidateSource {
    fn fetch_candidates(&self, _user_id: i64, following_ids: &[i64], limit: usize) -> (r: Vec<
        ThunderCandidate,
    >) {
        self.fetch_followed(following_ids, limit)
    }
}

} // verus!
