//! Rule-based content-safety filters: adult content, engagement bait and spam.
use vstd::prelude::*;
use crate::candidate::PostCandidate;
use crate::proto::ScoredPostsQuery;
use crate::personalized_scorer::spec_scale;
use crate::text::{contains_text, has_substring, lower_of, same_text, to_lowercase};
use vstd::utf8::encode_utf8;

verus! {

/// The candidates a filter keeps and those it removes, each in input order.
pub struct FilterResult {
    pub kept: Vec<PostCandidate>,
    pub removed: Vec<PostCandidate>,
}

/// The candidates for which `keep` holds, in input order.
pub open spec fn kept_by(candidates: Seq<PostCandidate>, keep: spec_fn(PostCandidate) -> bool) -> Seq<PostCandidate>
    decreases candidates.len(),
{
    if candidates.len() == 0 {
        Seq::empty()
    } else {
        let rest = kept_by(candidates.drop_last(), keep);
        if keep(candidates.last()) {
            rest.push(candidates.last())
        } else {
            rest
        }
    }
}

/// The length of a text in bytes, as `str::len` reports it.
pub open spec fn byte_len(t: Seq<char>) -> int {
    (encode_utf8(t).len() as usize) as int
}

/// Some text of `patterns` occurs in `text`.
pub open spec fn has_any(text: Seq<char>, patterns: Seq<String>) -> bool {
    exists|k: int| 0 <= k < patterns.len() && has_substring(text, #[trigger] patterns[k]@)
}

/// Whether some pattern occurs in `text`.
fn contains_any(text: &str, patterns: &Vec<String>) -> (r: bool)
    ensures
        r == has_any(text@, patterns@),
{
    let mut k: usize = 0;
    while k < patterns.len()
        invariant
            k <= patterns@.len(),
            forall|t: int| 0 <= t < k ==> !has_substring(text@, #[trigger] patterns@[t]@),
        decreases patterns@.len() - k,
    {
        if contains_text(text, patterns[k].as_str()) {
            return true;
        }
        k = k + 1;
    }
    false
}

/// The lowercase text of a candidate contains one of the patterns.
pub open spec fn text_has_any(c: PostCandidate, patterns: Seq<String>) -> bool {
    match c.text {
        Some(t) => has_any(lower_of(t@), patterns),
        None => false,
    }
}

/// Whether the candidate's lowercase text contains one of the patterns.
fn text_contains_any(c: &PostCandidate, patterns: &Vec<String>) -> (r: bool)
    ensures
        r == text_has_any(*c, patterns@),
{
    match &c.text {
        Some(t) => {
            let lower = to_lowercase(t.as_str());
            contains_any(lower.as_str(), patterns)
        },
        None => false,
    }
}

/// Removes adult content unless the viewer opted in and strict mode is off.
pub struct NSFWContentFilter {
    strict_mode: bool,
    blocked_keywords: Vec<String>,
}

impl NSFWContentFilter {
    pub closed spec fn spec_strict_mode(&self) -> bool {
        self.strict_mode
    }

    pub closed spec fn spec_keywords(&self) -> Seq<String> {
        self.blocked_keywords@
    }

    /// A candidate is adult content when labelled so, when its author is
    /// rated adult, when its media is sensitive, or when its lowercase text
    /// holds a blocked keyword.
    pub open spec fn spec_is_nsfw(&self, c: PostCandidate) -> bool {
        ||| exists|i: int| 0 <= i < c.content_labels@.len() && (#[trigger] c.content_labels@[i])@ == "adult_content"@
        ||| (c.author_content_rating matches Some(rating) && rating@ == "adult"@)
        ||| c.has_sensitive_media == Some(true)
        ||| text_has_any(c, self.spec_keywords())
    }

    pub fn new(strict_mode: bool) -> (r: NSFWContentFilter)
        ensures
            r.spec_strict_mode() == strict_mode,
            r.spec_keywords().len() == 2,
            r.spec_keywords()[0]@ == "nsfw"@,
            r.spec_keywords()[1]@ == "18+"@,
    {
        NSFWContentFilter { strict_mode, blocked_keywords: Self::load_nsfw_keywords() }
    }

    fn load_nsfw_keywords() -> (r: Vec<String>)
        ensures
            r@.len() == 2,
            r@[0]@ == "nsfw"@,
            r@[1]@ == "18+"@,
    {
        let mut keywords: Vec<String> = Vec::new();
        keywords.push(String::from_str("nsfw"));
        keywords.push(String::from_str("18+"));
        keywords
    }

    /// Whether the candidate is adult content.
    pub fn is_nsfw_content(&self, candidate: &PostCandidate) -> (r: bool)
        ensures
            r == self.spec_is_nsfw(*candidate),
    {
        let mut i: usize = 0;
        while i < candidate.content_labels.len()
            invariant
                i <= candidate.content_labels@.len(),
                forall|j: int| 0 <= j < i ==> (#[trigger] candidate.content_labels@[j])@ != "adult_content"@,
            decreases candidate.content_labels@.len() - i,
        {
            if same_text(candidate.content_labels[i].as_str(), "adult_content") {
                return true;
            }
            i = i + 1;
        }
        match &candidate.author_content_rating {
            Some(rating) => {
                if same_text(rating.as_str(), "adult") {
                    return true;
                }
            },
            None => {},
        }
        if candidate.has_sensitive_media == Some(true) {
            return true;
        }
        text_contains_any(candidate, &self.blocked_keywords)
    }

    /// Whether the viewer asked to see sensitive media.
    pub fn user_allows_nsfw(&self, query: &ScoredPostsQuery) -> (r: bool)
        ensures
            r == (query.user_preferences matches Some(p) && p.show_sensitive_media == Some(true)),
    {
        match query.user_preferences {
            Some(p) => p.show_sensitive_media == Some(true),
            None => false,
        }
    }

    /// Whether the filter keeps `c` for this query: always when it is not
    /// adult content, otherwise only when the viewer opted in and strict mode
    /// is off.
    pub open spec fn spec_keeps(&self, query: ScoredPostsQuery, c: PostCandidate) -> bool {
        !self.spec_is_nsfw(c) || (query.user_preferences matches Some(p) && p.show_sensitive_media
            == Some(true) && !self.spec_strict_mode())
    }

    /// Keeps what is not adult content, and adult content only when the
    /// viewer opted in and strict mode is off.
    pub fn filter(&self, query: &ScoredPostsQuery, candidates: Vec<PostCandidate>) -> (r: Result<
        FilterResult,
        String,
    >)
        ensures
            r is Ok,
            r->Ok_0.kept@ == kept_by(candidates@, |c: PostCandidate| self.spec_keeps(*query, c)),
            r->Ok_0.removed@ == kept_by(candidates@, |c: PostCandidate| !self.spec_keeps(*query, c)),
    {
        let opted_in = self.user_allows_nsfw(query);
        let ghost keep = |c: PostCandidate| self.spec_keeps(*query, c);
        let ghost drop = |c: PostCandidate| !self.spec_keeps(*query, c);
        let ghost all = candidates@;
        let mut kept: Vec<PostCandidate> = Vec::new();
        let mut removed: Vec<PostCandidate> = Vec::new();
        for candidate in it: candidates
            invariant
                it.seq() == all,
                keep == (|c: PostCandidate| self.spec_keeps(*query, c)),
                drop == (|c: PostCandidate| !self.spec_keeps(*query, c)),
                opted_in == (query.user_preferences matches Some(p) && p.show_sensitive_media == Some(true)),
                kept@ == kept_by(all.subrange(0, it.index() as int), keep),
                removed@ == kept_by(all.subrange(0, it.index() as int), drop),
        {
            let ghost done = it.index() as int;
            let ghost upto = all.subrange(0, done + 1);
            proof {
                assert(upto.drop_last() == all.subrange(0, done));
                assert(upto.last() == candidate);
            }
            let nsfw = self.is_nsfw_content(&candidate);
            if !nsfw || (opted_in && !self.strict_mode) {
                assert(keep(candidate));
                kept.push(candidate);
            } else {
                assert(drop(candidate));
                removed.push(candidate);
            }
            assert(kept@ == kept_by(upto, keep));
            assert(removed@ == kept_by(upto, drop));
        }
        assert(all.subrange(0, all.len() as int) == all);
        Ok(FilterResult { kept, removed })
    }
}

/// What `char::is_uppercase` says of a character.
pub uninterp spec fn upper_char(c: char) -> bool;

/// Relies on `char::is_uppercase`: whether `c` has the Unicode Uppercase
/// property, which depends on the character alone.
#[verifier::external_body]
fn is_uppercase(c: char) -> (r: bool)
    ensures
        r == upper_char(c),
{
    c.is_uppercase()
}

/// A character in one of the emoji blocks the filter counts.
pub open spec fn spec_is_emoji(c: char) -> bool {
    let code = c as u32;
    (0x1F600 <= code <= 0x1F64F) || (0x1F300 <= code <= 0x1F5FF) || (0x1F680 <= code <= 0x1F6FF)
        || (0x2600 <= code <= 0x26FF)
}

/// Number of characters of `s` that satisfy `p`.
pub open spec fn count_chars(s: Seq<char>, p: spec_fn(char) -> bool) -> nat
    decreases s.len(),
{
    if s.len() == 0 {
        0
    } else {
        count_chars(s.drop_last(), p) + if p(s.last()) {
            1nat
        } else {
            0nat
        }
    }
}

/// Removes clickbait: bait phrases, emoji floods and shouting.
pub struct EngagementBaitFilter {
    bait_patterns: Vec<String>,
    /// Largest share of emoji, in percent of the text's bytes.
    max_emoji_density_percent: u64,
}

impl EngagementBaitFilter {
    pub closed spec fn spec_patterns(&self) -> Seq<String> {
        self.bait_patterns@
    }

    pub closed spec fn spec_max_emoji_percent(&self) -> u64 {
        self.max_emoji_density_percent
    }

    /// A text is bait when its lowercase form holds a bait phrase, when more
    /// than the allowed share of its bytes is taken by emoji, or when it is
    /// longer than 20 bytes and more than half of that is uppercase letters.
    pub open spec fn spec_is_bait(&self, c: PostCandidate) -> bool {
        match c.text {
            Some(t) => {
                ||| has_any(lower_of(t@), self.spec_patterns())
                ||| 100 * count_chars(t@, |ch: char| spec_is_emoji(ch)) > self.spec_max_emoji_percent()
                    * byte_len(t@)
                ||| (2 * count_chars(t@, |ch: char| upper_char(ch)) > byte_len(t@)
                    && byte_len(t@) > 20)
            },
            None => false,
        }
    }

    pub fn new() -> (r: EngagementBaitFilter)
        ensures
            r.spec_patterns().len() == 9,
            r.spec_max_emoji_percent() == 15,
    {
        let mut bait_patterns: Vec<String> = Vec::new();
        bait_patterns.push(String::from_str("you won't believe"));
        bait_patterns.push(String::from_str("this will shock you"));
        bait_patterns.push(String::from_str("number 7 will"));
        bait_patterns.push(String::from_str("doctors hate"));
        bait_patterns.push(String::from_str("like and retweet"));
        bait_patterns.push(String::from_str("like and rt"));
        bait_patterns.push(String::from_str("thread \u{1F9F5}"));
        bait_patterns.push(String::from_str("let that sink in"));
        bait_patterns.push(String::from_str("read that again"));
        EngagementBaitFilter { bait_patterns, max_emoji_density_percent: 15 }
    }

    /// Whether a character is in one of the counted emoji blocks.
    pub fn is_emoji(&self, c: char) -> (r: bool)
        ensures
            r == spec_is_emoji(c),
    {
        let code = c as u32;
        (code >= 0x1F600 && code <= 0x1F64F) || (code >= 0x1F300 && code <= 0x1F5FF) || (code
            >= 0x1F680 && code <= 0x1F6FF) || (code >= 0x2600 && code <= 0x26FF)
    }

    /// Whether the candidate is engagement bait.
    pub fn is_engagement_bait(&self, candidate: &PostCandidate) -> (r: bool)
        ensures
            r == self.spec_is_bait(*candidate),
    {
        match &candidate.text {
            Some(t) => {
                let lower = to_lowercase(t.as_str());
                if contains_any(lower.as_str(), &self.bait_patterns) {
                    return true;
                }
                let chars = crate::text::chars_of(t.as_str());
                let mut emoji: u64 = 0;
                let mut caps: u64 = 0;
                let mut i: usize = 0;
                while i < chars.len()
                    invariant
                        chars@ == t@,
                        i <= chars@.len(),
                        emoji == count_chars(chars@.subrange(0, i as int), |ch: char| spec_is_emoji(ch)),
                        caps == count_chars(chars@.subrange(0, i as int), |ch: char| upper_char(ch)),
                        emoji <= i,
                        caps <= i,
                    decreases chars@.len() - i,
                {
                    proof {
                        assert(chars@.subrange(0, i + 1).drop_last() == chars@.subrange(0, i as int));
                    }
                    if self.is_emoji(chars[i]) {
                        emoji = emoji + 1;
                    }
                    if is_uppercase(chars[i]) {
                        caps = caps + 1;
                    }
                    i = i + 1;
                }
                assert(chars@.subrange(0, chars@.len() as int) == chars@);
                let len = t.as_str().len() as u128;
                assert((self.max_emoji_density_percent as u128) * len <= 0xffff_ffff_ffff_ffff * 0xffff_ffff_ffff_ffff) by (nonlinear_arith)
                    requires
                        self.max_emoji_density_percent <= 0xffff_ffff_ffff_ffff,
                        len <= 0xffff_ffff_ffff_ffff,
                ;
                if 100 * (emoji as u128) > (self.max_emoji_density_percent as u128) * len {
                    return true;
                }
                2 * (caps as u128) > len && len > 20
            },
            None => false,
        }
    }
    /// Removes engagement bait and keeps the rest, each in input order.
    pub fn filter(&self, _query: &ScoredPostsQuery, candidates: Vec<PostCandidate>) -> (r: Result<
        FilterResult,
        String,
    >)
        ensures
            r is Ok,
            r->Ok_0.kept@ == kept_by(candidates@, |c: PostCandidate| !self.spec_is_bait(c)),
            r->Ok_0.removed@ == kept_by(candidates@, |c: PostCandidate| self.spec_is_bait(c)),
    {
        let ghost keep = |c: PostCandidate| !self.spec_is_bait(c);
        let ghost drop = |c: PostCandidate| self.spec_is_bait(c);
        let ghost all = candidates@;
        let mut kept: Vec<PostCandidate> = Vec::new();
        let mut removed: Vec<PostCandidate> = Vec::new();
        for candidate in it: candidates
            invariant
                it.seq() == all,
                keep == (|c: PostCandidate| !self.spec_is_bait(c)),
                drop == (|c: PostCandidate| self.spec_is_bait(c)),
                kept@ == kept_by(all.subrange(0, it.index() as int), keep),
                removed@ == kept_by(all.subrange(0, it.index() as int), drop),
        {
            let ghost done = it.index() as int;
            let ghost upto = all.subrange(0, done + 1);
            proof {
                assert(upto.drop_last() == all.subrange(0, done));
                assert(upto.last() == candidate);
            }
            if self.is_engagement_bait(&candidate) {
                removed.push(candidate);
            } else {
                kept.push(candidate);
            }
            assert(kept@ == kept_by(upto, keep));
            assert(removed@ == kept_by(upto, drop));
        }
        assert(all.subrange(0, all.len() as int) == all);
        Ok(FilterResult { kept, removed })
    }
}

/// Removes crypto scams, follow farms, hyperactive new accounts and
/// impersonators.
pub struct SpamBotFilter {
    spam_patterns: Vec<String>,
}

impl SpamBotFilter {
    pub closed spec fn spec_patterns(&self) -> Seq<String> {
        self.spam_patterns@
    }

    /// A candidate is spam when its lowercase text holds a spam phrase, when
    /// its author has fewer than 100 followers and follows more than ten
    /// times as many, when its author is younger than 30 days and posts more
    /// than 100 times a day, or when it impersonates a verified account.
    pub open spec fn spec_is_spam(&self, c: PostCandidate) -> bool {
        ||| text_has_any(c, self.spec_patterns())
        ||| (c.author_follower_count matches Some(followers) && c.author_following_count matches Some(
            following,
        ) && following > 10 * followers && followers < 100)
        ||| (c.author_account_age_days matches Some(age) && c.author_tweet_count matches Some(tweets)
            && age < 30 && tweets > 100 * age)
        ||| c.is_verified_impersonation == Some(true)
    }

    pub fn new() -> (r: SpamBotFilter)
        ensures
            r.spec_patterns().len() == 8,
            r.spec_patterns()[0]@ == "send me"@,
    {
        let mut spam_patterns: Vec<String> = Vec::new();
        spam_patterns.push(String::from_str("send me"));
        spam_patterns.push(String::from_str("claim your"));
        spam_patterns.push(String::from_str("free bitcoin"));
        spam_patterns.push(String::from_str("double your crypto"));
        spam_patterns.push(String::from_str("limited time offer"));
        spam_patterns.push(String::from_str("click here now"));
        spam_patterns.push(String::from_str("exclusive offer"));
        spam_patterns.push(String::from_str("act now"));
        SpamBotFilter { spam_patterns }
    }

    /// Whether the candidate is spam.
    pub fn is_spam(&self, candidate: &PostCandidate) -> (r: bool)
        ensures
            r == self.spec_is_spam(*candidate),
    {
        if text_contains_any(candidate, &self.spam_patterns) {
            return true;
        }
        match (candidate.author_follower_count, candidate.author_following_count) {
            (Some(followers), Some(following)) => {
                if (following as u128) > 10 * (followers as u128) && followers < 100 {
                    return true;
                }
            },
            _ => {},
        }
        match (candidate.author_account_age_days, candidate.author_tweet_count) {
            (Some(age), Some(tweets)) => {
                if age < 30 && (tweets as u128) > 100 * (age as u128) {
                    return true;
                }
            },
            _ => {},
        }
        candidate.is_verified_impersonation == Some(true)
    }
    /// Removes spam and keeps the rest, each in input order.
    pub fn filter(&self, _query: &ScoredPostsQuery, candidates: Vec<PostCandidate>) -> (r: Result<
        FilterResult,
        String,
    >)
        ensures
            r is Ok,
            r->Ok_0.kept@ == kept_by(candidates@, |c: PostCandidate| !self.spec_is_spam(c)),
            r->Ok_0.removed@ == kept_by(candidates@, |c: PostCandidate| self.spec_is_spam(c)),
    {
        let ghost keep = |c: PostCandidate| !self.spec_is_spam(c);
        let ghost drop = |c: PostCandidate| self.spec_is_spam(c);
        let ghost all = candidates@;
        let mut kept: Vec<PostCandidate> = Vec::new();
        let mut removed: Vec<PostCandidate> = Vec::new();
        for candidate in it: candidates
            invariant
                it.seq() == all,
                keep == (|c: PostCandidate| !self.spec_is_spam(c)),
                drop == (|c: PostCandidate| self.spec_is_spam(c)),
                kept@ == kept_by(all.subrange(0, it.index() as int), keep),
                removed@ == kept_by(all.subrange(0, it.index() as int), drop),
        {
            let ghost done = it.index() as int;
            let ghost upto = all.subrange(0, done + 1);
            proof {
                assert(upto.drop_last() == all.subrange(0, done));
                assert(upto.last() == candidate);
            }
            if self.is_spam(&candidate) {
                removed.push(candidate);
            } else {
                kept.push(candidate);
            }
            assert(kept@ == kept_by(upto, keep));
            assert(removed@ == kept_by(upto, drop));
        }
        assert(all.subrange(0, all.len() as int) == all);
        Ok(FilterResult { kept, removed })
    }
}

/// Number of `topics` that `interests` holds.
pub open spec fn overlap(topics: Seq<u64>, interests: Seq<u64>) -> nat
    decreases topics.len(),
{
    if topics.len() == 0 {
        0
    } else {
        overlap(topics.drop_last(), interests) + if interests.contains(topics.last()) {
            1nat
        } else {
            0nat
        }
    }
}

/// `v` held within the range of `i128`.
pub open spec fn clamp_i128(v: int) -> i128 {
    if v > i128::MAX {
        i128::MAX
    } else if v < i128::MIN {
        i128::MIN
    } else {
        v as i128
    }
}

/// A score multiplied by a boost in millionths, rounded toward zero and held
/// within the range of `i128`.
pub open spec fn spec_boosted(score: i128, boost: u32) -> i128 {
    clamp_i128(spec_scale(score as int, boost as int))
}

/// `m * b / 1_000_000` for a magnitude `m`, or `None` when it exceeds `u128`.
fn scaled_magnitude(m: u128, b: u32) -> (r: Option<u128>)
    ensures
        r matches Some(v) ==> v == m * b / 1_000_000,
        r is None ==> m * b / 1_000_000 > u128::MAX,
{
    let q = m / 1_000_000;
    let rem = m % 1_000_000;
    proof {
        vstd::arithmetic::div_mod::lemma_fundamental_div_mod(m as int, 1_000_000);
        assert(m * b == (q * b) * 1_000_000 + rem * b) by (nonlinear_arith)
            requires
                m == 1_000_000 * q + rem,
        ;
        vstd::arithmetic::div_mod::lemma_fundamental_div_mod_converse(
            m * b,
            1_000_000,
            q * b + rem * b / 1_000_000,
            (rem * b) % 1_000_000,
        );
        assert(0 <= rem * b <= 1_000_000 * 0xffff_ffff) by (nonlinear_arith)
            requires
                0 <= rem < 1_000_000,
                0 <= b <= 0xffff_ffff,
        ;
    }
    match q.checked_mul(b as u128) {
        Some(high) => high.checked_add(rem * (b as u128) / 1_000_000),
        None => None,
    }
}

/// Multiplies a score by a boost in millionths, rounding toward zero and
/// holding the result within the range of `i128`.
pub fn boosted(score: i128, boost: u32) -> (r: i128)
    ensures
        r == spec_boosted(score, boost),
{
    if score >= 0 {
        match scaled_magnitude(score as u128, boost) {
            Some(v) => if v > i128::MAX as u128 {
                i128::MAX
            } else {
                v as i128
            },
            None => i128::MAX,
        }
    } else {
        let m: u128 = ((-(score + 1)) as u128) + 1;
        match scaled_magnitude(m, boost) {
            Some(v) => if v > (i128::MAX as u128) + 1 {
                i128::MIN
            } else if v == (i128::MAX as u128) + 1 {
                i128::MIN
            } else {
                -(v as i128)
            },
            None => i128::MIN,
        }
    }
}

/// Boosts content from outside the viewer's usual topics.
pub struct DiversityBoostScorer {
    diversity_boost: u32,
}

impl DiversityBoostScorer {
    /// The boost, in millionths.
    pub closed spec fn spec_boost(&self) -> u32 {
        self.diversity_boost
    }

    /// A post is outside the viewer's bubble when both topic lists are known,
    /// the post has topics, and fewer than 30% of them are among the viewer's.
    pub open spec fn spec_is_outside_bubble(&self, c: PostCandidate, q: ScoredPostsQuery) -> bool {
        match (q.user_interest_topics, c.topics) {
            (Some(interests), Some(topics)) => topics@.len() > 0 && 10 * overlap(topics@, interests@) < 3
                * topics@.len(),
            _ => false,
        }
    }

    /// A scorer with `diversity_boost` millionths of boost.
    pub fn new(diversity_boost: u32) -> (r: DiversityBoostScorer)
        ensures
            r.spec_boost() == diversity_boost,
    {
        DiversityBoostScorer { diversity_boost }
    }

    /// Whether the post lies outside the viewer's usual topics.
    pub fn is_outside_bubble(&self, candidate: &PostCandidate, query: &ScoredPostsQuery) -> (r: bool)
        ensures
            r == self.spec_is_outside_bubble(*candidate, *query),
    {
        match (&query.user_interest_topics, &candidate.topics) {
            (Some(interests), Some(topics)) => {
                let mut shared: usize = 0;
                let mut i: usize = 0;
                while i < topics.len()
                    invariant
                        i <= topics@.len(),
                        shared == overlap(topics@.subrange(0, i as int), interests@),
                        shared <= i,
                    decreases topics@.len() - i,
                {
                    proof {
                        assert(topics@.subrange(0, i + 1).drop_last() == topics@.subrange(0, i as int));
                    }
                    if crate::content_filters::contains_topic(interests, topics[i]) {
                        shared = shared + 1;
                    }
                    i = i + 1;
                }
                assert(topics@.subrange(0, topics@.len() as int) == topics@);
                topics.len() > 0 && 10 * (shared as u128) < 3 * (topics.len() as u128)
            },
            _ => false,
        }
    }

    /// One delta per candidate, in input order, carrying the boost for posts
    /// outside the viewer's bubble and a neutral factor for the others.
    pub fn score(&self, query: &ScoredPostsQuery, candidates: &[PostCandidate]) -> (r: Result<
        Vec<PostCandidate>,
        String,
    >)
        ensures
            r is Ok,
            r->Ok_0@.len() == candidates@.len(),
            forall|i: int|
                0 <= i < candidates@.len() ==> #[trigger] r->Ok_0@[i].diversity_boost == Some(
                    if self.spec_is_outside_bubble(candidates@[i], *query) {
                        self.spec_boost()
                    } else {
                        1_000_000u32
                    },
                ),
    {
        let mut scored: Vec<PostCandidate> = Vec::new();
        let mut i: usize = 0;
        while i < candidates.len()
            invariant
                i <= candidates@.len(),
                scored@.len() == i,
                forall|j: int|
                    0 <= j < i ==> #[trigger] scored@[j].diversity_boost == Some(
                        if self.spec_is_outside_bubble(candidates@[j], *query) {
                            self.spec_boost()
                        } else {
                            1_000_000u32
                        },
                    ),
            decreases candidates@.len() - i,
        {
            let boost = if self.is_outside_bubble(&candidates[i], query) {
                self.diversity_boost
            } else {
                1_000_000
            };
            let mut delta = PostCandidate::default();
            delta.diversity_boost = Some(boost);
            scored.push(delta);
            i = i + 1;
        }
        Ok(scored)
    }

    /// Applies a delta's boost to the candidate's weighted score, when both
    /// are present.
    pub fn update(&self, candidate: &mut PostCandidate, scored: PostCandidate)
        ensures
            *final(candidate) == (match (scored.diversity_boost, old(candidate).weighted_score) {
                (Some(boost), Some(current)) => PostCandidate {
                    weighted_score: Some(spec_boosted(current, boost)),
                    ..*old(candidate)
                },
                _ => *old(candidate),
            }),
    {
        match (scored.diversity_boost, candidate.weighted_score) {
            (Some(boost), Some(current)) => {
                candidate.weighted_score = Some(boosted(current, boost));
            },
            _ => {},
        }
    }
}

/// Whether `topics` holds `t`.
pub fn contains_topic(topics: &Vec<u64>, t: u64) -> (r: bool)
    ensures
        r == topics@.contains(t),
{
    let mut i: usize = 0;
    while i < topics.len()
        invariant
            i <= topics@.len(),
            forall|j: int| 0 <= j < i ==> topics@[j] != t,
        decreases topics@.len() - i,
    {
        if topics[i] == t {
            assert(topics@[i as int] == t);
            return true;
        }
        i = i + 1;
    }
    false
}

} // verus!
