//! Batch scoring over flat probability arrays, author-diversity decay and
//! top-K selection.
use vstd::prelude::*;
use vstd::arithmetic::power::pow;
use crate::params::{
    AUTHOR_DIVERSITY_DECAY, BOOKMARK_WEIGHT, CLICK_WEIGHT, CONT_DWELL_TIME_WEIGHT, DWELL_WEIGHT,
    FAVORITE_WEIGHT, FOLLOW_AUTHOR_WEIGHT, PHOTO_EXPAND_WEIGHT, PROFILE_CLICK_WEIGHT,
    QUOTED_CLICK_WEIGHT, QUOTE_WEIGHT, REPLY_WEIGHT, RETWEET_WEIGHT, SHARE_VIA_COPY_LINK_WEIGHT,
    SHARE_VIA_DM_WEIGHT, SHARE_WEIGHT, VQV_WEIGHT, WEIGHTS_SUM,
};
use crate::time::unix_time_micros;

verus! {

/// Number of probabilities per candidate in a flat batch.
pub const ACTIONS_PER_CANDIDATE: usize = 16;

/// Scores of one batch, in billionths, with the time the batch took.
#[derive(Debug, Clone)]
pub struct BatchScoreResult {
    pub scores: Vec<i128>,
    pub processing_time_us: u64,
}

/// The batch weight vector: the positive weights, bookmark last, in thousandths.
pub open spec fn batch_weights() -> Seq<i64> {
    seq![
        FAVORITE_WEIGHT,
        REPLY_WEIGHT,
        RETWEET_WEIGHT,
        PHOTO_EXPAND_WEIGHT,
        CLICK_WEIGHT,
        PROFILE_CLICK_WEIGHT,
        VQV_WEIGHT,
        SHARE_WEIGHT,
        SHARE_VIA_DM_WEIGHT,
        SHARE_VIA_COPY_LINK_WEIGHT,
        DWELL_WEIGHT,
        QUOTE_WEIGHT,
        QUOTED_CLICK_WEIGHT,
        CONT_DWELL_TIME_WEIGHT,
        FOLLOW_AUTHOR_WEIGHT,
        BOOKMARK_WEIGHT,
    ]
}

/// Sum of the first `k` products of the probabilities starting at `base`
/// with the weights `w`.
pub open spec fn spec_partial_score(probs: Seq<u32>, base: int, w: Seq<i64>, k: int) -> int
    decreases k,
{
    if k <= 0 {
        0
    } else {
        spec_partial_score(probs, base, w, k - 1) + probs[base + k - 1] * w[k - 1]
    }
}

/// The score of the candidate whose probabilities start at `base`.
pub open spec fn spec_candidate_score(probs: Seq<u32>, base: int) -> int {
    spec_partial_score(probs, base, batch_weights(), ACTIONS_PER_CANDIDATE as int)
}

/// One decay step: the score times the decay factor, rounded toward zero.
pub open spec fn spec_decay_step(s: int) -> int {
    if s >= 0 {
        s * AUTHOR_DIVERSITY_DECAY / 1000
    } else {
        -((-s) * AUTHOR_DIVERSITY_DECAY / 1000)
    }
}

/// The score after `steps` decay steps.
pub open spec fn spec_decayed(s: int, steps: nat) -> int
    decreases steps,
{
    if steps == 0 {
        s
    } else {
        spec_decay_step(spec_decayed(s, (steps - 1) as nat))
    }
}

/// The score of an author's `author_post_count`-th post: decayed once for
/// every earlier post of the same author.
pub open spec fn spec_diversity_penalty(s: int, author_post_count: u32) -> int {
    if author_post_count <= 1 {
        s
    } else {
        spec_decayed(s, (author_post_count - 1) as nat)
    }
}

/// The post at rank `n` of one author keeps `decay^(n-1)` of its score: for a
/// score that is a multiple of `5^(n-1)`, exactly `s / 5^(n-1) * 4^(n-1)`
/// (the decay is 0.8). The first post keeps its score.
pub proof fn lemma_diversity_decay_power(s: int, n: u32)
    requires
        n >= 1,
        s % pow(5, (n - 1) as nat) == 0,
    ensures
        spec_diversity_penalty(s, n) == s / pow(5, (n - 1) as nat) * pow(4, (n - 1) as nat),
        n == 1 ==> spec_diversity_penalty(s, n) == s,
{
    lemma_decayed_power(s, (n - 1) as nat);
}

/// The post at rank `n` of one author keeps `decay^(n-1)` of its score, up
/// to rounding: for a non-negative score `s` the result `d` satisfies
/// `d * 5^(n-1) <= s * 4^(n-1) < (d + 5) * 5^(n-1)`, so it is `s * 0.8^(n-1)`
/// rounded down and less than 5 billionths below it. A negative score decays
/// as the negation of its magnitude.
pub proof fn lemma_diversity_decay_bounds(s: int, n: u32)
    requires
        n >= 1,
    ensures
        s >= 0 ==> spec_diversity_penalty(s, n) * pow(5, (n - 1) as nat) <= s * pow(4, (n - 1) as nat),
        s >= 0 ==> s * pow(4, (n - 1) as nat) < (spec_diversity_penalty(s, n) + 5) * pow(5, (n - 1) as nat),
        s < 0 ==> spec_diversity_penalty(s, n) == -spec_diversity_penalty(-s, n),
        n == 1 ==> spec_diversity_penalty(s, n) == s,
{
    lemma_decayed_bounds(if s >= 0 { s } else { -s }, (n - 1) as nat);
    lemma_decayed_odd(s, (n - 1) as nat);
}

/// Decaying the negation of a score gives the negation of its decay.
proof fn lemma_decayed_odd(s: int, k: nat)
    ensures
        spec_decayed(-s, k) == -spec_decayed(s, k),
    decreases k,
{
    if k > 0 {
        lemma_decayed_odd(s, (k - 1) as nat);
    }
}

/// Each decay step rounds `4/5` of the score down, losing less than one unit.
proof fn lemma_decayed_bounds(s: int, k: nat)
    requires
        s >= 0,
    ensures
        spec_decayed(s, k) >= 0,
        spec_decayed(s, k) * pow(5, k) <= s * pow(4, k),
        s * pow(4, k) < (spec_decayed(s, k) + 5) * pow(5, k),
    decreases k,
{
    if k == 0 {
        vstd::arithmetic::power::lemma_pow0(5);
        vstd::arithmetic::power::lemma_pow0(4);
    } else {
        let k1 = (k - 1) as nat;
        lemma_decayed_bounds(s, k1);
        let d = spec_decayed(s, k1);
        let d2 = spec_decayed(s, k);
        let p5 = pow(5, k1);
        let p4 = pow(4, k1);
        vstd::arithmetic::power::lemma_pow_positive(5, k1);
        assert(pow(5, k) == 5 * p5 && pow(4, k) == 4 * p4) by {
            vstd::arithmetic::power::lemma_pow_adds(5, 1, k1);
            vstd::arithmetic::power::lemma_pow_adds(4, 1, k1);
            vstd::arithmetic::power::lemma_pow1(5);
            vstd::arithmetic::power::lemma_pow1(4);
        }
        assert(d2 == d * 800 / 1000);
        assert(5 * d2 <= 4 * d && 4 * d < 5 * d2 + 5 && d2 >= 0);
        assert(d2 * (5 * p5) <= s * (4 * p4)) by (nonlinear_arith)
            requires
                d * p5 <= s * p4,
                5 * d2 <= 4 * d,
                p5 > 0,
        ;
        assert(s * (4 * p4) < (d2 + 5) * (5 * p5)) by (nonlinear_arith)
            requires
                s * p4 < (d + 5) * p5,
                4 * d < 5 * d2 + 5,
                p5 > 0,
        ;
    }
}

/// Each step of `spec_decayed` multiplies by 4/5 exactly on multiples of 5.
pub proof fn lemma_decayed_power(s: int, k: nat)
    requires
        s % pow(5, k) == 0,
    ensures
        spec_decayed(s, k) == s / pow(5, k) * pow(4, k),
    decreases k,
{
    vstd::arithmetic::power::lemma_pow_positive(5, k);
    if k == 0 {
        vstd::arithmetic::power::lemma_pow0(5);
        vstd::arithmetic::power::lemma_pow0(4);
        assert(s / 1 * 1 == s);
    } else {
        let k1 = (k - 1) as nat;
        let p5 = pow(5, k1);
        let p4 = pow(4, k1);
        vstd::arithmetic::power::lemma_pow_positive(5, k1);
        assert(pow(5, k) == 5 * p5 && pow(4, k) == 4 * p4) by {
            vstd::arithmetic::power::lemma_pow_adds(5, 1, k1);
            vstd::arithmetic::power::lemma_pow_adds(4, 1, k1);
            vstd::arithmetic::power::lemma_pow1(5);
            vstd::arithmetic::power::lemma_pow1(4);
        }
        let m = s / pow(5, k);
        assert(s == m * (5 * p5)) by {
            vstd::arithmetic::div_mod::lemma_fundamental_div_mod(s, pow(5, k));
            assert(pow(5, k) * m == m * (5 * p5)) by (nonlinear_arith)
                requires
                    pow(5, k) == 5 * p5,
            ;
        }
        assert(s % p5 == 0 && s / p5 == 5 * m) by {
            assert(s == (5 * m) * p5) by (nonlinear_arith)
                requires
                    s == m * (5 * p5),
            ;
            vstd::arithmetic::div_mod::lemma_fundamental_div_mod_converse(s, p5, 5 * m, 0);
        }
        lemma_decayed_power(s, k1);
        let t = spec_decayed(s, k1);
        assert(t == (5 * m) * p4);
        assert(t == 5 * (m * p4)) by (nonlinear_arith)
            requires
                t == (5 * m) * p4,
        ;
        assert(spec_decay_step(t) == 4 * (m * p4));
        assert(4 * (m * p4) == m * (4 * p4)) by (nonlinear_arith);
        assert(spec_decayed(s, k) == spec_decay_step(t));
    }
}

/// Scores flat probability batches with fixed weights.
pub struct BatchScorer {
    weights: [i64; 16],
}

impl BatchScorer {
    /// The weights are the batch weight vector.
    pub closed spec fn wf(&self) -> bool {
        self.weights@ == batch_weights()
    }

    pub fn new() -> (r: BatchScorer)
        ensures
            r.wf(),
    {
        let r = BatchScorer {
            weights: [
                FAVORITE_WEIGHT,
                REPLY_WEIGHT,
                RETWEET_WEIGHT,
                PHOTO_EXPAND_WEIGHT,
                CLICK_WEIGHT,
                PROFILE_CLICK_WEIGHT,
                VQV_WEIGHT,
                SHARE_WEIGHT,
                SHARE_VIA_DM_WEIGHT,
                SHARE_VIA_COPY_LINK_WEIGHT,
                DWELL_WEIGHT,
                QUOTE_WEIGHT,
                QUOTED_CLICK_WEIGHT,
                CONT_DWELL_TIME_WEIGHT,
                FOLLOW_AUTHOR_WEIGHT,
                BOOKMARK_WEIGHT,
            ],
        };
        assert(r.weights@ =~= batch_weights());
        r
    }

    /// Scores `num_candidates` candidates whose probabilities (in millionths)
    /// are laid out one after another, 16 per candidate.
    pub fn score_batch(&self, probabilities: &[u32], num_candidates: usize) -> (r: BatchScoreResult)
        requires
            self.wf(),
            probabilities.len() == num_candidates * ACTIONS_PER_CANDIDATE,
        ensures
            r.scores@.len() == num_candidates,
            forall|i: int|
                0 <= i < num_candidates ==> #[trigger] r.scores@[i] == spec_candidate_score(
                    probabilities@,
                    i * 16,
                ),
    {
        let start = unix_time_micros();
        let mut scores: Vec<i128> = Vec::new();
        let mut i: usize = 0;
        while i < num_candidates
            invariant
                self.wf(),
                probabilities.len() == num_candidates * ACTIONS_PER_CANDIDATE,
                i <= num_candidates,
                scores@.len() == i,
                forall|j: int|
                    0 <= j < i ==> #[trigger] scores@[j] == spec_candidate_score(
                        probabilities@,
                        j * 16,
                    ),
            decreases num_candidates - i,
        {
            assert(i * 16 + 16 <= num_candidates * 16) by (nonlinear_arith)
                requires
                    i < num_candidates,
            ;
            let score = self.score_single_candidate(probabilities, i * 16);
            scores.push(score);
            i = i + 1;
        }
        let end = unix_time_micros();
        BatchScoreResult { scores, processing_time_us: end.saturating_sub(start) }
    }

    /// The score of the candidate whose probabilities start at `base`.
    fn score_single_candidate(&self, probs: &[u32], base: usize) -> (r: i128)
        requires
            self.wf(),
            base + 16 <= probs.len(),
        ensures
            r == spec_candidate_score(probs@, base as int),
    {
        let mut sum: i128 = 0;
        let mut k: usize = 0;
        while k < 16
            invariant
                self.wf(),
                base + 16 <= probs.len(),
                k <= 16,
                sum == spec_partial_score(probs@, base as int, batch_weights(), k as int),
                0 <= sum <= k * 0x1_0000_0000 * 27000,
            decreases 16 - k,
        {
            let p = probs[base + k];
            let w = self.weights[k];
            assert(0 <= w <= 27000);
            assert(0 <= (p as int) * (w as int) <= 0x1_0000_0000 * 27000) by (nonlinear_arith)
                requires
                    0 <= p < 0x1_0000_0000,
                    0 <= w <= 27000,
            ;
            sum = sum + (p as i128) * (w as i128);
            k = k + 1;
        }
        sum
    }

    /// The author-diversity penalty: the score of an author's
    /// `author_post_count`-th post, decayed once for every earlier one.
    pub fn apply_diversity_penalty(&self, score: i128, author_post_count: u32) -> (r: i128)
        ensures
            r == spec_diversity_penalty(score as int, author_post_count),
    {
        if author_post_count <= 1 {
            return score;
        }
        let mut s = score;
        let mut k: u32 = 1;
        while k < author_post_count
            invariant
                1 <= k <= author_post_count,
                s == spec_decayed(score as int, (k - 1) as nat),
                score >= 0 ==> 0 <= s <= score,
                score < 0 ==> score <= s <= 0,
            decreases author_post_count - k,
        {
            s = decay_step(s);
            k = k + 1;
        }
        s
    }

    /// Sum of the positive weights, in thousandths.
    pub fn positive_weights_sum(&self) -> (r: i64)
        ensures
            r == WEIGHTS_SUM,
    {
        WEIGHTS_SUM
    }
}

/// One decay step, rounded toward zero.
fn decay_step(s: i128) -> (r: i128)
    ensures
        r == spec_decay_step(s as int),
        s >= 0 ==> 0 <= r <= s,
        s < 0 ==> s <= r <= 0,
{
    if s >= 0 {
        let q = s / 1000;
        let rem = s % 1000;
        proof {
            vstd::arithmetic::div_mod::lemma_fundamental_div_mod(s as int, 1000);
            vstd::arithmetic::div_mod::lemma_fundamental_div_mod_converse(
                s * AUTHOR_DIVERSITY_DECAY,
                1000,
                q * AUTHOR_DIVERSITY_DECAY + rem * AUTHOR_DIVERSITY_DECAY / 1000,
                (rem * AUTHOR_DIVERSITY_DECAY) % 1000,
            );
        }
        q * (AUTHOR_DIVERSITY_DECAY as i128) + rem * (AUTHOR_DIVERSITY_DECAY as i128) / 1000
    } else {
        let a: u128 = ((-(s + 1)) as u128) + 1;
        let q = a / 1000;
        let rem = a % 1000;
        proof {
            vstd::arithmetic::div_mod::lemma_fundamental_div_mod(a as int, 1000);
            vstd::arithmetic::div_mod::lemma_fundamental_div_mod_converse(
                a * AUTHOR_DIVERSITY_DECAY,
                1000,
                q * AUTHOR_DIVERSITY_DECAY + rem * AUTHOR_DIVERSITY_DECAY / 1000,
                (rem * AUTHOR_DIVERSITY_DECAY) % 1000,
            );
        }
        let mag: u128 = q * (AUTHOR_DIVERSITY_DECAY as u128) + rem * (AUTHOR_DIVERSITY_DECAY as u128) / 1000;
        -(mag as i128)
    }
}

/// Lexicographic order of (score, index) pairs, as std orders tuples.
pub open spec fn pair_le(a: (i128, usize), b: (i128, usize)) -> bool {
    a.0 < b.0 || (a.0 == b.0 && a.1 <= b.1)
}

/// Relies on `slice::select_nth_unstable`: the slice is reordered so that
/// nothing before `index` is greater than the element at `index` and nothing
/// after it is smaller. It panics when `index` is out of bounds.
#[verifier::external_body]
fn select_nth(v: &mut Vec<(i128, usize)>, index: usize)
    requires
        index < old(v)@.len(),
    ensures
        final(v)@.to_multiset() == old(v)@.to_multiset(),
        final(v)@.len() == old(v)@.len(),
        forall|i: int| 0 <= i < index ==> pair_le(#[trigger] final(v)@[i], final(v)@[index as int]),
        forall|j: int|
            index < j < final(v)@.len() ==> pair_le(final(v)@[index as int], #[trigger] final(v)@[j]),
{
    let _ = v.select_nth_unstable(index);
}

/// `r` holds `min(k, n)` distinct positions of `scores`, and no position left
/// out has a higher score than one taken.
pub open spec fn is_top_k(scores: Seq<i128>, k: int, r: Seq<usize>) -> bool {
    &&& r.len() == if k < scores.len() {
        k
    } else {
        scores.len() as int
    }
    &&& r.no_duplicates()
    &&& forall|i: int| 0 <= i < r.len() ==> #[trigger] r[i] < scores.len()
    &&& forall|i: int, e: int|
        0 <= i < r.len() && 0 <= e < scores.len() && !r.contains(e as usize) ==> #[trigger] scores[e]
            <= #[trigger] scores[r[i] as int]
}

/// The positions of the `k` highest scores, in no particular order; all
/// positions when `k` is at least the number of scores. Ties are broken by
/// position.
pub fn select_top_k(scores: &Vec<i128>, k: usize) -> (r: Vec<usize>)
    ensures
        is_top_k(scores@, k as int, r@),
        k >= scores@.len() ==> r@ == Seq::new(scores@.len(), |i: int| i as usize),
{
    broadcast use vstd::seq_lib::group_to_multiset_ensures;

    let n = scores.len();
    let mut pairs: Vec<(i128, usize)> = Vec::new();
    let mut i: usize = 0;
    while i < n
        invariant
            n == scores@.len(),
            i <= n,
            pairs@.len() == i,
            forall|j: int| 0 <= j < i ==> #[trigger] pairs@[j] == (scores@[j], j as usize),
        decreases n - i,
    {
        pairs.push((scores[i], i));
        i = i + 1;
    }
    if k >= n {
        let mut all: Vec<usize> = Vec::new();
        let mut j: usize = 0;
        while j < n
            invariant
                n == scores@.len(),
                j <= n,
                all@.len() == j,
                forall|t: int| 0 <= t < j ==> #[trigger] all@[t] == t,
            decreases n - j,
        {
            all.push(j);
            j = j + 1;
        }
        assert forall|e: int| #![trigger scores@[e]] 0 <= e < n implies all@.contains(e as usize) by {
            assert(all@[e] == e);
        }
        assert(all@ =~= Seq::new(scores@.len(), |i: int| i as usize));
        return all;
    }
    if k == 0 {
        return Vec::new();
    }
    let ghost before = pairs@;
    let cut = n - k;
    select_nth(&mut pairs, cut);
    let ghost after = pairs@;
    proof {
        assert(before.no_duplicates());
        before.lemma_multiset_has_no_duplicates();
        after.lemma_multiset_has_no_duplicates_conv();
        assert forall|p: int| 0 <= p < n implies (#[trigger] after[p]).1 < n && after[p].0
            == scores@[after[p].1 as int] by {
            assert(after.contains(after[p]));
            assert(after.to_multiset().count(after[p]) > 0);
            assert(before.to_multiset().count(after[p]) > 0);
            assert(before.contains(after[p]));
            let q = choose|q: int| 0 <= q < before.len() && before[q] == after[p];
        }
        assert forall|e: int| #![trigger scores@[e]] 0 <= e < n implies exists|p: int| 0 <= p < n && #[trigger] after[p]
            == (scores@[e], e as usize) by {
            assert(before[e] == (scores@[e], e as usize));
            assert(before.contains(before[e]));
            assert(before.to_multiset().count(before[e]) > 0);
            assert(after.to_multiset().count(before[e]) > 0);
            assert(after.contains(before[e]));
        }
    }
    let mut top: Vec<usize> = Vec::new();
    let mut j: usize = cut;
    while j < n
        invariant
            n == scores@.len(),
            pairs@ == after,
            after.len() == n,
            cut <= j <= n,
            top@.len() == j - cut,
            forall|t: int| 0 <= t < top@.len() ==> #[trigger] top@[t] == after[cut + t].1,
        decreases n - j,
    {
        top.push(pairs[j].1);
        j = j + 1;
    }
    proof {
        assert forall|a: int, b: int| 0 <= a < top@.len() && 0 <= b < top@.len() && a != b implies top@[a]
            != top@[b] by {
            assert(after[cut + a] != after[cut + b]);
            assert((#[trigger] after[cut + a]).0 == scores@[after[cut + a].1 as int]);
            assert((#[trigger] after[cut + b]).0 == scores@[after[cut + b].1 as int]);
        }
        assert forall|t: int| 0 <= t < top@.len() implies #[trigger] top@[t] < scores@.len() by {
            assert(after[cut + t].1 < n);
        }
        assert forall|t: int, e: int|
            0 <= t < top@.len() && 0 <= e < n && !top@.contains(e as usize) implies #[trigger] scores@[e]
            <= #[trigger] scores@[top@[t] as int] by {
            let p = choose|p: int| 0 <= p < n && #[trigger] after[p] == (scores@[e], e as usize);
            if p >= cut {
                assert(top@[p - cut] == e as usize);
            }
            assert(pair_le(after[p], after[cut as int]));
            assert(after[cut + t].0 == scores@[after[cut + t].1 as int]);
            if t > 0 {
                assert(pair_le(after[cut as int], after[cut + t]));
            }
        }
    }
    top
}

} // verus!
