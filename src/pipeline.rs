//! The selection stage of the ranking pipeline.
use vstd::prelude::*;
use crate::batch_scorer::{is_top_k, select_top_k};
use crate::candidate::PostCandidate;
use crate::params::RESULT_SIZE;

verus! {

broadcast use vstd::seq_lib::group_to_multiset_ensures;

/// The stages of one request, in the order they run.
#[derive(Clone, Copy, Debug, PartialEq, Eq, Structural)]
pub enum Stage {
    QueryHydration,
    Sourcing,
    Hydration,
    Filtering,
    Scoring,
    Selection,
    PostSelectionHydration,
    PostSelectionFiltering,
    SideEffects,
    Done,
    Failed,
}

/// The stage after `stage`: the next one in order when it succeeded. A
/// failed stage fails the request, except the side effects, whose failure
/// is not the caller's concern. `Done` and `Failed` are final.
pub open spec fn spec_next_stage(stage: Stage, succeeded: bool) -> Stage {
    match stage {
        Stage::Done => Stage::Done,
        Stage::Failed => Stage::Failed,
        Stage::SideEffects => Stage::Done,
        _ => if !succeeded {
            Stage::Failed
        } else {
            match stage {
                Stage::QueryHydration => Stage::Sourcing,
                Stage::Sourcing => Stage::Hydration,
                Stage::Hydration => Stage::Filtering,
                Stage::Filtering => Stage::Scoring,
                Stage::Scoring => Stage::Selection,
                Stage::Selection => Stage::PostSelectionHydration,
                Stage::PostSelectionHydration => Stage::PostSelectionFiltering,
                _ => Stage::SideEffects,
            }
        },
    }
}

/// The stage to run after `stage` finished, successfully or not.
pub fn next_stage(stage: Stage, succeeded: bool) -> (r: Stage)
    ensures
        r == spec_next_stage(stage, succeeded),
{
    match stage {
        Stage::Done => Stage::Done,
        Stage::Failed => Stage::Failed,
        Stage::SideEffects => Stage::Done,
        _ => if !succeeded {
            Stage::Failed
        } else {
            match stage {
                Stage::QueryHydration => Stage::Sourcing,
                Stage::Sourcing => Stage::Hydration,
                Stage::Hydration => Stage::Filtering,
                Stage::Filtering => Stage::Scoring,
                Stage::Scoring => Stage::Selection,
                Stage::Selection => Stage::PostSelectionHydration,
                Stage::PostSelectionHydration => Stage::PostSelectionFiltering,
                _ => Stage::SideEffects,
            }
        },
    }
}

/// A request whose stages all succeed runs query hydration, sourcing,
/// hydration, filtering, scoring, selection, post-selection hydration,
/// post-selection filtering and side effects, in that order, and then is
/// done; one whose side effects fail is done all the same.
pub proof fn lemma_stage_order()
    ensures
        spec_next_stage(Stage::QueryHydration, true) == Stage::Sourcing,
        spec_next_stage(Stage::Sourcing, true) == Stage::Hydration,
        spec_next_stage(Stage::Hydration, true) == Stage::Filtering,
        spec_next_stage(Stage::Filtering, true) == Stage::Scoring,
        spec_next_stage(Stage::Scoring, true) == Stage::Selection,
        spec_next_stage(Stage::Selection, true) == Stage::PostSelectionHydration,
        spec_next_stage(Stage::PostSelectionHydration, true) == Stage::PostSelectionFiltering,
        spec_next_stage(Stage::PostSelectionFiltering, true) == Stage::SideEffects,
        spec_next_stage(Stage::SideEffects, true) == Stage::Done,
        spec_next_stage(Stage::SideEffects, false) == Stage::Done,
{
}

/// The ranking score of a candidate: its score, or zero when unscored.
pub open spec fn spec_selection_score(c: PostCandidate) -> i128 {
    match c.score {
        Some(s) => s,
        None => 0,
    }
}

/// The ranking scores of the candidates, in order.
pub open spec fn selection_scores(candidates: Seq<PostCandidate>) -> Seq<i128> {
    Seq::new(candidates.len(), |i: int| spec_selection_score(candidates[i]))
}

/// A rearrangement of a top-`k` selection is a top-`k` selection.
proof fn lemma_top_k_permuted(scores: Seq<i128>, k: int, a: Seq<usize>, b: Seq<usize>)
    requires
        is_top_k(scores, k, a),
        b.to_multiset() == a.to_multiset(),
    ensures
        is_top_k(scores, k, b),
{
    vstd::seq_lib::to_multiset_len(a);
    vstd::seq_lib::to_multiset_len(b);
    assert(b.len() == a.len());
    a.lemma_multiset_has_no_duplicates();
    b.lemma_multiset_has_no_duplicates_conv();
    assert forall|x: usize| b.contains(x) <==> a.contains(x) by {
        assert(b.contains(x) <==> b.to_multiset().count(x) > 0);
        assert(a.contains(x) <==> a.to_multiset().count(x) > 0);
    }
    assert forall|i: int| 0 <= i < b.len() implies #[trigger] b[i] < scores.len() by {
        assert(b.contains(b[i]));
        let j = choose|j: int| 0 <= j < a.len() && a[j] == b[i];
    }
    assert forall|i: int, e: int|
        0 <= i < b.len() && 0 <= e < scores.len() && !b.contains(e as usize) implies #[trigger] scores[e]
        <= #[trigger] scores[b[i] as int] by {
        assert(b.contains(b[i]));
        let j = choose|j: int| 0 <= j < a.len() && a[j] == b[i];
        assert(scores[e] <= scores[a[j] as int]);
    }
}

/// Keeps the `k` highest-scoring candidates.
pub struct TopKSelector {
    k: usize,
}

impl TopKSelector {
    /// How many candidates the selector keeps.
    pub closed spec fn spec_k(&self) -> usize {
        self.k
    }

    pub fn new(k: usize) -> (r: TopKSelector)
        ensures
            r.spec_k() == k,
    {
        TopKSelector { k }
    }

    /// The selector of the production pipeline.
    pub fn prod() -> (r: TopKSelector)
        ensures
            r.spec_k() == RESULT_SIZE,
    {
        TopKSelector::new(RESULT_SIZE)
    }

    /// The score the selector ranks a candidate by.
    pub fn score(&self, candidate: &PostCandidate) -> (r: i128)
        ensures
            r == spec_selection_score(*candidate),
    {
        match candidate.score {
            Some(s) => s,
            None => 0,
        }
    }

    /// How many candidates the selector keeps.
    pub fn size(&self) -> (r: Option<usize>)
        ensures
            r == Some(self.spec_k()),
    {
        Some(self.k)
    }

    /// The positions of the candidates to keep, ordered by descending score
    /// (ties by position): the `k` highest scores, or all candidates when
    /// there are no more than `k`.
    pub fn select_ordered(&self, candidates: &[PostCandidate]) -> (r: Vec<usize>)
        ensures
            is_top_k(selection_scores(candidates@), self.spec_k() as int, r@),
            forall|a: int, b: int|
                0 <= a < b < r@.len() ==> selection_scores(candidates@)[#[trigger] r@[a] as int]
                    >= selection_scores(candidates@)[#[trigger] r@[b] as int],
    {
        let chosen = self.select(candidates);
        let ghost scores = selection_scores(candidates@);
        let ghost k = self.spec_k() as int;
        let mut ordered: Vec<usize> = Vec::new();
        assert(ordered@ =~= chosen@.subrange(0, 0));
        let mut i: usize = 0;
        while i < chosen.len()
            invariant
                is_top_k(scores, k, chosen@),
                scores == selection_scores(candidates@),
                i <= chosen@.len(),
                ordered@.len() == i,
                ordered@.to_multiset() == chosen@.subrange(0, i as int).to_multiset(),
                forall|t: int| 0 <= t < i ==> #[trigger] ordered@[t] < scores.len(),
                forall|a: int, b: int|
                    0 <= a < b < ordered@.len() ==> scores[#[trigger] ordered@[a] as int]
                        >= scores[#[trigger] ordered@[b] as int],
            decreases chosen@.len() - i,
        {
            let x = chosen[i];
            let sx = self.score(&candidates[x]);
            let mut pos: usize = 0;
            while pos < ordered.len() && self.score(&candidates[ordered[pos]]) >= sx
                invariant
                    pos <= ordered@.len(),
                    x < candidates@.len(),
                    sx == scores[x as int],
                    scores == selection_scores(candidates@),
                    forall|t: int| 0 <= t < ordered@.len() ==> #[trigger] ordered@[t] < scores.len(),
                    forall|t: int| 0 <= t < pos ==> scores[#[trigger] ordered@[t] as int] >= sx,
                decreases ordered@.len() - pos,
            {
                pos = pos + 1;
            }
            let ghost before = ordered@;
            proof {
                assert(chosen@[i as int] < scores.len());
                if pos < before.len() {
                    assert(scores[before[pos as int] as int] < sx);
                }
            }
            ordered.insert(pos, x);
            proof {
                assert(ordered@ == before.insert(pos as int, x));
                before.insert_ensures(pos as int, x);
                assert(chosen@.subrange(0, i + 1) == chosen@.subrange(0, i as int).push(x));
                assert forall|a: int, b: int|
                    0 <= a < b < ordered@.len() implies scores[#[trigger] ordered@[a] as int]
                    >= scores[#[trigger] ordered@[b] as int] by {
                    if b < pos {
                    } else if b == pos {
                        assert(ordered@[a] == before[a]);
                    } else if a == pos {
                        assert(ordered@[b] == before[b - 1]);
                        if b - 1 > pos {
                            assert(scores[before[pos as int] as int] >= scores[before[b - 1] as int]);
                        }
                    } else if a < pos {
                        assert(ordered@[a] == before[a]);
                        assert(ordered@[b] == before[b - 1]);
                    } else {
                        assert(ordered@[a] == before[a - 1]);
                        assert(ordered@[b] == before[b - 1]);
                    }
                }
            }
            i = i + 1;
        }
        proof {
            assert(chosen@.subrange(0, chosen@.len() as int) == chosen@);
            lemma_top_k_permuted(scores, k, chosen@, ordered@);
        }
        ordered
    }

    /// The positions of the candidates to keep: the `k` highest scores, in no
    /// particular order, or all candidates when there are no more than `k`.
    pub fn select(&self, candidates: &[PostCandidate]) -> (r: Vec<usize>)
        ensures
            is_top_k(selection_scores(candidates@), self.spec_k() as int, r@),
    {
        let mut scores: Vec<i128> = Vec::new();
        let mut i: usize = 0;
        while i < candidates.len()
            invariant
                i <= candidates@.len(),
                scores@.len() == i,
                forall|j: int|
                    0 <= j < i ==> #[trigger] scores@[j] == spec_selection_score(candidates@[j]),
            decreases candidates@.len() - i,
        {
            scores.push(self.score(&candidates[i]));
            i = i + 1;
        }
        assert(scores@ =~= selection_scores(candidates@));
        select_top_k(&scores, self.k)
    }
}

} // verus!
