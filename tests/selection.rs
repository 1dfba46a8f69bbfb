use home_mixer::batch_scorer::select_top_k;
use home_mixer::candidate::PostCandidate;
use home_mixer::params::RESULT_SIZE;
use home_mixer::pipeline::{next_stage, Stage, TopKSelector};

#[test]
fn test_top_k_selection() {
    let items: Vec<i128> = (0..100).collect();
    let top_10 = select_top_k(&items, 10);
    assert_eq!(top_10.len(), 10);
    for &item in &top_10 {
        assert!(items[item] >= 90);
    }
}

#[test]
fn top_k_takes_everything_when_k_is_large() {
    let items: Vec<i128> = vec![5, -1, 3];
    let mut all = select_top_k(&items, 10);
    all.sort();
    assert_eq!(all, vec![0, 1, 2]);
    assert!(select_top_k(&items, 0).is_empty());
    assert!(select_top_k(&Vec::new(), 3).is_empty());
}

#[test]
fn top_k_with_ties_keeps_k_distinct_positions() {
    let items: Vec<i128> = vec![7, 7, 7, 7, 1];
    let mut top = select_top_k(&items, 2);
    top.sort();
    top.dedup();
    assert_eq!(top.len(), 2);
    assert!(top.iter().all(|&i| items[i] == 7));
}

#[test]
fn selector_keeps_highest_scored_candidates() {
    let selector = TopKSelector::new(2);
    assert_eq!(selector.size(), Some(2));
    assert_eq!(TopKSelector::prod().size(), Some(RESULT_SIZE));
    let mut candidates = Vec::new();
    for s in [10i128, 40, 20, 30] {
        let mut c = PostCandidate::default();
        c.score = Some(s);
        candidates.push(c);
    }
    candidates.push(PostCandidate::default());
    assert_eq!(selector.score(&candidates[4]), 0);
    let mut kept = selector.select(&candidates);
    kept.sort();
    assert_eq!(kept, vec![1, 3]);
}

#[test]
fn selector_orders_the_kept_candidates_by_descending_score() {
    let selector = TopKSelector::new(3);
    let mut candidates = Vec::new();
    for s in [10i128, 40, 20, 30, 40] {
        let mut c = PostCandidate::default();
        c.score = Some(s);
        candidates.push(c);
    }
    let ordered = selector.select_ordered(&candidates);
    let scores: Vec<i128> = ordered.iter().map(|&i| candidates[i].score.unwrap()).collect();
    assert_eq!(scores, vec![40, 40, 30]);
    let all = TopKSelector::new(10).select_ordered(&candidates);
    assert_eq!(all.len(), 5);
    assert_eq!(all[4], 0);
}

#[test]
fn top_k_covering_everything_keeps_input_order() {
    let items: Vec<i128> = vec![3, 9, -2, 9];
    assert_eq!(select_top_k(&items, 4), vec![0, 1, 2, 3]);
    assert_eq!(select_top_k(&items, 100), vec![0, 1, 2, 3]);
}

#[test]
fn stages_run_in_order_and_failures_stop_the_request() {
    let mut stage = Stage::QueryHydration;
    let mut seen = vec![stage];
    while stage != Stage::Done {
        stage = next_stage(stage, true);
        seen.push(stage);
    }
    assert_eq!(seen.len(), 10);
    assert_eq!(seen[5], Stage::Selection);
    assert_eq!(next_stage(Stage::Scoring, false), Stage::Failed);
    assert_eq!(next_stage(Stage::SideEffects, false), Stage::Done);
    assert_eq!(next_stage(Stage::Failed, true), Stage::Failed);
}
