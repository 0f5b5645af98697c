use canny_edges::bma::{
    best_prediction, ExhaustiveBlockMatcher, NaiveBlockMatcher, ThreeStepBlockMatcher, ThreeStepSearch,
};

fn bits(v: f64) -> u64 {
    v.to_bits()
}

#[test]
fn naive_matcher_builds() {
    let _matcher = NaiveBlockMatcher::new();
}

#[test]
fn exhaustive_candidates_inside_the_frame() {
    let m = ExhaustiveBlockMatcher::new(1);
    assert_eq!(m.candidate_positions(0, 0, 4, 4), vec![(0, 0)]);
    assert_eq!(m.candidate_positions(2, 2, 4, 4), vec![(1, 1), (1, 2), (2, 1), (2, 2)]);
    assert_eq!(m.candidate_positions(3, 3, 4, 4), vec![(2, 2), (2, 3), (3, 2), (3, 3)]);
}

#[test]
fn exhaustive_candidates_x_offset_outer() {
    let m = ExhaustiveBlockMatcher::new(2);
    assert_eq!(
        m.candidate_positions(0, 1, 3, 3),
        vec![(0, 0), (0, 1), (0, 2), (1, 0), (1, 1), (1, 2)]
    );
    assert_eq!(m.candidate_positions(5, 5, 20, 20).len(), 16);
}

#[test]
fn exhaustive_empty_window() {
    let m = ExhaustiveBlockMatcher::new(0);
    assert!(m.candidate_positions(1, 1, 4, 4).is_empty());
}

#[test]
fn three_step_rounds() {
    let m = ThreeStepBlockMatcher::new(8);
    let first = m.start(5, 5);
    assert_eq!(first, ThreeStepSearch { anchor_x: 5, anchor_y: 5, step: 8 });
    assert_eq!(first.candidate_positions(16, 16), vec![(5, 5), (13, 5), (5, 13), (13, 13)]);
    let second = first.advance((13, 5)).unwrap();
    assert_eq!(second, ThreeStepSearch { anchor_x: 13, anchor_y: 5, step: 4 });
    assert_eq!(
        second.candidate_positions(16, 16),
        vec![(9, 1), (13, 1), (9, 5), (13, 5), (9, 9), (13, 9)]
    );
    let third = second.advance((9, 9)).unwrap();
    assert_eq!(third.step, 2);
    assert_eq!(third.advance((9, 9)), None);
}

#[test]
fn three_step_small_regions_finish_at_once() {
    let m = ThreeStepBlockMatcher::new(3);
    let first = m.start(0, 0);
    assert_eq!(first.candidate_positions(2, 2), vec![(0, 0)]);
    assert_eq!(first.advance((0, 0)), None);
    let zero = ThreeStepBlockMatcher::new(0).start(1, 1);
    assert_eq!(zero.candidate_positions(4, 4), vec![(1, 1); 9]);
}

#[test]
fn best_prediction_takes_first_minimum() {
    assert_eq!(best_prediction(&[bits(3.0), bits(1.0), bits(1.0), bits(2.0)]), Some(1));
    assert_eq!(best_prediction(&[bits(0.5)]), Some(0));
    assert_eq!(best_prediction(&[bits(0.0), bits(-0.0)]), Some(0));
    assert_eq!(best_prediction(&[bits(4.0), bits(2.5), bits(0.25)]), Some(2));
    assert_eq!(best_prediction(&[]), None);
}
