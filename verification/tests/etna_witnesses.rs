//! Deterministic witness tests: each property is called on frozen inputs and
//! must pass.

use tinyvec::etna::{
    property_arrayvec_debug_matches_slice, property_drain_matches_slice_range,
    property_swap_remove_last_returns_tail, PropertyResult,
};

fn expect_pass(r: PropertyResult, what: &str) {
    match r {
        PropertyResult::Pass => {}
        PropertyResult::Fail(m) => panic!("{}: property failed: {}", what, m),
        PropertyResult::Discard => panic!("{}: unexpected discard", what),
    }
}

#[test]
fn witness_arrayvec_debug_matches_slice_case_empty() {
    expect_pass(
        property_arrayvec_debug_matches_slice(vec![]),
        "Debug on empty ArrayVec matches empty slice",
    );
}

#[test]
fn witness_arrayvec_debug_matches_slice_case_three_elements() {
    expect_pass(
        property_arrayvec_debug_matches_slice(vec![1, 2, 3]),
        "Debug on three-element ArrayVec matches slice",
    );
}

#[test]
fn witness_swap_remove_last_returns_tail_case_single() {
    expect_pass(
        property_swap_remove_last_returns_tail(vec![99]),
        "swap_remove(0) on a single-element vec returns the tail",
    );
}

#[test]
fn witness_swap_remove_last_returns_tail_case_four_elements() {
    expect_pass(
        property_swap_remove_last_returns_tail(vec![1, 2, 3, 4]),
        "swap_remove(3) on a four-element vec returns the tail",
    );
}

#[test]
fn witness_drain_matches_slice_range_case_exclusive_middle() {
    // start=1, end=3 on items=[1,2,3,4,5] drains [2,3].
    expect_pass(
        property_drain_matches_slice_range(vec![1, 2, 3, 4, 5], 1, 3),
        "drain(1..3) on [1..=5] drains [2,3]",
    );
}

#[test]
fn witness_drain_matches_slice_range_case_full_range() {
    // start=0, end=len drains everything.
    expect_pass(
        property_drain_matches_slice_range(vec![10, 20, 30], 0, 3),
        "drain(0..3) on [10,20,30] drains all three",
    );
}

#[test]
fn debug_property_discards_overlong_input() {
    assert!(matches!(
        property_arrayvec_debug_matches_slice(vec![0; 9]),
        PropertyResult::Discard
    ));
    assert!(matches!(
        property_arrayvec_debug_matches_slice(vec![7; 8]),
        PropertyResult::Pass
    ));
}

#[test]
fn swap_property_discards_empty_and_overlong_input() {
    assert!(matches!(
        property_swap_remove_last_returns_tail(vec![]),
        PropertyResult::Discard
    ));
    assert!(matches!(
        property_swap_remove_last_returns_tail(vec![1; 9]),
        PropertyResult::Discard
    ));
    assert!(matches!(
        property_swap_remove_last_returns_tail(vec![-5; 8]),
        PropertyResult::Pass
    ));
}

#[test]
fn drain_property_discards_empty_and_overlong_input() {
    assert!(matches!(
        property_drain_matches_slice_range(vec![], 1, 2),
        PropertyResult::Discard
    ));
    assert!(matches!(
        property_drain_matches_slice_range(vec![1; 9], 0, 0),
        PropertyResult::Discard
    ));
}

#[test]
fn drain_property_passes_on_reduced_ranges() {
    for a in [0usize, 1, 2, 5, 255, usize::MAX] {
        for b in [0usize, 1, 3, 4, 200, usize::MAX] {
            assert!(matches!(
                property_drain_matches_slice_range(vec![4, -3, 9, 0], a, b),
                PropertyResult::Pass
            ));
        }
    }
}
