//! The runner's decisions, statistics, report line and inputs on concrete
//! values.

use tinyvec::etna::PropertyResult;
use tinyvec::inputs::{
    drain_edit, flip_bit, flip_item_bit, items_edit, items_len_from_draw, resize_edit, DrainEdit,
    ItemsEdit,
};
use tinyvec::json::{json_report, json_str};
use tinyvec::runner::{
    cases_budget_from, check_arrayvec_debug_matches_slice, check_drain_matches_slice_range,
    check_swap_remove_last_returns_tail, parse_u64, to_err, to_opt, Metrics,
};

#[test]
fn to_opt_maps_each_answer() {
    assert_eq!(to_opt(PropertyResult::Pass), Some(true));
    assert_eq!(to_opt(PropertyResult::Fail("x".to_string())), Some(false));
    assert_eq!(to_opt(PropertyResult::Discard), None);
}

#[test]
fn to_err_maps_each_answer() {
    assert_eq!(to_err(PropertyResult::Pass), Ok(()));
    assert_eq!(to_err(PropertyResult::Discard), Ok(()));
    assert_eq!(to_err(PropertyResult::Fail("bad".to_string())), Err("bad".to_string()));
}

#[test]
fn metrics_add_up() {
    let a = Metrics { inputs: 3, elapsed_us: 40 };
    let b = Metrics { inputs: 5, elapsed_us: 2 };
    let c = a.combine(b);
    assert_eq!(c.inputs, 8);
    assert_eq!(c.elapsed_us, 42);
    let z = Metrics::default();
    assert_eq!(z.inputs, 0);
    assert_eq!(z.elapsed_us, 0);
}

#[test]
fn frozen_witnesses_pass() {
    assert_eq!(check_arrayvec_debug_matches_slice(), Ok(()));
    assert_eq!(check_swap_remove_last_returns_tail(), Ok(()));
    assert_eq!(check_drain_matches_slice_range(), Ok(()));
}

#[test]
fn json_str_escapes() {
    assert_eq!(json_str("plain"), "\"plain\"");
    assert_eq!(json_str(""), "\"\"");
    assert_eq!(json_str("a\"b\\c"), "\"a\\\"b\\\\c\"");
    assert_eq!(json_str("\n\r\t"), "\"\\n\\r\\t\"");
    assert_eq!(json_str("\u{1}\u{1f}"), "\"\\u0001\\u001f\"");
    assert_eq!(json_str("é ü"), "\"é ü\"");
}

#[test]
fn json_report_line() {
    let m = Metrics { inputs: 1234, elapsed_us: 567 };
    assert_eq!(
        json_report("etna", "All", "passed", m, None, None),
        "{\"status\":\"passed\",\"tests\":1234,\"discards\":0,\"time\":\"567us\",\"counterexample\":null,\"error\":null,\"tool\":\"etna\",\"property\":\"All\"}"
    );
    let z = Metrics { inputs: 0, elapsed_us: 0 };
    assert_eq!(
        json_report("proptest", "P", "failed", z, Some("([1, 2])"), Some("e\"r")),
        "{\"status\":\"failed\",\"tests\":0,\"discards\":0,\"time\":\"0us\",\"counterexample\":\"([1, 2])\",\"error\":\"e\\\"r\",\"tool\":\"proptest\",\"property\":\"P\"}"
    );
}

#[test]
fn parse_u64_accepts_what_std_accepts() {
    for s in ["0", "7", "+7", "1000", "007", "18446744073709551615", "+", "", "-1", "12a", " 1", "18446744073709551616", "99999999999999999999999"] {
        assert_eq!(parse_u64(s), s.parse::<u64>().ok(), "input {:?}", s);
    }
}

#[test]
fn cases_budget_defaults_to_one_thousand() {
    assert_eq!(cases_budget_from(None), 1000);
    assert_eq!(cases_budget_from(Some("50")), 50);
    assert_eq!(cases_budget_from(Some("many")), 1000);
}

#[test]
fn input_lengths_from_draws() {
    assert_eq!(items_len_from_draw(0), 0);
    assert_eq!(items_len_from_draw(8), 8);
    assert_eq!(items_len_from_draw(9), 0);
    assert_eq!(items_len_from_draw(200), 2);
    assert_eq!(items_len_from_draw(255), 3);
}

#[test]
fn items_edits() {
    assert_eq!(items_edit(0, 3), ItemsEdit::FlipBit);
    assert_eq!(items_edit(0, 0), ItemsEdit::Keep);
    assert_eq!(items_edit(1, 0), ItemsEdit::Push);
    assert_eq!(items_edit(1, 12), ItemsEdit::Pop);
    assert_eq!(items_edit(2, 5), ItemsEdit::Pop);
    assert_eq!(items_edit(2, 0), ItemsEdit::Keep);
    assert_eq!(resize_edit(true, 11), ItemsEdit::Push);
    assert_eq!(resize_edit(true, 12), ItemsEdit::Pop);
    assert_eq!(resize_edit(false, 1), ItemsEdit::Pop);
    assert_eq!(resize_edit(false, 0), ItemsEdit::Keep);
}

#[test]
fn drain_edits() {
    assert_eq!(drain_edit(0, 2), DrainEdit::FlipItemBit);
    assert_eq!(drain_edit(0, 0), DrainEdit::Resize);
    assert_eq!(drain_edit(1, 0), DrainEdit::FlipA);
    assert_eq!(drain_edit(2, 4), DrainEdit::FlipB);
    assert_eq!(drain_edit(3, 4), DrainEdit::Resize);
}

#[test]
fn bit_flips() {
    let mut items = vec![0, 5, -1];
    flip_item_bit(&mut items, 1, 0);
    assert_eq!(items, vec![0, 4, -1]);
    flip_item_bit(&mut items, 0, 31);
    assert_eq!(items, vec![i32::MIN, 4, -1]);
    assert_eq!(flip_bit(0, 3), 8);
    assert_eq!(flip_bit(8, 3), 0);
}
