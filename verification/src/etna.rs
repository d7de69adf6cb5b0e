//! Property checks over `ArrayVec`, each a function of concrete, owned
//! inputs that answers `Pass`, `Fail` with a report, or `Discard` for an
//! input outside its domain.

use vstd::prelude::*;

use crate::arrayvec::{ArrayVec, Bound};
use crate::text::{
    format_debug_mismatch, format_drain_rest_mismatch, format_drain_yield_mismatch,
    format_slice_debug, format_slice_debug_alternate, format_swap_rest_mismatch,
    format_swap_tail_mismatch,
};

verus! {

/// The capacity of the vectors that the checks build.
pub const CAP: usize = 8;

/// The answer of a property check.
#[derive(Debug)]
pub enum PropertyResult {
    Pass,
    Fail(String),
    Discard,
}

/// Builds a vector holding `items`, pushing them one by one.
fn filled(items: &Vec<i32>) -> (av: ArrayVec<i32, CAP>)
    requires
        items@.len() <= CAP,
    ensures
        av@ == items@,
{
    let mut av: ArrayVec<i32, CAP> = ArrayVec::new();
    let mut i: usize = 0;
    while i < items.len()
        invariant
            i <= items@.len() <= CAP,
            av@ == items@.subrange(0, i as int),
        decreases items@.len() - i,
    {
        av.push(items[i]);
        i = i + 1;
        assert(av@ =~= items@.subrange(0, i as int));
    }
    assert(items@.subrange(0, items@.len() as int) =~= items@);
    av
}

/// The `Debug` text of an `ArrayVec`, plain and alternate, is that of the
/// slice of its elements. Inputs longer than the capacity are discarded.
pub fn property_arrayvec_debug_matches_slice(items: Vec<i32>) -> (r: PropertyResult)
    ensures
        r == (if items@.len() > CAP {
            PropertyResult::Discard
        } else {
            PropertyResult::Pass
        }),
{
    if items.len() > CAP {
        return PropertyResult::Discard;
    }
    let av = filled(&items);

    let slice_alt = format_slice_debug_alternate(av.as_slice());
    let vec_alt = av.debug_string_alternate();
    if !(vec_alt == slice_alt) {
        return PropertyResult::Fail(format_debug_mismatch("alternate ", &vec_alt, &slice_alt));
    }
    let slice_plain = format_slice_debug(av.as_slice());
    let vec_plain = av.debug_string();
    if !(vec_plain == slice_plain) {
        return PropertyResult::Fail(format_debug_mismatch("", &vec_plain, &slice_plain));
    }
    PropertyResult::Pass
}

/// `swap_remove` at the last position hands back the last element and
/// leaves the others in order. Empty inputs and inputs longer than the
/// capacity are discarded.
pub fn property_swap_remove_last_returns_tail(items: Vec<i32>) -> (r: PropertyResult)
    ensures
        r == (if items@.len() == 0 || items@.len() > CAP {
            PropertyResult::Discard
        } else {
            PropertyResult::Pass
        }),
{
    if items.len() == 0 || items.len() > CAP {
        return PropertyResult::Discard;
    }
    let mut av = filled(&items);
    let expected_tail = items[items.len() - 1];
    let expected_prefix: Vec<i32> = vstd::slice::slice_to_vec(
        vstd::slice::slice_subrange(items.as_slice(), 0, items.len() - 1),
    );
    let last_index = av.len() - 1;

    let tail = av.swap_remove(last_index);
    let rest: Vec<i32> = av.to_vec();

    if tail != expected_tail {
        return PropertyResult::Fail(format_swap_tail_mismatch(tail, expected_tail));
    }
    assert(rest@ =~= expected_prefix@);
    if !(rest == expected_prefix) {
        return PropertyResult::Fail(format_swap_rest_mismatch(&rest, &expected_prefix));
    }
    PropertyResult::Pass
}

/// The elements that a drain from `start` up to `end_bound` hands back.
pub open spec fn drained_part(items: Seq<i32>, start: usize, end_bound: Bound) -> Seq<i32> {
    items.subrange(start as int, crate::arrayvec::end_index(end_bound, items.len()))
}

/// The elements that a drain from `start` up to `end_bound` leaves.
pub open spec fn rest_part(items: Seq<i32>, start: usize, end_bound: Bound) -> Seq<i32> {
    items.subrange(0, start as int) + items.subrange(
        crate::arrayvec::end_index(end_bound, items.len()),
        items.len() as int,
    )
}

/// Drains `av` over the bounds and checks the drained elements and those left
/// against `expected_drained` and `expected_rest`; `range_op` ("..",
/// "..=") and `end_shown` only shape the report.
fn check_drain(
    items: &Vec<i32>,
    start: usize,
    end_bound: Bound,
    range_op: &str,
    end_shown: usize,
    expected_drained: &Vec<i32>,
    expected_rest: &Vec<i32>,
) -> (r: Option<String>)
    requires
        items@.len() <= CAP,
        start <= crate::arrayvec::end_index(end_bound, items@.len()) <= items@.len(),
    ensures
        (r is None) == (expected_drained@ == drained_part(items@, start, end_bound)
            && expected_rest@ == rest_part(items@, start, end_bound)),
        r matches Some(m) ==> m@ == (if expected_drained@ != drained_part(items@, start, end_bound) {
            crate::text::drain_yield_mismatch_text(
                start,
                range_op@,
                end_shown,
                drained_part(items@, start, end_bound),
                expected_drained@,
            )
        } else {
            crate::text::drain_rest_mismatch_text(
                start,
                range_op@,
                end_shown,
                rest_part(items@, start, end_bound),
                expected_rest@,
            )
        }),
{
    let mut av = filled(items);
    let drained: Vec<i32> = av.drain(Bound::Included(start), end_bound);
    let rest: Vec<i32> = av.to_vec();
    assert(drained@ =~= drained_part(items@, start, end_bound));
    if !(drained == *expected_drained) {
        return Some(
            format_drain_yield_mismatch(start, range_op, end_shown, &drained, expected_drained),
        );
    }
    assert(drained@ =~= expected_drained@);
    assert(rest@ =~= rest_part(items@, start, end_bound));
    if !(rest == *expected_rest) {
        return Some(
            format_drain_rest_mismatch(start, range_op, end_shown, &rest, expected_rest),
        );
    }
    assert(rest@ =~= expected_rest@);
    None
}

/// `drain` over `start..end` and over `start..=end - 1` hands back exactly
/// `items[start..end]` and leaves `items[..start] ++ items[end..]`, where
/// `end` is `b` reduced modulo `len + 1` and `start` is `a` reduced modulo
/// `end + 1` (0 when `end` is 0). Empty inputs and inputs longer than the
/// capacity are discarded.
pub fn property_drain_matches_slice_range(items: Vec<i32>, a: usize, b: usize) -> (r:
    PropertyResult)
    ensures
        r == (if items@.len() == 0 || items@.len() > CAP {
            PropertyResult::Discard
        } else {
            PropertyResult::Pass
        }),
{
    if items.len() == 0 || items.len() > CAP {
        return PropertyResult::Discard;
    }
    let end = b % (items.len() + 1);
    let start = if end == 0 {
        0
    } else {
        a % (end + 1)
    };
    if start > end {
        return PropertyResult::Discard;
    }

    // Half-open: drain(start..end)
    {
        let expected_drained: Vec<i32> = vstd::slice::slice_to_vec(
            vstd::slice::slice_subrange(items.as_slice(), start, end),
        );
        let mut expected_rest: Vec<i32> = vstd::slice::slice_to_vec(
            vstd::slice::slice_subrange(items.as_slice(), 0, start),
        );
        let mut tail: Vec<i32> = vstd::slice::slice_to_vec(
            vstd::slice::slice_subrange(items.as_slice(), end, items.len()),
        );
        expected_rest.append(&mut tail);
        match check_drain(
            &items,
            start,
            Bound::Excluded(end),
            "..",
            end,
            &expected_drained,
            &expected_rest,
        ) {
            Some(report) => {
                return PropertyResult::Fail(report);
            },
            None => {},
        }
    }

    // Inclusive: drain(start..=end-1) when end>0, matches items[start..end].
    if end > 0 && start <= end - 1 {
        let end_inc = end - 1;
        let expected_drained: Vec<i32> = vstd::slice::slice_to_vec(
            vstd::slice::slice_subrange(items.as_slice(), start, end_inc + 1),
        );
        let mut expected_rest: Vec<i32> = vstd::slice::slice_to_vec(
            vstd::slice::slice_subrange(items.as_slice(), 0, start),
        );
        let mut tail: Vec<i32> = vstd::slice::slice_to_vec(
            vstd::slice::slice_subrange(items.as_slice(), end_inc + 1, items.len()),
        );
        expected_rest.append(&mut tail);
        match check_drain(
            &items,
            start,
            Bound::Included(end_inc),
            "..=",
            end_inc,
            &expected_drained,
            &expected_rest,
        ) {
            Some(report) => {
                return PropertyResult::Fail(report);
            },
            None => {},
        }
    }

    PropertyResult::Pass
}

} // verus!
