//! Text that std's formatting machinery writes. Each function here makes one
//! `format!` call; the text it returns is given a name, since what std writes
//! for `{:?}` takes pages to describe but depends on the arguments alone.

use vstd::prelude::*;

verus! {

/// What `{:?}` writes for a slice of `i32` with the given elements.
pub uninterp spec fn slice_debug(s: Seq<i32>) -> Seq<char>;

/// What `{:#?}` (alternate mode) writes for a slice of `i32` with the given
/// elements.
pub uninterp spec fn slice_debug_alternate(s: Seq<i32>) -> Seq<char>;

/// What `format!("{}Debug mismatch: av={:?} slice={:?}", ..)` writes.
pub uninterp spec fn debug_mismatch_text(prefix: Seq<char>, av: Seq<char>, slice: Seq<char>) -> Seq<
    char,
>;

/// What `format!("swap_remove returned {} expected {}", ..)` writes.
pub uninterp spec fn swap_tail_mismatch_text(tail: i32, expected: i32) -> Seq<char>;

/// What `format!("after swap_remove tail, rest={:?} expected {:?}", ..)`
/// writes.
pub uninterp spec fn swap_rest_mismatch_text(rest: Seq<i32>, expected: Seq<i32>) -> Seq<char>;

/// What `format!("drain({}{}{}) yielded {:?} expected {:?}", ..)` writes.
pub uninterp spec fn drain_yield_mismatch_text(
    start: usize,
    range_op: Seq<char>,
    end: usize,
    drained: Seq<i32>,
    expected: Seq<i32>,
) -> Seq<char>;

/// What `format!("after drain({}{}{}), rest={:?} expected {:?}", ..)` writes.
pub uninterp spec fn drain_rest_mismatch_text(
    start: usize,
    range_op: Seq<char>,
    end: usize,
    rest: Seq<i32>,
    expected: Seq<i32>,
) -> Seq<char>;

/// std's `Debug` for `[i32]`, through `format!("{:?}", s)`. Claimed: the
/// text is `slice_debug` of the elements.
#[verifier::external_body]
pub(crate) fn format_slice_debug(s: &[i32]) -> (r: String)
    ensures
        r@ == slice_debug(s@),
{
    format!("{:?}", s)
}

/// std's `Debug` for `[i32]` in alternate mode, through
/// `format!("{:#?}", s)`. Claimed: the text is `slice_debug_alternate` of
/// the elements.
#[verifier::external_body]
pub(crate) fn format_slice_debug_alternate(s: &[i32]) -> (r: String)
    ensures
        r@ == slice_debug_alternate(s@),
{
    format!("{:#?}", s)
}

/// `format!` of a `Debug` mismatch report. Claimed: the text is
/// `debug_mismatch_text` of the three arguments.
#[verifier::external_body]
pub(crate) fn format_debug_mismatch(prefix: &str, av: &String, slice: &String) -> (r: String)
    ensures
        r@ == debug_mismatch_text(prefix@, av@, slice@),
{
    format!("{}Debug mismatch: av={:?} slice={:?}", prefix, av, slice)
}

/// `format!` of a wrong `swap_remove` result. Claimed: the text is
/// `swap_tail_mismatch_text` of the two values.
#[verifier::external_body]
pub(crate) fn format_swap_tail_mismatch(tail: i32, expected: i32) -> (r: String)
    ensures
        r@ == swap_tail_mismatch_text(tail, expected),
{
    format!("swap_remove returned {} expected {}", tail, expected)
}

/// `format!` of wrong contents after `swap_remove`. Claimed: the text is
/// `swap_rest_mismatch_text` of the two element sequences.
#[verifier::external_body]
pub(crate) fn format_swap_rest_mismatch(rest: &Vec<i32>, expected: &Vec<i32>) -> (r: String)
    ensures
        r@ == swap_rest_mismatch_text(rest@, expected@),
{
    format!("after swap_remove tail, rest={:?} expected {:?}", rest, expected)
}

/// `format!` of wrong drained elements. Claimed: the text is
/// `drain_yield_mismatch_text` of the arguments.
#[verifier::external_body]
pub(crate) fn format_drain_yield_mismatch(
    start: usize,
    range_op: &str,
    end: usize,
    drained: &Vec<i32>,
    expected: &Vec<i32>,
) -> (r: String)
    ensures
        r@ == drain_yield_mismatch_text(start, range_op@, end, drained@, expected@),
{
    format!("drain({}{}{}) yielded {:?} expected {:?}", start, range_op, end, drained, expected)
}

/// `format!` of wrong contents after a drain. Claimed: the text is
/// `drain_rest_mismatch_text` of the arguments.
#[verifier::external_body]
pub(crate) fn format_drain_rest_mismatch(
    start: usize,
    range_op: &str,
    end: usize,
    rest: &Vec<i32>,
    expected: &Vec<i32>,
) -> (r: String)
    ensures
        r@ == drain_rest_mismatch_text(start, range_op@, end, rest@, expected@),
{
    format!("after drain({}{}{}), rest={:?} expected {:?}", start, range_op, end, rest, expected)
}

} // verus!
