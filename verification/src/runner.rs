//! The parts of the property runner that decide: how a `PropertyResult`
//! maps to the frameworks' answers, how run statistics add up, and how the
//! frozen witness inputs are replayed.

use vstd::prelude::*;

use crate::etna::{
    property_arrayvec_debug_matches_slice, property_drain_matches_slice_range,
    property_swap_remove_last_returns_tail, PropertyResult,
};

verus! {

/// The answer in the shape a `quickcheck`-style runner takes: `Some(true)`
/// for a pass, `Some(false)` for a failure, `None` for a discarded input.
pub fn to_opt(r: PropertyResult) -> (o: Option<bool>)
    ensures
        o == (match r {
            PropertyResult::Pass => Some(true),
            PropertyResult::Fail(_) => Some(false),
            PropertyResult::Discard => None,
        }),
{
    match r {
        PropertyResult::Pass => Some(true),
        PropertyResult::Fail(_) => Some(false),
        PropertyResult::Discard => None,
    }
}

/// The answer as a `Result`: a failure carries its report, a pass or a
/// discarded input is `Ok`.
pub fn to_err(r: PropertyResult) -> (o: Result<(), String>)
    ensures
        o == (match r {
            PropertyResult::Fail(m) => Err(m),
            _ => Ok::<(), String>(()),
        }),
{
    match r {
        PropertyResult::Pass | PropertyResult::Discard => Ok(()),
        PropertyResult::Fail(m) => Err(m),
    }
}

/// Statistics of one run: how many inputs were tried, and how long it took
/// in microseconds.
#[derive(Clone, Copy)]
pub struct Metrics {
    pub inputs: u64,
    pub elapsed_us: u128,
}

impl Default for Metrics {
    fn default() -> (m: Metrics)
        ensures
            m.inputs == 0,
            m.elapsed_us == 0,
    {
        Metrics { inputs: 0, elapsed_us: 0 }
    }
}

impl Metrics {
    /// The statistics of two runs taken together: the counts and the times
    /// add up. The sums must fit.
    pub fn combine(self, other: Metrics) -> (m: Metrics)
        requires
            self.inputs + other.inputs <= u64::MAX,
            self.elapsed_us + other.elapsed_us <= u128::MAX,
        ensures
            m.inputs == self.inputs + other.inputs,
            m.elapsed_us == self.elapsed_us + other.elapsed_us,
    {
        Metrics {
            inputs: self.inputs + other.inputs,
            elapsed_us: self.elapsed_us + other.elapsed_us,
        }
    }
}

/// Replays the frozen witnesses of the `Debug` property: the empty vector
/// and `[1, 2, 3]`.
pub fn check_arrayvec_debug_matches_slice() -> (r: Result<(), String>)
    ensures
        r == Ok::<(), String>(()),
{
    match to_err(property_arrayvec_debug_matches_slice(vec![])) {
        Err(m) => {
            return Err(m);
        },
        Ok(()) => {},
    }
    match to_err(property_arrayvec_debug_matches_slice(vec![1, 2, 3])) {
        Err(m) => {
            return Err(m);
        },
        Ok(()) => {},
    }
    Ok(())
}

/// Replays the frozen witnesses of the `swap_remove` property: `[99]` and
/// `[1, 2, 3, 4]`.
pub fn check_swap_remove_last_returns_tail() -> (r: Result<(), String>)
    ensures
        r == Ok::<(), String>(()),
{
    match to_err(property_swap_remove_last_returns_tail(vec![99])) {
        Err(m) => {
            return Err(m);
        },
        Ok(()) => {},
    }
    match to_err(property_swap_remove_last_returns_tail(vec![1, 2, 3, 4])) {
        Err(m) => {
            return Err(m);
        },
        Ok(()) => {},
    }
    Ok(())
}

/// Replays the frozen witnesses of the `drain` property: `[1, 2, 3, 4, 5]`
/// with `a = 1, b = 3`, and `[10, 20, 30]` with `a = 0, b = 3`.
pub fn check_drain_matches_slice_range() -> (r: Result<(), String>)
    ensures
        r == Ok::<(), String>(()),
{
    match to_err(property_drain_matches_slice_range(vec![1, 2, 3, 4, 5], 1, 3)) {
        Err(m) => {
            return Err(m);
        },
        Ok(()) => {},
    }
    match to_err(property_drain_matches_slice_range(vec![10, 20, 30], 0, 3)) {
        Err(m) => {
            return Err(m);
        },
        Ok(()) => {},
    }
    Ok(())
}

/// Every character is an ASCII decimal digit.
pub open spec fn all_digits(s: Seq<char>) -> bool {
    forall|i: int| 0 <= i < s.len() ==> '0' <= #[trigger] s[i] <= '9'
}

/// The number that a string of decimal digits denotes.
pub open spec fn digits_value(s: Seq<char>) -> nat
    decreases s.len(),
{
    if s.len() == 0 {
        0
    } else {
        digits_value(s.drop_last()) * 10 + ((s.last() as int) - 48) as nat
    }
}

/// What parsing `s` as a `u64` gives: an optional `+` (not on its own),
/// then one or more decimal digits whose number fits in 64 bits; anything
/// else is refused.
pub open spec fn parsed_u64(s: Seq<char>) -> Option<u64> {
    let body = if s.len() > 1 && s[0] == '+' {
        s.drop_first()
    } else {
        s
    };
    if body.len() == 0 || !all_digits(body) || digits_value(body) > u64::MAX {
        None
    } else {
        Some(digits_value(body) as u64)
    }
}

/// Each digit character is worth its distance from `'0'`.
pub proof fn law_digit_value(c: char)
    requires
        '0' <= c <= '9',
    ensures
        digits_value(seq![c]) == (c as int) - ('0' as int),
{
    lemma_digits_value_push(Seq::<char>::empty(), c);
    assert(Seq::<char>::empty().push(c) =~= seq![c]);
}

/// Appending a digit multiplies the value by ten and adds the digit.
proof fn lemma_digits_value_push(s: Seq<char>, c: char)
    requires
        '0' <= c <= '9',
    ensures
        digits_value(s.push(c)) == digits_value(s) * 10 + ((c as int) - 48),
{
    assert(s.push(c).drop_last() =~= s);
    assert(s.push(c).last() == c);
}

/// `decimal(n)` is the base-ten numeral of `n`: a non-empty string of
/// digits, read back in base ten it is `n`, and it starts with `'0'` only
/// when `n` is zero.
pub proof fn law_decimal_is_base_ten_numeral(n: nat)
    ensures
        crate::json::decimal(n).len() > 0,
        all_digits(crate::json::decimal(n)),
        digits_value(crate::json::decimal(n)) == n,
        crate::json::decimal(n)[0] == '0' ==> n == 0,
    decreases n,
{
    let s = crate::json::decimal(n);
    if n < 10 {
        lemma_digits_value_push(Seq::<char>::empty(), crate::json::decimal_digit(n as int));
        assert(Seq::<char>::empty().push(crate::json::decimal_digit(n as int)) =~= s);
    } else {
        law_decimal_is_base_ten_numeral(n / 10);
        let p = crate::json::decimal(n / 10);
        assert(s == p.push(crate::json::decimal_digit((n % 10) as int)));
        lemma_digits_value_push(p, crate::json::decimal_digit((n % 10) as int));
        assert(s[0] == p[0]);
    }
}

/// Reading back the numeral that `decimal` writes for a `u64` gives the
/// number: parsing inverts printing.
pub proof fn law_parse_reads_decimal(n: u64)
    ensures
        parsed_u64(crate::json::decimal(n as nat)) == Some(n),
{
    law_decimal_is_base_ten_numeral(n as nat);
}

/// A longer string of digits denotes at least as much as any of its
/// prefixes.
proof fn lemma_digits_value_grows(s: Seq<char>, k: int)
    requires
        0 <= k <= s.len(),
        all_digits(s),
    ensures
        digits_value(s.take(k)) <= digits_value(s),
    decreases s.len() - k,
{
    if k < s.len() {
        lemma_digits_value_grows(s, k + 1);
        assert(s.take(k + 1).drop_last() =~= s.take(k));
    } else {
        assert(s.take(k) =~= s);
    }
}

/// Parses `s` as a `u64` in decimal, as `str::parse::<u64>` does: an
/// optional `+`, then digits; `None` when that shape is missing or the number
/// does not fit.
pub fn parse_u64(s: &str) -> (r: Option<u64>)
    ensures
        r == parsed_u64(s@),
{
    let mut chars: Vec<char> = Vec::new();
    assert(s@.take(0) =~= Seq::<char>::empty());
    for c in it: s.chars()
        invariant
            it.seq() == s@,
            chars@ == s@.take(it.index() as int),
    {
        chars.push(c);
        assert(chars@ =~= s@.take(it.index() + 1 as int));
    }
    assert(chars@ =~= s@);
    let n = chars.len();
    if n == 0 {
        return None;
    }
    let mut i: usize = 0;
    if chars[0] == '+' {
        if n == 1 {
            return None;
        }
        i = 1;
    }
    let first = i;
    let ghost body = s@.subrange(first as int, n as int);
    assert(body =~= (if s@.len() > 1 && s@[0] == '+' {
        s@.drop_first()
    } else {
        s@
    }));
    let mut acc: u64 = 0;
    assert(body.take(0) =~= Seq::<char>::empty());
    while i < n
        invariant
            first <= i <= n,
            n == chars@.len(),
            chars@ == s@,
            n > first,
            body == s@.subrange(first as int, n as int),
            body == (if s@.len() > 1 && s@[0] == '+' {
                s@.drop_first()
            } else {
                s@
            }),
            all_digits(body.take(i - first)),
            acc == digits_value(body.take(i - first)),
        decreases n - i,
    {
        let c = chars[i];
        let ghost k = i - first;
        assert(body[k] == c);
        if !('0' <= c && c <= '9') {
            assert(!all_digits(body));
            return None;
        }
        assert(body.take(k + 1).drop_last() =~= body.take(k));
        assert(all_digits(body.take(k + 1)));
        let d = ((c as u32) - 48) as u64;
        assert(digits_value(body.take(k + 1)) == digits_value(body.take(k)) * 10 + d);
        match acc.checked_mul(10) {
            None => {
                proof {
                    if all_digits(body) {
                        lemma_digits_value_grows(body, k + 1);
                    }
                }
                return None;
            },
            Some(m) => match m.checked_add(d) {
                None => {
                    proof {
                        if all_digits(body) {
                            lemma_digits_value_grows(body, k + 1);
                        }
                    }
                    return None;
                },
                Some(v) => {
                    acc = v;
                },
            },
        }
        i = i + 1;
    }
    assert(body.take(n - first) =~= body);
    Some(acc)
}

/// The number of cases to try: the value of the `ETNA_CASES` setting when
/// it parses as a `u64`, else 1000.
pub fn cases_budget_from(setting: Option<&str>) -> (r: u64)
    ensures
        r == (match setting {
            Some(s) => match parsed_u64(s@) {
                Some(n) => n,
                None => 1000,
            },
            None => 1000,
        }),
{
    match setting {
        Some(s) => match parse_u64(s) {
            Some(n) => n,
            None => 1000,
        },
        None => 1000,
    }
}

} // verus!
