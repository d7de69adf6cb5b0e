//! The one-line JSON report that the runner prints for each run.

use vstd::prelude::*;

use vstd::string::StringExecFns;

use crate::runner::Metrics;

verus! {

/// The lower-case hexadecimal digit for `n` (below 16).
pub open spec fn hex_digit(n: int) -> char {
    if n < 10 {
        (48 + n) as char
    } else {
        (87 + n) as char
    }
}

/// The decimal digit for `n` (below 10).
pub open spec fn decimal_digit(n: int) -> char {
    (48 + n) as char
}

/// The decimal numeral of `n`, without leading zeros ("0" for zero).
pub open spec fn decimal(n: nat) -> Seq<char>
    decreases n,
{
    if n < 10 {
        seq![decimal_digit(n as int)]
    } else {
        decimal(n / 10).push(decimal_digit((n % 10) as int))
    }
}

/// How one character is written inside a JSON string: quote, backslash,
/// newline, carriage return and tab by their short escapes, the other
/// control characters as `\u00XX`, everything else as itself.
pub open spec fn escaped_char(c: char) -> Seq<char> {
    if c == '"' {
        seq!['\\', '"']
    } else if c == '\\' {
        seq!['\\', '\\']
    } else if c == '\n' {
        seq!['\\', 'n']
    } else if c == '\r' {
        seq!['\\', 'r']
    } else if c == '\t' {
        seq!['\\', 't']
    } else if (c as u32) < 0x20 {
        seq!['\\', 'u', '0', '0', hex_digit((c as u32) as int / 16), hex_digit((c as u32) as int % 16)]
    } else {
        seq![c]
    }
}

/// The characters of `s`, each written as `escaped_char` writes it.
pub open spec fn escaped(s: Seq<char>) -> Seq<char>
    decreases s.len(),
{
    if s.len() == 0 {
        Seq::empty()
    } else {
        escaped(s.drop_last()) + escaped_char(s.last())
    }
}

/// `s` as a JSON string literal.
pub open spec fn quoted(s: Seq<char>) -> Seq<char> {
    seq!['"'] + escaped(s) + seq!['"']
}

/// The value of a hexadecimal digit written in lower case.
pub open spec fn hex_value(c: char) -> int {
    if c <= '9' {
        (c as int) - 48
    } else {
        (c as int) - 87
    }
}

/// What a JSON reader makes of the body of a string literal: a backslash
/// followed by `u` and four hexadecimal digits stands for the character with
/// that code, a backslash followed by `n`, `r` or `t` for newline, carriage
/// return or tab, a backslash followed by any other character for that
/// character, and every other character for itself.
pub open spec fn unescaped(t: Seq<char>) -> Seq<char>
    decreases t.len(),
{
    if t.len() == 0 {
        Seq::empty()
    } else if t[0] == '\\' && t.len() >= 2 {
        if t[1] == 'u' && t.len() >= 6 {
            seq![
                (hex_value(t[2]) * 4096 + hex_value(t[3]) * 256 + hex_value(t[4]) * 16 + hex_value(
                    t[5],
                )) as char,
            ] + unescaped(t.subrange(6, t.len() as int))
        } else {
            seq![
                if t[1] == 'n' {
                    '\n'
                } else if t[1] == 'r' {
                    '\r'
                } else if t[1] == 't' {
                    '\t'
                } else {
                    t[1]
                },
            ] + unescaped(t.subrange(2, t.len() as int))
        }
    } else {
        seq![t[0]] + unescaped(t.subrange(1, t.len() as int))
    }
}

/// Reading back one escaped character, followed by anything, gives the
/// character followed by what the rest reads as.
proof fn lemma_unescape_one(c: char, rest: Seq<char>)
    ensures
        unescaped(escaped_char(c) + rest) == seq![c] + unescaped(rest),
{
    let t = escaped_char(c) + rest;
    let k = escaped_char(c).len() as int;
    assert(t.subrange(k, t.len() as int) =~= rest);
    if c == '"' || c == '\\' || c == '\n' || c == '\r' || c == '\t' {
        assert(t[0] == '\\');
    } else if (c as u32) < 0x20 {
        let code = (c as u32) as int;
        assert(hex_value(hex_digit(code / 16)) == code / 16);
        assert(hex_value(hex_digit(code % 16)) == code % 16);
        assert(t[2] == '0' && t[3] == '0');
        assert(hex_value(t[2]) * 4096 + hex_value(t[3]) * 256 + hex_value(t[4]) * 16 + hex_value(
            t[5],
        ) == code);
    } else {
        assert(t[0] == c);
    }
}

/// `escaped` can be read from the front: the first character's escape,
/// then the escape of the rest.
proof fn lemma_escaped_front(s: Seq<char>)
    requires
        s.len() > 0,
    ensures
        escaped(s) == escaped_char(s[0]) + escaped(s.drop_first()),
    decreases s.len(),
{
    if s.len() == 1 {
        assert(s.drop_last() =~= Seq::<char>::empty());
        assert(s.drop_first() =~= Seq::<char>::empty());
        assert(escaped(s.drop_first()) =~= Seq::<char>::empty());
        assert(escaped(s) =~= escaped_char(s[0]) + escaped(s.drop_first()));
    } else {
        let d = s.drop_last();
        lemma_escaped_front(d);
        assert(d.drop_first() =~= s.drop_first().drop_last());
        assert(s.drop_first().last() == s.last());
        assert(escaped(s.drop_first()) == escaped(s.drop_first().drop_last()) + escaped_char(
            s.last(),
        ));
        assert(escaped(s) =~= escaped_char(s[0]) + escaped(s.drop_first()));
    }
}

/// Reading back the escapes gives back the text: escaping loses and alters
/// no character.
pub proof fn law_unescape_inverts_escape(s: Seq<char>)
    ensures
        unescaped(escaped(s)) == s,
    decreases s.len(),
{
    if s.len() == 0 {
        assert(escaped(s) =~= Seq::<char>::empty());
    } else {
        lemma_escaped_front(s);
        law_unescape_inverts_escape(s.drop_first());
        lemma_unescape_one(s[0], escaped(s.drop_first()));
        assert(seq![s[0]] + s.drop_first() =~= s);
    }
}

/// A JSON string literal of `s` is `s`'s escapes between two double quotes,
/// and a reader takes `s` back from between them.
pub proof fn law_quoted_reads_back(s: Seq<char>)
    ensures
        quoted(s).len() >= 2,
        quoted(s)[0] == '"',
        quoted(s)[quoted(s).len() - 1] == '"',
        unescaped(quoted(s).subrange(1, quoted(s).len() - 1)) == s,
{
    assert(quoted(s).subrange(1, quoted(s).len() - 1) =~= escaped(s));
    law_unescape_inverts_escape(s);
}

/// A character that needs no escape (neither a control character, nor a
/// double quote, nor a backslash) is written as itself, and so is a text
/// made only of such characters.
pub proof fn law_plain_text_is_written_as_is(s: Seq<char>)
    requires
        forall|i: int|
            0 <= i < s.len() ==> (#[trigger] s[i] as u32) >= 0x20 && s[i] != '"' && s[i] != '\\',
    ensures
        escaped(s) == s,
    decreases s.len(),
{
    if s.len() > 0 {
        law_plain_text_is_written_as_is(s.drop_last());
        assert(escaped_char(s.last()) == seq![s.last()]);
        assert(s.drop_last().push(s.last()) =~= s);
        assert(escaped(s) =~= s);
    } else {
        assert(escaped(s) =~= s);
    }
}

/// `null`, or the JSON string literal of the text.
pub open spec fn quoted_or_null(s: Option<Seq<char>>) -> Seq<char> {
    match s {
        Some(t) => quoted(t),
        None => "null"@,
    }
}

/// The report line for one run.
pub open spec fn report_line(
    tool: Seq<char>,
    property: Seq<char>,
    status: Seq<char>,
    inputs: nat,
    elapsed_us: nat,
    counterexample: Option<Seq<char>>,
    error: Option<Seq<char>>,
) -> Seq<char> {
    "{\"status\":"@ + quoted(status) + ",\"tests\":"@ + decimal(inputs)
        + ",\"discards\":0,\"time\":"@ + quoted(decimal(elapsed_us) + "us"@)
        + ",\"counterexample\":"@ + quoted_or_null(counterexample) + ",\"error\":"@
        + quoted_or_null(error) + ",\"tool\":"@ + quoted(tool) + ",\"property\":"@ + quoted(
        property,
    ) + "}"@
}

/// `String::push`. Claimed: the character is added at the end.
#[verifier::external_body]
fn push_char(s: &mut String, c: char)
    ensures
        final(s)@ == old(s)@.push(c),
{
    s.push(c)
}

/// The hexadecimal digit for `n`.
fn hex_char(n: u32) -> (c: char)
    requires
        n < 16,
    ensures
        c == hex_digit(n as int),
{
    if n < 10 {
        ((48 + n) as u8) as char
    } else {
        ((87 + n) as u8) as char
    }
}

/// Appends the decimal numeral of `n` to `out`.
fn append_decimal(out: &mut String, n: u128)
    ensures
        final(out)@ == old(out)@ + decimal(n as nat),
    decreases n,
{
    if n >= 10 {
        append_decimal(out, n / 10);
    }
    let d = ((48 + n % 10) as u8) as char;
    push_char(out, d);
    assert(final(out)@ =~= old(out)@ + decimal(n as nat)) by {
        if n >= 10 {
            assert(decimal(n as nat) == decimal((n / 10) as nat).push(decimal_digit((n % 10) as int)));
        }
    }
}

/// `s` as a JSON string literal: in double quotes, with quote, backslash
/// and control characters escaped.
pub fn json_str(s: &str) -> (r: String)
    ensures
        r@ == quoted(s@),
{
    let mut out = String::new();
    push_char(&mut out, '"');
    let ghost text = s@;
    let mut done: Ghost<Seq<char>> = Ghost(Seq::empty());
    assert(text.take(0) =~= Seq::<char>::empty());
    for c in it: s.chars()
        invariant
            it.seq() == text,
            done@ == text.take(it.index() as int),
            out@ == seq!['"'] + escaped(done@),
    {
        proof {
            assert(text.take(it.index() + 1 as int).drop_last() =~= text.take(it.index() as int));
        }
        if c == '"' {
            push_char(&mut out, '\\');
            push_char(&mut out, '"');
        } else if c == '\\' {
            push_char(&mut out, '\\');
            push_char(&mut out, '\\');
        } else if c == '\n' {
            push_char(&mut out, '\\');
            push_char(&mut out, 'n');
        } else if c == '\r' {
            push_char(&mut out, '\\');
            push_char(&mut out, 'r');
        } else if c == '\t' {
            push_char(&mut out, '\\');
            push_char(&mut out, 't');
        } else if (c as u32) < 0x20 {
            push_char(&mut out, '\\');
            push_char(&mut out, 'u');
            push_char(&mut out, '0');
            push_char(&mut out, '0');
            push_char(&mut out, hex_char((c as u32) / 16));
            push_char(&mut out, hex_char((c as u32) % 16));
        } else {
            push_char(&mut out, c);
        }
        proof {
            let next = text.take(it.index() + 1 as int);
            assert(next.last() == c);
            assert(escaped(next) == escaped(done@) + escaped_char(c));
            done@ = next;
            assert(out@ =~= seq!['"'] + escaped(done@));
        }
    }
    assert(done@ =~= text);
    push_char(&mut out, '"');
    assert(out@ =~= quoted(s@));
    out
}

/// Appends `null`, or the JSON string literal of the text.
fn append_quoted_or_null(out: &mut String, s: Option<&str>)
    ensures
        final(out)@ == old(out)@ + quoted_or_null(
            match s {
                Some(t) => Some(t@),
                None => None,
            },
        ),
{
    match s {
        Some(t) => {
            let q = json_str(t);
            out.append(q.as_str());
        },
        None => {
            out.append("null");
        },
    }
}

/// The one-line JSON report of a run: its status, the number of inputs
/// tried, no discards, the time in microseconds, the counterexample and the
/// error (each `null` when absent), the tool and the property.
pub fn json_report(
    tool: &str,
    property: &str,
    status: &str,
    metrics: Metrics,
    counterexample: Option<&str>,
    error: Option<&str>,
) -> (r: String)
    ensures
        r@ == report_line(
            tool@,
            property@,
            status@,
            metrics.inputs as nat,
            metrics.elapsed_us as nat,
            match counterexample {
                Some(t) => Some(t@),
                None => None,
            },
            match error {
                Some(t) => Some(t@),
                None => None,
            },
        ),
{
    let mut time = String::new();
    append_decimal(&mut time, metrics.elapsed_us);
    time.append("us");

    let mut out = String::new();
    out.append("{\"status\":");
    out.append(json_str(status).as_str());
    out.append(",\"tests\":");
    append_decimal(&mut out, metrics.inputs as u128);
    out.append(",\"discards\":0,\"time\":");
    out.append(json_str(time.as_str()).as_str());
    out.append(",\"counterexample\":");
    append_quoted_or_null(&mut out, counterexample);
    out.append(",\"error\":");
    append_quoted_or_null(&mut out, error);
    out.append(",\"tool\":");
    out.append(json_str(tool).as_str());
    out.append(",\"property\":");
    out.append(json_str(property).as_str());
    out.append("}");
    assert(out@ =~= report_line(
        tool@,
        property@,
        status@,
        metrics.inputs as nat,
        metrics.elapsed_us as nat,
        match counterexample {
            Some(t) => Some(t@),
            None => None,
        },
        match error {
            Some(t) => Some(t@),
            None => None,
        },
    ));
    out
}

} // verus!
