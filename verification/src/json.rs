//! JSON text rendering for the wire bodies.
//!
//! Every error response carries the fixed body
//! `{"success":false,"errors":[...]}`. The renderer here builds that text
//! character by character; each executable piece is pinned to a spec
//! function, so the body of a response is a mathematical function of the
//! error value.

use vstd::prelude::*;

verus! {

/// A JSON value carried under a message's `details` key.
///
/// The details of a message hold constraint parameters and offending
/// identifiers; scalars cover every value the taxonomy produces.
#[derive(Debug, PartialEq)]
pub enum DetailValue {
    Null,
    Bool(bool),
    Int(i64),
    Str(String),
}

/// Mathematical model of a detail value: the same shape over `int` and
/// character sequences.
pub enum DetailModel {
    Null,
    Bool(bool),
    Int(int),
    Str(Seq<char>),
}

impl View for DetailValue {
    type V = DetailModel;

    open spec fn view(&self) -> DetailModel {
        match self {
            DetailValue::Null => DetailModel::Null,
            DetailValue::Bool(b) => DetailModel::Bool(*b),
            DetailValue::Int(n) => DetailModel::Int(*n as int),
            DetailValue::Str(s) => DetailModel::Str(s@),
        }
    }
}

impl DeepView for DetailValue {
    type V = DetailModel;

    open spec fn deep_view(&self) -> DetailModel {
        self.view()
    }
}

// ---------------------------------------------------------------------------
// String escaping
// ---------------------------------------------------------------------------

/// Hexadecimal digit for `d`, lower case.
pub open spec fn spec_hex_digit(d: int) -> char {
    if d == 0 {
        '0'
    } else if d == 1 {
        '1'
    } else if d == 2 {
        '2'
    } else if d == 3 {
        '3'
    } else if d == 4 {
        '4'
    } else if d == 5 {
        '5'
    } else if d == 6 {
        '6'
    } else if d == 7 {
        '7'
    } else if d == 8 {
        '8'
    } else if d == 9 {
        '9'
    } else if d == 10 {
        'a'
    } else if d == 11 {
        'b'
    } else if d == 12 {
        'c'
    } else if d == 13 {
        'd'
    } else if d == 14 {
        'e'
    } else {
        'f'
    }
}

/// JSON escape of a single character: quote and backslash are escaped,
/// common control characters use their short forms, the remaining control
/// characters use a `\u00XX` escape, and every other character stands as
/// itself.
pub open spec fn spec_escape_char(c: char) -> Seq<char> {
    if c == '"' {
        seq!['\\', '"']
    } else if c == '\\' {
        seq!['\\', '\\']
    } else if c == '\n' {
        seq!['\\', 'n']
    } else if c == '\r' {
        seq!['\\', 'r']
    } else if c == '\t' {
        seq!['\\', 't']
    } else if (c as u32) < 32 {
        seq!['\\', 'u', '0', '0', spec_hex_digit((c as u32) as int / 16), spec_hex_digit(
            (c as u32) as int % 16,
        )]
    } else {
        seq![c]
    }
}

/// JSON escape of a whole string.
pub open spec fn spec_escape(s: Seq<char>) -> Seq<char>
    decreases s.len(),
{
    if s.len() == 0 {
        Seq::empty()
    } else {
        spec_escape(s.drop_last()) + spec_escape_char(s.last())
    }
}

/// A string in quotes, escaped.
pub open spec fn spec_quoted(s: Seq<char>) -> Seq<char> {
    seq!['"'] + spec_escape(s) + seq!['"']
}

fn hex_digit(d: u32) -> (c: char)
    requires
        d < 16,
    ensures
        c == spec_hex_digit(d as int),
{
    if d == 0 {
        '0'
    } else if d == 1 {
        '1'
    } else if d == 2 {
        '2'
    } else if d == 3 {
        '3'
    } else if d == 4 {
        '4'
    } else if d == 5 {
        '5'
    } else if d == 6 {
        '6'
    } else if d == 7 {
        '7'
    } else if d == 8 {
        '8'
    } else if d == 9 {
        '9'
    } else if d == 10 {
        'a'
    } else if d == 11 {
        'b'
    } else if d == 12 {
        'c'
    } else if d == 13 {
        'd'
    } else if d == 14 {
        'e'
    } else {
        'f'
    }
}

fn push_escaped_char(out: &mut Vec<char>, c: char)
    ensures
        final(out)@ == old(out)@ + spec_escape_char(c),
{
    if c == '"' {
        out.push('\\');
        out.push('"');
    } else if c == '\\' {
        out.push('\\');
        out.push('\\');
    } else if c == '\n' {
        out.push('\\');
        out.push('n');
    } else if c == '\r' {
        out.push('\\');
        out.push('r');
    } else if c == '\t' {
        out.push('\\');
        out.push('t');
    } else if (c as u32) < 32 {
        let code = c as u32;
        out.push('\\');
        out.push('u');
        out.push('0');
        out.push('0');
        out.push(hex_digit(code / 16));
        out.push(hex_digit(code % 16));
    } else {
        out.push(c);
    }
    proof {
        assert(out@ =~= old(out)@ + spec_escape_char(c));
    }
}

/// Appends the escaped form of `s`, without quotes.
fn push_escaped(out: &mut Vec<char>, s: &str)
    ensures
        final(out)@ == old(out)@ + spec_escape(s@),
{
    let n = s.unicode_len();
    let mut i: usize = 0;
    while i < n
        invariant
            n == s@.len(),
            i <= n,
            out@ == old(out)@ + spec_escape(s@.take(i as int)),
        decreases n - i,
    {
        push_escaped_char(out, s.get_char(i));
        proof {
            assert(s@.take(i + 1).drop_last() =~= s@.take(i as int));
            assert(s@.take(i + 1).last() == s@[i as int]);
        }
        i = i + 1;
    }
    proof {
        assert(s@.take(n as int) =~= s@);
    }
}

/// Appends `s` in quotes, escaped.
pub fn push_quoted(out: &mut Vec<char>, s: &str)
    ensures
        final(out)@ == old(out)@ + spec_quoted(s@),
{
    out.push('"');
    push_escaped(out, s);
    out.push('"');
    proof {
        assert(out@ =~= old(out)@ + spec_quoted(s@));
    }
}

// ---------------------------------------------------------------------------
// Decimal integers
// ---------------------------------------------------------------------------

/// Decimal digit for `d`.
pub open spec fn spec_digit(d: int) -> char {
    if d == 0 {
        '0'
    } else if d == 1 {
        '1'
    } else if d == 2 {
        '2'
    } else if d == 3 {
        '3'
    } else if d == 4 {
        '4'
    } else if d == 5 {
        '5'
    } else if d == 6 {
        '6'
    } else if d == 7 {
        '7'
    } else if d == 8 {
        '8'
    } else {
        '9'
    }
}

/// Decimal form of a non-negative integer, without sign or leading zeros.
pub open spec fn spec_dec_nat(n: int) -> Seq<char>
    decreases n,
{
    if n < 10 {
        seq![spec_digit(n)]
    } else {
        spec_dec_nat(n / 10) + seq![spec_digit(n % 10)]
    }
}

/// Decimal form of a signed integer.
pub open spec fn spec_dec_int(n: int) -> Seq<char> {
    if n < 0 {
        seq!['-'] + spec_dec_nat(-n)
    } else {
        spec_dec_nat(n)
    }
}

fn digit(d: u64) -> (c: char)
    requires
        d < 10,
    ensures
        c == spec_digit(d as int),
{
    if d == 0 {
        '0'
    } else if d == 1 {
        '1'
    } else if d == 2 {
        '2'
    } else if d == 3 {
        '3'
    } else if d == 4 {
        '4'
    } else if d == 5 {
        '5'
    } else if d == 6 {
        '6'
    } else if d == 7 {
        '7'
    } else if d == 8 {
        '8'
    } else {
        '9'
    }
}

fn push_dec_u64(out: &mut Vec<char>, n: u64)
    ensures
        final(out)@ == old(out)@ + spec_dec_nat(n as int),
    decreases n,
{
    if n < 10 {
        out.push(digit(n));
        proof {
            assert(out@ =~= old(out)@ + spec_dec_nat(n as int));
        }
    } else {
        push_dec_u64(out, n / 10);
        out.push(digit(n % 10));
        proof {
            assert(out@ =~= old(out)@ + spec_dec_nat(n as int));
        }
    }
}

/// Appends the decimal form of `n`.
pub fn push_dec_i64(out: &mut Vec<char>, n: i64)
    ensures
        final(out)@ == old(out)@ + spec_dec_int(n as int),
{
    if n < 0 {
        out.push('-');
        let magnitude: u64 = (-(n as i128)) as u64;
        proof {
            assert(magnitude == -(n as int));
        }
        push_dec_u64(out, magnitude);
        proof {
            assert(out@ =~= old(out)@ + spec_dec_int(n as int));
        }
    } else {
        push_dec_u64(out, n as u64);
    }
}

// ---------------------------------------------------------------------------
// Scalar values and detail maps
// ---------------------------------------------------------------------------

/// JSON text of one detail value.
pub open spec fn spec_render_value(v: DetailModel) -> Seq<char> {
    match v {
        DetailModel::Null => "null"@,
        DetailModel::Bool(b) => if b {
            "true"@
        } else {
            "false"@
        },
        DetailModel::Int(n) => spec_dec_int(n),
        DetailModel::Str(s) => spec_quoted(s),
    }
}

/// Appends the JSON text of one detail value.
pub fn push_value(out: &mut Vec<char>, v: &DetailValue)
    ensures
        final(out)@ == old(out)@ + spec_render_value(v@),
{
    match v {
        DetailValue::Null => {
            push_str(out, "null");
        },
        DetailValue::Bool(b) => {
            if *b {
                push_str(out, "true");
            } else {
                push_str(out, "false");
            }
        },
        DetailValue::Int(n) => {
            push_dec_i64(out, *n);
        },
        DetailValue::Str(s) => {
            push_quoted(out, s.as_str());
        },
    }
}

/// Appends every character of a literal piece of syntax.
pub fn push_str(out: &mut Vec<char>, s: &str)
    ensures
        final(out)@ == old(out)@ + s@,
{
    let n = s.unicode_len();
    let mut i: usize = 0;
    while i < n
        invariant
            n == s@.len(),
            i <= n,
            out@ == old(out)@ + s@.take(i as int),
        decreases n - i,
    {
        out.push(s.get_char(i));
        proof {
            assert(s@.take(i + 1) =~= s@.take(i as int).push(s@[i as int]));
            assert(out@ =~= old(out)@ + s@.take(i + 1));
        }
        i = i + 1;
    }
    proof {
        assert(s@.take(n as int) =~= s@);
    }
}

/// JSON text of the entries of a details object, comma separated,
/// without the braces.
pub open spec fn spec_render_entries(d: Seq<(Seq<char>, DetailModel)>) -> Seq<char>
    decreases d.len(),
{
    if d.len() == 0 {
        Seq::empty()
    } else if d.len() == 1 {
        spec_render_entry(d[0])
    } else {
        spec_render_entries(d.drop_last()) + seq![','] + spec_render_entry(d.last())
    }
}

/// JSON text of one `"key":value` entry.
pub open spec fn spec_render_entry(e: (Seq<char>, DetailModel)) -> Seq<char> {
    spec_quoted(e.0) + seq![':'] + spec_render_value(e.1)
}

/// JSON text of a whole details object, braces included.
pub open spec fn spec_render_details(d: Seq<(Seq<char>, DetailModel)>) -> Seq<char> {
    seq!['{'] + spec_render_entries(d) + seq!['}']
}

/// Appends the JSON object holding the given entries.
pub fn push_details(out: &mut Vec<char>, d: &Vec<(String, DetailValue)>)
    ensures
        final(out)@ == old(out)@ + spec_render_details(d.deep_view()),
{
    out.push('{');
    let n = d.len();
    let mut i: usize = 0;
    while i < n
        invariant
            n == d@.len(),
            i <= n,
            out@ == old(out)@ + seq!['{'] + spec_render_entries(d.deep_view().take(i as int)),
        decreases n - i,
    {
        if i > 0 {
            out.push(',');
        }
        push_quoted(out, d[i].0.as_str());
        out.push(':');
        push_value(out, &d[i].1);
        proof {
            let dv = d.deep_view();
            assert(dv.len() == d@.len());
            assert(dv[i as int] == (d@[i as int].0@, d@[i as int].1.deep_view()));
            assert(dv.take(i + 1).drop_last() =~= dv.take(i as int));
            assert(dv.take(i + 1).last() == dv[i as int]);
            if i == 0 {
                assert(dv.take(1)[0] == dv[0]);
            }
            assert(out@ =~= old(out)@ + seq!['{'] + spec_render_entries(dv.take(i + 1)));
        }
        i = i + 1;
    }
    out.push('}');
    proof {
        assert(d.deep_view().take(n as int) =~= d.deep_view());
        assert(out@ =~= old(out)@ + spec_render_details(d.deep_view()));
    }
}

} // verus!
