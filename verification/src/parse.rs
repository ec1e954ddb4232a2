//! Reading a rendered message back.
//!
//! The renderer turns a message into JSON text; the parser here reads
//! that text back into a message model, and the round-trip theorem at the
//! bottom proves the reading exact: parsing a rendered message returns
//! the model it was rendered from, with the optional fields absent
//! exactly when they were absent.

use crate::json::{spec_escape, spec_escape_char, spec_quoted};
use vstd::prelude::*;

verus! {

/// A lower-case hexadecimal digit character.
pub open spec fn spec_is_hex(c: char) -> bool {
    spec_is_digit(c) || c == 'a' || c == 'b' || c == 'c' || c == 'd' || c == 'e' || c == 'f'
}

/// The value of a lower-case hexadecimal digit character.
pub open spec fn spec_hex_val(c: char) -> int {
    if c == 'a' {
        10
    } else if c == 'b' {
        11
    } else if c == 'c' {
        12
    } else if c == 'd' {
        13
    } else if c == 'e' {
        14
    } else if c == 'f' {
        15
    } else {
        spec_digit_val(c)
    }
}

proof fn lemma_low_code_char(c: char)
    requires
        (c as u32) < 32,
    ensures
        ((((c as u32) as int) as u8) as char) == c,
{
    assert((((c as u32) as u8) as char) == c);
    assert(((c as u32) as int) as u8 == (c as u32) as u8);
}

proof fn lemma_hex_digit_inverse(d: int)
    requires
        0 <= d < 16,
    ensures
        spec_is_hex(crate::json::spec_hex_digit(d)),
        spec_hex_val(crate::json::spec_hex_digit(d)) == d,
{
}

/// The escape of a string, peeled from the front.
proof fn lemma_escape_front(s: Seq<char>)
    requires
        s.len() > 0,
    ensures
        spec_escape(s) == spec_escape_char(s[0]) + spec_escape(s.skip(1)),
    decreases s.len(),
{
    if s.len() == 1 {
        assert(s.drop_last().len() == 0);
        assert(spec_escape(s.drop_last()) == Seq::<char>::empty());
        assert(s.skip(1).len() == 0);
        assert(spec_escape(s.skip(1)) == Seq::<char>::empty());
        assert(spec_escape(s) =~= spec_escape_char(s[0]) + spec_escape(s.skip(1)));
    } else {
        lemma_escape_front(s.drop_last());
        assert(s.drop_last()[0] == s[0]);
        assert(s.skip(1).drop_last() =~= s.drop_last().skip(1));
        assert(s.skip(1).last() == s.last());
        assert(spec_escape(s.skip(1)) == spec_escape(s.skip(1).drop_last()) + spec_escape_char(
            s.skip(1).last(),
        ));
        assert(spec_escape(s) =~= spec_escape_char(s[0]) + spec_escape(s.skip(1)));
    }
}

/// Reads the body of a JSON string up to its closing quote, undoing the
/// short escapes and the `\u00XX` escapes of control characters.
pub open spec fn spec_parse_string_body(s: Seq<char>) -> Option<(Seq<char>, Seq<char>)>
    decreases s.len(),
{
    if s.len() == 0 {
        None
    } else if s[0] == '"' {
        Some((Seq::empty(), s.skip(1)))
    } else if s[0] == '\\' {
        if s.len() >= 2 && (s[1] == '"' || s[1] == '\\' || s[1] == 'n' || s[1] == 'r' || s[1]
            == 't') {
            let c = if s[1] == '"' {
                '"'
            } else if s[1] == '\\' {
                '\\'
            } else if s[1] == 'n' {
                '\n'
            } else if s[1] == 'r' {
                '\r'
            } else {
                '\t'
            };
            match spec_parse_string_body(s.skip(2)) {
                Some((t, rest)) => Some((seq![c] + t, rest)),
                None => None,
            }
        } else if s.len() >= 6 && s[1] == 'u' && s[2] == '0' && s[3] == '0' && spec_is_hex(s[4])
            && spec_is_hex(s[5]) {
            let code = 16 * spec_hex_val(s[4]) + spec_hex_val(s[5]);
            match spec_parse_string_body(s.skip(6)) {
                Some((t, rest)) => Some((seq![(code as u8) as char] + t, rest)),
                None => None,
            }
        } else {
            None
        }
    } else {
        match spec_parse_string_body(s.skip(1)) {
            Some((t, rest)) => Some((seq![s[0]] + t, rest)),
            None => None,
        }
    }
}

/// Reads a quoted JSON string, quotes and escapes undone.
pub open spec fn spec_parse_quoted(s: Seq<char>) -> Option<(Seq<char>, Seq<char>)> {
    if s.len() > 0 && s[0] == '"' {
        spec_parse_string_body(s.skip(1))
    } else {
        None
    }
}

#[verifier::rlimit(40)]
proof fn lemma_parse_body_round(x: Seq<char>, rest: Seq<char>)
    ensures
        spec_parse_string_body(spec_escape(x) + seq!['"'] + rest) == Some((x, rest)),
    decreases x.len(),
{
    let s = spec_escape(x) + seq!['"'] + rest;
    if x.len() == 0 {
        assert(spec_escape(x) == Seq::<char>::empty());
        assert(s =~= seq!['"'] + rest);
        assert(s[0] == '"');
        assert(s.skip(1) =~= rest);
    } else {
        lemma_escape_front(x);
        let c = x[0];
        let e = spec_escape_char(c);
        let tail = spec_escape(x.skip(1)) + seq!['"'] + rest;
        assert(s =~= e + tail);
        lemma_parse_body_round(x.skip(1), rest);
        if c == '"' {
            assert(e =~= seq!['\\', '"']);
            assert(s[0] == '\\' && s[1] == '"');
            assert(s.skip(2) =~= tail);
            assert(seq![c] + x.skip(1) =~= x);
        } else if c == '\\' {
            assert(e =~= seq!['\\', '\\']);
            assert(s[0] == '\\' && s[1] == '\\');
            assert(s.skip(2) =~= tail);
            assert(seq![c] + x.skip(1) =~= x);
        } else if c == '\n' {
            assert(e =~= seq!['\\', 'n']);
            assert(s[0] == '\\' && s[1] == 'n');
            assert(s.skip(2) =~= tail);
            assert(seq![c] + x.skip(1) =~= x);
        } else if c == '\r' {
            assert(e =~= seq!['\\', 'r']);
            assert(s[0] == '\\' && s[1] == 'r');
            assert(s.skip(2) =~= tail);
            assert(seq![c] + x.skip(1) =~= x);
        } else if c == '\t' {
            assert(e =~= seq!['\\', 't']);
            assert(s[0] == '\\' && s[1] == 't');
            assert(s.skip(2) =~= tail);
            assert(seq![c] + x.skip(1) =~= x);
        } else if (c as u32) < 32 {
            let code = (c as u32) as int;
            assert(e =~= seq!['\\', 'u', '0', '0', crate::json::spec_hex_digit(code / 16), crate::json::spec_hex_digit(
                code % 16,
            )]);
            assert(s[0] == '\\' && s[1] == 'u');
            assert(s[2] == '0' && s[3] == '0');
            assert(s[4] == crate::json::spec_hex_digit(code / 16));
            assert(s[5] == crate::json::spec_hex_digit(code % 16));
            lemma_hex_digit_inverse(code / 16);
            lemma_hex_digit_inverse(code % 16);
            assert(16 * spec_hex_val(s[4]) + spec_hex_val(s[5]) == code);
            lemma_low_code_char(c);
            assert(((code as u8) as char) == c);
            assert(s.skip(6) =~= tail);
            assert(seq![c] + x.skip(1) =~= x);
        } else {
            assert(e =~= seq![c]);
            assert(s[0] == c);
            assert(c != '"' && c != '\\');
            assert(s.skip(1) =~= tail);
            assert(seq![c] + x.skip(1) =~= x);
        }
    }
}

/// Reading back a quoted string gives exactly the string that was
/// rendered, whatever follows it.
pub proof fn lemma_parse_quoted_round(x: Seq<char>, rest: Seq<char>)
    ensures
        spec_parse_quoted(spec_quoted(x) + rest) == Some((x, rest)),
{
    let s = spec_quoted(x) + rest;
    assert(s =~= seq!['"'] + (spec_escape(x) + seq!['"'] + rest));
    assert(s[0] == '"');
    assert(s.skip(1) =~= spec_escape(x) + seq!['"'] + rest);
    lemma_parse_body_round(x, rest);
}

// ---------------------------------------------------------------------------
// Decimal integers
// ---------------------------------------------------------------------------

/// A decimal digit character.
pub open spec fn spec_is_digit(c: char) -> bool {
    c == '0' || c == '1' || c == '2' || c == '3' || c == '4' || c == '5' || c == '6' || c == '7'
        || c == '8' || c == '9'
}

/// The value of a digit character.
pub open spec fn spec_digit_val(c: char) -> int {
    if c == '0' {
        0
    } else if c == '1' {
        1
    } else if c == '2' {
        2
    } else if c == '3' {
        3
    } else if c == '4' {
        4
    } else if c == '5' {
        5
    } else if c == '6' {
        6
    } else if c == '7' {
        7
    } else if c == '8' {
        8
    } else {
        9
    }
}

/// Length of the run of digits at the front of `s`.
pub open spec fn spec_digits_len(s: Seq<char>) -> nat
    decreases s.len(),
{
    if s.len() == 0 {
        0
    } else if !spec_is_digit(s[0]) {
        0
    } else {
        1 + spec_digits_len(s.skip(1))
    }
}

/// The value of a run of digits.
pub open spec fn spec_digits_value(s: Seq<char>) -> int
    decreases s.len(),
{
    if s.len() == 0 {
        0
    } else {
        spec_digits_value(s.drop_last()) * 10 + spec_digit_val(s.last())
    }
}

proof fn lemma_digits_len_is(s: Seq<char>, k: int)
    requires
        0 <= k <= s.len(),
        forall|j: int| 0 <= j < k ==> spec_is_digit(s[j]),
        k < s.len() ==> !spec_is_digit(s[k]),
    ensures
        spec_digits_len(s) == k,
    decreases k,
{
    if s.len() == 0 {
    } else if k == 0 {
    } else {
        assert(spec_is_digit(s[0]));
        assert forall|j: int| 0 <= j < k - 1 implies spec_is_digit(s.skip(1)[j]) by {
            assert(s.skip(1)[j] == s[j + 1]);
        }
        if k - 1 < s.skip(1).len() {
            assert(s.skip(1)[k - 1] == s[k]);
        }
        lemma_digits_len_is(s.skip(1), k - 1);
    }
}

proof fn lemma_dec_nat_digits(n: int)
    requires
        n >= 0,
    ensures
        crate::json::spec_dec_nat(n).len() >= 1,
        forall|i: int|
            0 <= i < crate::json::spec_dec_nat(n).len() ==> spec_is_digit(
                #[trigger] crate::json::spec_dec_nat(n)[i],
            ),
    decreases n,
{
    if n < 10 {
        assert(spec_is_digit(crate::json::spec_digit(n)));
    } else {
        lemma_dec_nat_digits(n / 10);
        assert(spec_is_digit(crate::json::spec_digit(n % 10)));
        assert forall|i: int| 0 <= i < crate::json::spec_dec_nat(n).len() implies spec_is_digit(
            crate::json::spec_dec_nat(n)[i],
        ) by {
            if i < crate::json::spec_dec_nat(n / 10).len() {
                assert(crate::json::spec_dec_nat(n)[i] == crate::json::spec_dec_nat(n / 10)[i]);
            } else {
                assert(crate::json::spec_dec_nat(n)[i] == crate::json::spec_digit(n % 10));
            }
        }
    }
}

proof fn lemma_digits_value_round(n: int)
    requires
        n >= 0,
    ensures
        spec_digits_value(crate::json::spec_dec_nat(n)) == n,
    decreases n,
{
    let d = crate::json::spec_dec_nat(n);
    if n < 10 {
        assert(d =~= seq![crate::json::spec_digit(n)]);
        assert(d.drop_last() =~= Seq::<char>::empty());
        assert(spec_digits_value(d.drop_last()) == 0);
        assert(d.last() == crate::json::spec_digit(n));
        assert(spec_digit_val(crate::json::spec_digit(n)) == n);
        assert(spec_digits_value(d) == 0 * 10 + n);
    } else {
        lemma_digits_value_round(n / 10);
        assert(d == crate::json::spec_dec_nat(n / 10) + seq![crate::json::spec_digit(n % 10)]);
        assert(d.len() >= 1);
        assert(d.drop_last() =~= crate::json::spec_dec_nat(n / 10));
        assert(spec_digits_value(d.drop_last()) == spec_digits_value(
            crate::json::spec_dec_nat(n / 10),
        ));
        assert(d.last() == crate::json::spec_digit(n % 10));
        assert(spec_digit_val(crate::json::spec_digit(n % 10)) == n % 10);
        assert(spec_digits_value(d) == spec_digits_value(d.drop_last()) * 10 + spec_digit_val(
            d.last(),
        ));
        assert(spec_digits_value(d) == (n / 10) * 10 + n % 10);
        assert((n / 10) * 10 + n % 10 == n);
    }
}

/// Reads a decimal integer, an optional leading minus included.
pub open spec fn spec_parse_int(s: Seq<char>) -> Option<(int, Seq<char>)> {
    if s.len() > 0 && s[0] == '-' {
        let k = spec_digits_len(s.skip(1)) as int;
        if k > 0 {
            Some((-spec_digits_value(s.skip(1).take(k)), s.skip(1).skip(k)))
        } else {
            None
        }
    } else {
        let k = spec_digits_len(s) as int;
        if k > 0 {
            Some((spec_digits_value(s.take(k)), s.skip(k)))
        } else {
            None
        }
    }
}

proof fn lemma_parse_nat_round(n: int, rest: Seq<char>)
    requires
        n >= 0,
        rest.len() > 0 ==> !spec_is_digit(rest[0]),
    ensures
        spec_parse_int(crate::json::spec_dec_nat(n) + rest) == Some((n, rest)),
{
    let d = crate::json::spec_dec_nat(n);
    let s = d + rest;
    lemma_dec_nat_digits(n);
    assert(s[0] == d[0]);
    assert(spec_is_digit(s[0]));
    assert(s[0] != '-');
    assert forall|j: int| 0 <= j < d.len() implies spec_is_digit(s[j]) by {
        assert(s[j] == d[j]);
    }
    if d.len() < s.len() {
        assert(s[d.len() as int] == rest[0]);
    }
    lemma_digits_len_is(s, d.len() as int);
    assert(s.take(d.len() as int) =~= d);
    lemma_digits_value_round(n);
    assert(s.skip(d.len() as int) =~= rest);
}

proof fn lemma_parse_int_round(n: int, rest: Seq<char>)
    requires
        rest.len() > 0 ==> !spec_is_digit(rest[0]),
    ensures
        spec_parse_int(crate::json::spec_dec_int(n) + rest) == Some((n, rest)),
{
    if n >= 0 {
        assert(crate::json::spec_dec_int(n) + rest =~= crate::json::spec_dec_nat(n) + rest);
        lemma_parse_nat_round(n, rest);
    } else {
        let d = crate::json::spec_dec_nat(-n);
        let s = crate::json::spec_dec_int(n) + rest;
        assert(s =~= seq!['-'] + (d + rest));
        assert(s[0] == '-');
        assert(s.skip(1) =~= d + rest);
        lemma_dec_nat_digits(-n);
        assert forall|j: int| 0 <= j < d.len() implies spec_is_digit((d + rest)[j]) by {
            assert((d + rest)[j] == d[j]);
        }
        if d.len() < (d + rest).len() {
            assert((d + rest)[d.len() as int] == rest[0]);
        }
        lemma_digits_len_is(d + rest, d.len() as int);
        let k = spec_digits_len(s.skip(1)) as int;
        assert(k == d.len());
        assert(s.skip(1).take(k) =~= d);
        lemma_digits_value_round(-n);
        assert(spec_digits_value(s.skip(1).take(k)) == -n);
        assert(s.skip(1).skip(k) =~= rest);
    }
}

// ---------------------------------------------------------------------------
// Scalar values
// ---------------------------------------------------------------------------

/// Reads one JSON scalar: a string, `null`, a boolean, or an integer.
pub open spec fn spec_parse_value(s: Seq<char>) -> Option<(crate::json::DetailModel, Seq<char>)> {
    if s.len() == 0 {
        None
    } else if s[0] == '"' {
        match spec_parse_quoted(s) {
            Some((t, rest)) => Some((crate::json::DetailModel::Str(t), rest)),
            None => None,
        }
    } else if s[0] == 'n' {
        if s.len() >= 4 && s.take(4) == "null"@ {
            Some((crate::json::DetailModel::Null, s.skip(4)))
        } else {
            None
        }
    } else if s[0] == 't' {
        if s.len() >= 4 && s.take(4) == "true"@ {
            Some((crate::json::DetailModel::Bool(true), s.skip(4)))
        } else {
            None
        }
    } else if s[0] == 'f' {
        if s.len() >= 5 && s.take(5) == "false"@ {
            Some((crate::json::DetailModel::Bool(false), s.skip(5)))
        } else {
            None
        }
    } else {
        match spec_parse_int(s) {
            Some((n, rest)) => Some((crate::json::DetailModel::Int(n), rest)),
            None => None,
        }
    }
}

proof fn lemma_parse_value_round(v: crate::json::DetailModel, rest: Seq<char>)
    requires
        rest.len() > 0,
        rest[0] == ',' || rest[0] == '}',
    ensures
        spec_parse_value(crate::json::spec_render_value(v) + rest) == Some((v, rest)),
{
    let s = crate::json::spec_render_value(v) + rest;
    match v {
        crate::json::DetailModel::Null => {
            reveal_strlit("null");
            assert(s[0] == 'n');
            assert(s.take(4) =~= "null"@);
            assert(s.skip(4) =~= rest);
        },
        crate::json::DetailModel::Bool(b) => {
            if b {
                reveal_strlit("true");
                assert(s[0] == 't');
                assert(s.take(4) =~= "true"@);
                assert(s.skip(4) =~= rest);
            } else {
                reveal_strlit("false");
                assert(s[0] == 'f');
                assert(s.take(5) =~= "false"@);
                assert(s.skip(5) =~= rest);
            }
        },
        crate::json::DetailModel::Int(n) => {
            let d = crate::json::spec_dec_int(n);
            if n >= 0 {
                lemma_dec_nat_digits(n);
                assert(s[0] == d[0]);
                assert(spec_is_digit(s[0]));
            } else {
                assert(d[0] == '-');
                assert(s[0] == '-');
            }
            assert(s[0] != '"' && s[0] != 'n' && s[0] != 't' && s[0] != 'f');
            assert(!spec_is_digit(rest[0]));
            lemma_parse_int_round(n, rest);
        },
        crate::json::DetailModel::Str(t) => {
            assert(s =~= spec_quoted(t) + rest);
            assert(s[0] == '"');
            lemma_parse_quoted_round(t, rest);
        },
    }
}

// ---------------------------------------------------------------------------
// Details objects
// ---------------------------------------------------------------------------

/// The rendered entries, peeled from the front.
proof fn lemma_entries_front(d: Seq<(Seq<char>, crate::json::DetailModel)>)
    requires
        d.len() > 0,
    ensures
        crate::json::spec_render_entries(d) == crate::json::spec_render_entry(d[0]) + (if d.len()
            > 1 {
            seq![','] + crate::json::spec_render_entries(d.skip(1))
        } else {
            Seq::empty()
        }),
    decreases d.len(),
{
    if d.len() == 1 {
        assert(crate::json::spec_render_entries(d) =~= crate::json::spec_render_entry(d[0])
            + Seq::empty());
    } else {
        lemma_entries_front(d.drop_last());
        assert(d.drop_last()[0] == d[0]);
        assert(d.skip(1).drop_last() =~= d.drop_last().skip(1));
        assert(d.skip(1).last() == d.last());
        if d.len() == 2 {
            assert(d.skip(1).len() == 1);
            assert(d.skip(1)[0] == d[1]);
            assert(crate::json::spec_render_entries(d.skip(1)) == crate::json::spec_render_entry(
                d[1],
            ));
            assert(crate::json::spec_render_entries(d) =~= crate::json::spec_render_entry(d[0]) + (
            seq![','] + crate::json::spec_render_entries(d.skip(1))));
        } else {
            assert(crate::json::spec_render_entries(d.skip(1))
                == crate::json::spec_render_entries(d.skip(1).drop_last()) + seq![',']
                + crate::json::spec_render_entry(d.skip(1).last()));
            assert(crate::json::spec_render_entries(d) =~= crate::json::spec_render_entry(d[0]) + (
            seq![','] + crate::json::spec_render_entries(d.skip(1))));
        }
    }
}

/// Reads one `"key":value` entry.
pub open spec fn spec_parse_entry(s: Seq<char>) -> Option<
    ((Seq<char>, crate::json::DetailModel), Seq<char>),
> {
    match spec_parse_quoted(s) {
        Some((k, rest)) => if rest.len() > 0 && rest[0] == ':' {
            match spec_parse_value(rest.skip(1)) {
                Some((v, rest2)) => Some(((k, v), rest2)),
                None => None,
            }
        } else {
            None
        },
        None => None,
    }
}

proof fn lemma_parse_entry_round(e: (Seq<char>, crate::json::DetailModel), rest: Seq<char>)
    requires
        rest.len() > 0,
        rest[0] == ',' || rest[0] == '}',
    ensures
        spec_parse_entry(crate::json::spec_render_entry(e) + rest) == Some((e, rest)),
{
    let s = crate::json::spec_render_entry(e) + rest;
    let mid = seq![':'] + crate::json::spec_render_value(e.1) + rest;
    assert(s =~= spec_quoted(e.0) + mid);
    lemma_parse_quoted_round(e.0, mid);
    assert(mid[0] == ':');
    assert(mid.skip(1) =~= crate::json::spec_render_value(e.1) + rest);
    lemma_parse_value_round(e.1, rest);
}

/// Reads a comma-separated run of entries; the fuel bounds the
/// recursion and is ample whenever it is at least the entry count.
pub open spec fn spec_parse_entries(s: Seq<char>, fuel: nat) -> Option<
    (Seq<(Seq<char>, crate::json::DetailModel)>, Seq<char>),
>
    decreases fuel,
{
    if fuel == 0 {
        None
    } else {
        match spec_parse_entry(s) {
            Some((e, rest)) => if rest.len() > 0 && rest[0] == ',' {
                match spec_parse_entries(rest.skip(1), (fuel - 1) as nat) {
                    Some((es, rest2)) => Some((seq![e] + es, rest2)),
                    None => None,
                }
            } else {
                Some((seq![e], rest))
            },
            None => None,
        }
    }
}

proof fn lemma_parse_entries_round(
    d: Seq<(Seq<char>, crate::json::DetailModel)>,
    rest: Seq<char>,
    fuel: nat,
)
    requires
        d.len() > 0,
        fuel >= d.len(),
        rest.len() > 0,
        rest[0] == '}',
    ensures
        spec_parse_entries(crate::json::spec_render_entries(d) + rest, fuel) == Some((d, rest)),
    decreases d.len(),
{
    let s = crate::json::spec_render_entries(d) + rest;
    lemma_entries_front(d);
    if d.len() == 1 {
        assert(s =~= crate::json::spec_render_entry(d[0]) + rest);
        lemma_parse_entry_round(d[0], rest);
        assert(seq![d[0]] =~= d);
    } else {
        let tail = seq![','] + crate::json::spec_render_entries(d.skip(1)) + rest;
        assert(s =~= crate::json::spec_render_entry(d[0]) + tail);
        lemma_parse_entry_round(d[0], tail);
        assert(tail[0] == ',');
        assert(tail.skip(1) =~= crate::json::spec_render_entries(d.skip(1)) + rest);
        lemma_parse_entries_round(d.skip(1), rest, (fuel - 1) as nat);
        assert(seq![d[0]] + d.skip(1) =~= d);
    }
}

/// Reads a whole details object, braces included.
pub open spec fn spec_parse_details(s: Seq<char>) -> Option<
    (Seq<(Seq<char>, crate::json::DetailModel)>, Seq<char>),
> {
    if s.len() >= 2 && s[0] == '{' {
        if s[1] == '}' {
            Some((Seq::empty(), s.skip(2)))
        } else {
            match spec_parse_entries(s.skip(1), s.len()) {
                Some((es, rest)) => if rest.len() > 0 && rest[0] == '}' {
                    Some((es, rest.skip(1)))
                } else {
                    None
                },
                None => None,
            }
        }
    } else {
        None
    }
}

/// Every rendered entry run is at least as long as its entry count.
proof fn lemma_entries_len(d: Seq<(Seq<char>, crate::json::DetailModel)>)
    ensures
        crate::json::spec_render_entries(d).len() >= d.len(),
    decreases d.len(),
{
    if d.len() == 0 {
    } else if d.len() == 1 {
        assert(crate::json::spec_render_entry(d[0]).len() >= 1);
    } else {
        lemma_entries_len(d.drop_last());
        assert(crate::json::spec_render_entry(d.last()).len() >= 1);
    }
}

proof fn lemma_parse_details_round(d: Seq<(Seq<char>, crate::json::DetailModel)>, rest: Seq<char>)
    requires
        rest.len() > 0,
        rest[0] == '}',
    ensures
        spec_parse_details(crate::json::spec_render_details(d) + rest) == Some((d, rest)),
{
    let s = crate::json::spec_render_details(d) + rest;
    assert(s =~= seq!['{'] + crate::json::spec_render_entries(d) + seq!['}'] + rest);
    assert(s[0] == '{');
    if d.len() == 0 {
        assert(crate::json::spec_render_entries(d) == Seq::<char>::empty());
        assert(s[1] == '}');
        assert(s.skip(2) =~= rest);
    } else {
        lemma_entries_front(d);
        assert(s[1] == crate::json::spec_render_entries(d)[0]);
        assert(crate::json::spec_render_entries(d)[0] == crate::json::spec_render_entry(d[0])[0]);
        assert(crate::json::spec_render_entry(d[0])[0] == '"');
        assert(s[1] != '}');
        let inner = crate::json::spec_render_entries(d) + (seq!['}'] + rest);
        assert(s.skip(1) =~= inner);
        lemma_entries_len(d);
        assert(s.len() >= d.len());
        lemma_parse_entries_round(d, seq!['}'] + rest, s.len() as nat);
        assert((seq!['}'] + rest)[0] == '}');
        assert((seq!['}'] + rest).skip(1) =~= rest);
    }
}

// ---------------------------------------------------------------------------
// Whole messages
// ---------------------------------------------------------------------------

/// What may follow a parsed code: the end of the object, or the
/// `message` field, or the `details` field.
pub open spec fn spec_parse_after_code(code: Seq<char>, rest: Seq<char>) -> Option<
    crate::message::MessageModel,
> {
    if rest.len() == 1 && rest[0] == '}' {
        Some(crate::message::MessageModel { code, content: None, details: None })
    } else if rest.len() >= 11 && rest.take(11) == ",\"message\":"@ {
        match spec_parse_quoted(rest.skip(11)) {
            Some((content, rest2)) => if rest2.len() == 1 && rest2[0] == '}' {
                Some(
                    crate::message::MessageModel { code, content: Some(content), details: None },
                )
            } else if rest2.len() >= 11 && rest2.take(11) == ",\"details\":"@ {
                match spec_parse_details(rest2.skip(11)) {
                    Some((d, rest3)) => if rest3.len() == 1 && rest3[0] == '}' {
                        Some(
                            crate::message::MessageModel {
                                code,
                                content: Some(content),
                                details: Some(d),
                            },
                        )
                    } else {
                        None
                    },
                    None => None,
                }
            } else {
                None
            },
            None => None,
        }
    } else if rest.len() >= 11 && rest.take(11) == ",\"details\":"@ {
        match spec_parse_details(rest.skip(11)) {
            Some((d, rest3)) => if rest3.len() == 1 && rest3[0] == '}' {
                Some(crate::message::MessageModel { code, content: None, details: Some(d) })
            } else {
                None
            },
            None => None,
        }
    } else {
        None
    }
}

/// Reads a whole rendered message back into its model.
pub open spec fn spec_parse_message(s: Seq<char>) -> Option<crate::message::MessageModel> {
    if s.len() >= 8 && s.take(8) == "{\"code\":"@ {
        match spec_parse_quoted(s.skip(8)) {
            Some((code, rest)) => spec_parse_after_code(code, rest),
            None => None,
        }
    } else {
        None
    }
}

/// Round trip: a message rendered to JSON and parsed back preserves the
/// code exactly; the text and the details come back equal when present,
/// and absent when absent.
#[verifier::rlimit(100)]
#[verifier::spinoff_prover]
pub proof fn lemma_message_round_trip(m: crate::message::MessageModel)
    ensures
        spec_parse_message(crate::message::spec_render_message(m)) == Some(m),
{
    reveal_strlit("{\"code\":");
    reveal_strlit(",\"message\":");
    reveal_strlit(",\"details\":");
    reveal_strlit("}");
    let s = crate::message::spec_render_message(m);
    let a = match m.content {
        Some(c) => ",\"message\":"@ + spec_quoted(c),
        None => Seq::<char>::empty(),
    };
    let b = match m.details {
        Some(d) => ",\"details\":"@ + crate::json::spec_render_details(d),
        None => Seq::<char>::empty(),
    };
    let tail = a + b + "}"@;
    assert(s =~= "{\"code\":"@ + (spec_quoted(m.code) + tail));
    assert(s.take(8) =~= "{\"code\":"@);
    assert(s.skip(8) =~= spec_quoted(m.code) + tail);
    lemma_parse_quoted_round(m.code, tail);
    match m.content {
        None => {
            match m.details {
                None => {
                    assert(tail =~= "}"@);
                    assert(tail.len() == 1 && tail[0] == '}');
                },
                Some(d) => {
                    assert(tail =~= ",\"details\":"@ + (crate::json::spec_render_details(d)
                        + "}"@));
                    assert(crate::json::spec_render_details(d).len() >= 2);
                    assert(tail.len() >= 14);
                    assert(tail.take(11) =~= ",\"details\":"@);
                    assert(tail.take(11) != ",\"message\":"@) by {
                        assert(",\"details\":"@[2] == 'd');
                        assert(",\"message\":"@[2] == 'm');
                    }
                    assert(tail.skip(11) =~= crate::json::spec_render_details(d) + "}"@);
                    assert("}"@.len() == 1 && "}"@[0] == '}');
                    lemma_parse_details_round(d, "}"@);
                },
            }
        },
        Some(c) => {
            let after = b + "}"@;
            assert(tail =~= ",\"message\":"@ + (spec_quoted(c) + after));
            assert(spec_quoted(c).len() >= 2);
            assert(tail.len() >= 13);
            assert(tail.take(11) =~= ",\"message\":"@);
            assert(tail.skip(11) =~= spec_quoted(c) + after);
            lemma_parse_quoted_round(c, after);
            match m.details {
                None => {
                    assert(after =~= "}"@);
                    assert(after.len() == 1 && after[0] == '}');
                },
                Some(d) => {
                    assert(after =~= ",\"details\":"@ + (crate::json::spec_render_details(d)
                        + "}"@));
                    assert(crate::json::spec_render_details(d).len() >= 2);
                    assert(after.len() >= 14);
                    assert(after.take(11) =~= ",\"details\":"@);
                    assert(after.skip(11) =~= crate::json::spec_render_details(d) + "}"@);
                    assert("}"@.len() == 1 && "}"@[0] == '}');
                    lemma_parse_details_round(d, "}"@);
                },
            }
        },
    }
}

} // verus!
