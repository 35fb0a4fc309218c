//! Decimal rendering and parsing of integers.
//!
//! The wire protocol reports rate-limit cooldowns as JSON integers, and
//! several record fields arrive as either a JSON number or a numeric string.
//! This module gives both directions an exact specification: `dec_rep`
//! defines the decimal text of a number, and the executable functions are
//! proved to produce or consume exactly that text.

use crate::json::JsonValue;
use vstd::prelude::*;

verus! {

/// The decimal digit character for a value below ten.
pub open spec fn dec_digit(d: nat) -> char {
    if d == 0 {
        '0'
    } else if d == 1 {
        '1'
    } else if d == 2 {
        '2'
    } else if d == 3 {
        '3'
    } else if d == 4 {
        '4'
    } else if d == 5 {
        '5'
    } else if d == 6 {
        '6'
    } else if d == 7 {
        '7'
    } else if d == 8 {
        '8'
    } else {
        '9'
    }
}

/// The decimal representation of a natural number, without sign or padding.
pub open spec fn dec_rep(n: nat) -> Seq<char>
    decreases n,
{
    if n < 10 {
        seq![dec_digit(n)]
    } else {
        dec_rep(n / 10) + seq![dec_digit(n % 10)]
    }
}

/// The digit character of a value below ten, as a one-character string.
fn digit_str(d: u64) -> (r: &'static str)
    requires
        d < 10,
    ensures
        r@ == seq![dec_digit(d as nat)],
{
    let r: &'static str = if d == 0 {
        "0"
    } else if d == 1 {
        "1"
    } else if d == 2 {
        "2"
    } else if d == 3 {
        "3"
    } else if d == 4 {
        "4"
    } else if d == 5 {
        "5"
    } else if d == 6 {
        "6"
    } else if d == 7 {
        "7"
    } else if d == 8 {
        "8"
    } else {
        "9"
    };
    proof {
        reveal_strlit("0");
        reveal_strlit("1");
        reveal_strlit("2");
        reveal_strlit("3");
        reveal_strlit("4");
        reveal_strlit("5");
        reveal_strlit("6");
        reveal_strlit("7");
        reveal_strlit("8");
        reveal_strlit("9");
        assert(r@ =~= seq![dec_digit(d as nat)]);
    }
    r
}

/// Renders a number as decimal text, e.g. `30` as `"30"`.
pub fn u64_to_dec(n: u64) -> (r: String)
    ensures
        r@ == dec_rep(n as nat),
    decreases n,
{
    if n < 10 {
        String::from_str(digit_str(n))
    } else {
        let prefix = u64_to_dec(n / 10);
        prefix.concat(digit_str(n % 10))
    }
}

/// Whether `c` is a decimal digit.
pub open spec fn is_digit(c: char) -> bool {
    48 <= c as int <= 57
}

/// The numeric value of a digit character.
pub open spec fn digit_val(c: char) -> nat {
    (c as int - 48) as nat
}

/// Whether every character of `s` is a decimal digit.
pub open spec fn all_digits(s: Seq<char>) -> bool {
    forall|i: int| 0 <= i < s.len() ==> is_digit(#[trigger] s[i])
}

/// The number a sequence of digit characters denotes.
pub open spec fn digits_value(s: Seq<char>) -> nat
    decreases s.len(),
{
    if s.len() == 0 {
        0
    } else {
        digits_value(s.drop_last()) * 10 + digit_val(s.last())
    }
}

/// The digits of an unsigned integer literal: one leading `+` is
/// tolerated, as Rust's own integer parsing tolerates it.
pub open spec fn unsigned_part(s: Seq<char>) -> Seq<char> {
    if s.len() > 0 && s[0] == '+' {
        s.drop_first()
    } else {
        s
    }
}

/// Whether `s` is a well-formed unsigned integer literal (of any size).
pub open spec fn is_u64_text(s: Seq<char>) -> bool {
    unsigned_part(s).len() > 0 && all_digits(unsigned_part(s))
}

/// The number an unsigned integer literal denotes.
pub open spec fn u64_text_value(s: Seq<char>) -> nat {
    digits_value(unsigned_part(s))
}

/// The digits of a signed integer literal: one leading `+` or `-` is
/// tolerated.
pub open spec fn signed_part(s: Seq<char>) -> Seq<char> {
    if s.len() > 0 && (s[0] == '+' || s[0] == '-') {
        s.drop_first()
    } else {
        s
    }
}

/// Whether the literal carries a minus sign.
pub open spec fn signed_negative(s: Seq<char>) -> bool {
    s.len() > 0 && s[0] == '-'
}

/// Whether `s` is a well-formed signed integer literal (of any size).
pub open spec fn is_i64_text(s: Seq<char>) -> bool {
    signed_part(s).len() > 0 && all_digits(signed_part(s))
}

/// The integer a signed integer literal denotes.
pub open spec fn i64_text_value(s: Seq<char>) -> int {
    if signed_negative(s) {
        -(digits_value(signed_part(s)) as int)
    } else {
        digits_value(signed_part(s)) as int
    }
}

/// A digit sequence denotes at least as much as any of its prefixes:
/// appending digits never shrinks the value.
proof fn lemma_digits_value_prefix(s: Seq<char>, j: int)
    requires
        0 <= j <= s.len(),
    ensures
        digits_value(s) >= digits_value(s.take(j)),
    decreases s.len() - j,
{
    if j == s.len() {
        assert(s.take(j) =~= s);
    } else {
        lemma_digits_value_prefix(s, j + 1);
        assert(s.take(j + 1).drop_last() =~= s.take(j));
        let a = digits_value(s.take(j));
        assert(a * 10 >= a) by (nonlinear_arith);
        assert(digits_value(s.take(j + 1)) >= a);
    }
}

/// Reads decimal digits from position `start` to the end of `s`,
/// accumulating their value; `None` on a non-digit or on overflow.
fn parse_digits(s: &str, start: usize) -> (r: Option<u64>)
    requires
        start <= s@.len(),
    ensures
        match r {
            Some(v) => all_digits(s@.skip(start as int)) && v == digits_value(
                s@.skip(start as int),
            ),
            None => !all_digits(s@.skip(start as int)) || digits_value(s@.skip(start as int))
                > u64::MAX,
        },
{
    let ghost whole = s@.skip(start as int);
    let len = s.unicode_len();
    let mut acc: u64 = 0;
    let mut i: usize = start;
    proof {
        assert(whole.take(0) =~= s@.subrange(start as int, start as int));
        assert(digits_value(whole.take(0)) == 0);
    }
    while i < len
        invariant
            start <= i <= len,
            len == s@.len(),
            whole == s@.skip(start as int),
            all_digits(whole.take(i - start)),
            acc == digits_value(whole.take(i - start)),
        decreases len - i,
    {
        let c = s.get_char(i);
        proof {
            assert(whole[i - start] == s@[i as int]);
        }
        let cv = c as u32;
        if cv < 48 || cv > 57 {
            return None;
        }
        let d = (cv - 48) as u64;
        proof {
            assert(whole.take(i - start + 1).drop_last() =~= whole.take(i - start));
            assert(whole.take(i - start + 1).last() == whole[i - start]);
        }
        if acc > u64::MAX / 10 {
            proof {
                assert(digits_value(whole.take(i - start + 1)) > u64::MAX);
                if all_digits(whole) {
                    lemma_digits_value_prefix(whole, i - start + 1);
                }
            }
            return None;
        }
        let shifted = acc * 10;
        if d > u64::MAX - shifted {
            proof {
                assert(digits_value(whole.take(i - start + 1)) > u64::MAX);
                if all_digits(whole) {
                    lemma_digits_value_prefix(whole, i - start + 1);
                }
            }
            return None;
        }
        acc = shifted + d;
        i = i + 1;
    }
    proof {
        assert(whole.take(len - start) =~= whole);
    }
    Some(acc)
}

/// Parses an unsigned decimal integer exactly as Rust's own `u64`
/// parsing does: an optional leading `+`, then one or more digits, and
/// the value must fit.
pub fn parse_u64(s: &str) -> (r: Option<u64>)
    ensures
        match r {
            Some(v) => is_u64_text(s@) && v == u64_text_value(s@),
            None => !is_u64_text(s@) || u64_text_value(s@) > u64::MAX,
        },
{
    let len = s.unicode_len();
    let start: usize = if len > 0 && s.get_char(0) == '+' {
        1
    } else {
        0
    };
    proof {
        assert(unsigned_part(s@) =~= s@.skip(start as int));
    }
    if len == start {
        return None;
    }
    parse_digits(s, start)
}

/// Parses a signed decimal integer exactly as Rust's own `i64` parsing
/// does: an optional leading `+` or `-`, then one or more digits, and
/// the value must fit.
pub fn parse_i64(s: &str) -> (r: Option<i64>)
    ensures
        match r {
            Some(v) => is_i64_text(s@) && v == i64_text_value(s@),
            None => !is_i64_text(s@) || i64_text_value(s@) < i64::MIN || i64_text_value(s@)
                > i64::MAX,
        },
{
    let len = s.unicode_len();
    let mut negative = false;
    let mut start: usize = 0;
    if len > 0 {
        let c0 = s.get_char(0);
        if c0 == '-' {
            negative = true;
            start = 1;
        } else if c0 == '+' {
            start = 1;
        }
    }
    proof {
        assert(signed_part(s@) =~= s@.skip(start as int));
    }
    if len == start {
        return None;
    }
    match parse_digits(s, start) {
        Some(magnitude) => {
            if negative {
                if magnitude > 9223372036854775808u64 {
                    None
                } else if magnitude == 9223372036854775808u64 {
                    Some(i64::MIN)
                } else {
                    Some(-(magnitude as i64))
                }
            } else {
                if magnitude > 9223372036854775807u64 {
                    None
                } else {
                    Some(magnitude as i64)
                }
            }
        },
        None => None,
    }
}

/// What an unsigned integer literal decodes to, when it fits.
pub open spec fn u64_from_text(s: Seq<char>) -> Option<u64> {
    if is_u64_text(s) && u64_text_value(s) <= u64::MAX {
        Some(u64_text_value(s) as u64)
    } else {
        None
    }
}

/// What a signed integer literal decodes to, when it fits.
pub open spec fn i64_from_text(s: Seq<char>) -> Option<i64> {
    if is_i64_text(s) && i64::MIN <= i64_text_value(s) <= i64::MAX {
        Some(i64_text_value(s) as i64)
    } else {
        None
    }
}

/// The string-or-integer decoding rule for an unsigned count field: a
/// JSON integer is taken as is, a JSON string is parsed as decimal, and
/// everything else fails.
pub open spec fn string_or_u64_model(v: JsonValue) -> Option<u64> {
    match v {
        JsonValue::UInt(n) => Some(n),
        JsonValue::Text(s) => u64_from_text(s@),
        _ => None,
    }
}

/// The string-or-integer decoding rule for a signed field, e.g. karma.
pub open spec fn string_or_i64_model(v: JsonValue) -> Option<i64> {
    match v {
        JsonValue::Int(i) => Some(i),
        JsonValue::UInt(n) => if n <= i64::MAX {
            Some(n as i64)
        } else {
            None
        },
        JsonValue::Text(s) => i64_from_text(s@),
        _ => None,
    }
}

/// Decodes a field that arrives as either a JSON number or a numeric
/// string into a `u64`; `None` means the value has neither shape.
pub fn deserialize_string_or_u64(v: &JsonValue) -> (r: Option<u64>)
    ensures
        r == string_or_u64_model(*v),
{
    match v {
        JsonValue::UInt(n) => Some(*n),
        JsonValue::Text(s) => parse_u64(s.as_str()),
        _ => None,
    }
}

/// Decodes a field that arrives as either a JSON number or a numeric
/// string into an `i64`; `None` means the value has neither shape.
pub fn deserialize_string_or_i64(v: &JsonValue) -> (r: Option<i64>)
    ensures
        r == string_or_i64_model(*v),
{
    match v {
        JsonValue::Int(i) => Some(*i),
        JsonValue::UInt(n) => {
            if *n <= 9223372036854775807u64 {
                Some(*n as i64)
            } else {
                None
            }
        },
        JsonValue::Text(s) => parse_i64(s.as_str()),
        _ => None,
    }
}

/// Decodes an optional string-or-integer field into a `u64`: JSON null
/// decodes to `Some(None)`; the outer `None` means a malformed value.
pub fn deserialize_option_string_or_u64(v: &JsonValue) -> (r: Option<Option<u64>>)
    ensures
        r == match *v {
            JsonValue::Null => Some(None::<u64>),
            _ => match string_or_u64_model(*v) {
                Some(n) => Some(Some(n)),
                None => None::<Option<u64>>,
            },
        },
{
    match v {
        JsonValue::Null => Some(None),
        _ => match deserialize_string_or_u64(v) {
            Some(n) => Some(Some(n)),
            None => None,
        },
    }
}

/// Decodes an optional string-or-integer field into an `i64`: JSON null
/// decodes to `Some(None)`; the outer `None` means a malformed value.
pub fn deserialize_option_string_or_i64(v: &JsonValue) -> (r: Option<Option<i64>>)
    ensures
        r == match *v {
            JsonValue::Null => Some(None::<i64>),
            _ => match string_or_i64_model(*v) {
                Some(n) => Some(Some(n)),
                None => None::<Option<i64>>,
            },
        },
{
    match v {
        JsonValue::Null => Some(None),
        _ => match deserialize_string_or_i64(v) {
            Some(n) => Some(Some(n)),
            None => None,
        },
    }
}

} // verus!
