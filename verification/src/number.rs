//! The grammar of a number on the wire.

use vstd::prelude::*;
use vstd::utf8::is_ascii_chars;
use crate::ascii::{
    ascii_bytes, digits_at, is_digit, skip_digits, LOWER_E, MINUS, PLUS, POINT, DIGIT_ZERO, UPPER_E,
};

verus! {

/// Where the digits of a number's integer part start: behind its minus sign,
/// if it has one.
pub open spec fn integer_start(s: Seq<char>) -> int {
    if s.len() > 0 && s[0] == '-' {
        1
    } else {
        0
    }
}

/// Where the digits of an exponent that is introduced at `at` start: behind
/// its sign, if it has one.
pub open spec fn exponent_start(s: Seq<char>, at: int) -> int {
    if at + 1 < s.len() && (s[at + 1] == '+' || s[at + 1] == '-') {
        at + 2
    } else {
        at + 1
    }
}

/// From `at` to its end, `s` holds an exponent: `e` or `E`, an optional sign,
/// and at least one digit.
pub open spec fn exponent_at(s: Seq<char>, at: int) -> bool {
    &&& 0 <= at < s.len()
    &&& (s[at] == 'e' || s[at] == 'E')
    &&& digits_at(s, exponent_start(s, at), s.len() as int)
}

/// `s` is a number whose integer part ends at `int_end` and whose fraction, if
/// it has one, ends at `frac_end`: an optional minus sign; the integer part, a
/// single `0` or digits that do not start with `0`; optionally a point and at
/// least one digit; optionally an exponent.
pub open spec fn number_shape(s: Seq<char>, int_end: int, frac_end: int) -> bool {
    &&& digits_at(s, integer_start(s), int_end)
    &&& (s[integer_start(s)] == '0' ==> int_end == integer_start(s) + 1)
    &&& int_end <= frac_end <= s.len()
    &&& (frac_end == int_end || (s[int_end] == '.' && digits_at(s, int_end + 1, frac_end)))
    &&& (frac_end == s.len() || exponent_at(s, frac_end))
}

/// `s` is a number as JSON writes one.
pub open spec fn is_json_number(s: Seq<char>) -> bool {
    exists|int_end: int, frac_end: int| number_shape(s, int_end, frac_end)
}

/// A number has one shape only: its integer part ends with the first run of
/// digits, and its fraction with the run of digits behind the point.
proof fn lemma_shape_is_unique(s: Seq<char>, int_end: int, frac_end: int, i: int, f: int)
    requires
        number_shape(s, i, f),
        integer_start(s) <= int_end <= frac_end <= s.len(),
        forall|k: int| integer_start(s) <= k < int_end ==> is_digit(#[trigger] s[k]),
        int_end < s.len() ==> !is_digit(s[int_end]),
        frac_end > int_end ==> s[int_end] == '.',
        forall|k: int| int_end < k < frac_end ==> is_digit(#[trigger] s[k]),
        frac_end < s.len() ==> !is_digit(s[frac_end]),
        frac_end == int_end && int_end < s.len() ==> s[int_end] != '.',
    ensures
        i == int_end,
        f == frac_end || (f == int_end && frac_end == int_end + 1),
{
}

/// Every character of a number is ASCII.
proof fn lemma_number_is_ascii(s: Seq<char>)
    requires
        is_json_number(s),
    ensures
        is_ascii_chars(s),
{
    let (i, f) = choose|i: int, f: int| number_shape(s, i, f);
    assert forall|k: int| 0 <= k < s.len() implies '\0' <= #[trigger] s[k] <= '\u{7f}' by {}
}

/// Whether `text` is a number as JSON writes one.
pub fn is_number(text: &str) -> (r: bool)
    ensures
        r == is_json_number(text@),
{
    let ghost s = text@;
    let bytes = match ascii_bytes(text) {
        Some(bytes) => bytes,
        None => {
            proof {
                if is_json_number(s) {
                    lemma_number_is_ascii(s);
                }
            }
            return false;
        },
    };
    let len = bytes.len();
    let start: usize = if len > 0 && bytes[0] == MINUS { 1 } else { 0 };
    let int_end = skip_digits(bytes, start, Ghost(s));
    if int_end == start {
        return false;
    }
    if bytes[start] == DIGIT_ZERO && int_end != start + 1 {
        return false;
    }
    let frac_end = if int_end < len && bytes[int_end] == POINT {
        let frac_end = skip_digits(bytes, int_end + 1, Ghost(s));
        if frac_end == int_end + 1 {
            assert forall|i: int, f: int| !number_shape(s, i, f) by {
                if number_shape(s, i, f) {
                    lemma_shape_is_unique(s, int_end as int, frac_end as int, i, f);
                }
            }
            return false;
        }
        frac_end
    } else {
        int_end
    };
    if frac_end == len {
        assert(number_shape(s, int_end as int, frac_end as int));
        return true;
    }
    if !(bytes[frac_end] == LOWER_E || bytes[frac_end] == UPPER_E) {
        assert forall|i: int, f: int| !number_shape(s, i, f) by {
            if number_shape(s, i, f) {
                lemma_shape_is_unique(s, int_end as int, frac_end as int, i, f);
            }
        }
        return false;
    }
    let exp_start: usize = if frac_end + 1 < len && (bytes[frac_end + 1] == PLUS || bytes[frac_end
        + 1] == MINUS) {
        frac_end + 2
    } else {
        frac_end + 1
    };
    let exp_end = skip_digits(bytes, exp_start, Ghost(s));
    if exp_end > exp_start && exp_end == len {
        assert(number_shape(s, int_end as int, frac_end as int));
        true
    } else {
        assert forall|i: int, f: int| !number_shape(s, i, f) by {
            if number_shape(s, i, f) {
                lemma_shape_is_unique(s, int_end as int, frac_end as int, i, f);
            }
        }
        false
    }
}

} // verus!
