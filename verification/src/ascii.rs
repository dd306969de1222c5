//! Reading short ASCII texts byte by byte.

use vstd::prelude::*;
use vstd::string::*;
use vstd::utf8::*;

verus! {

/// The code of `+`.
pub(crate) const PLUS: u8 = 43;

/// The code of `-`.
pub(crate) const MINUS: u8 = 45;

/// The code of `.`.
pub(crate) const POINT: u8 = 46;

/// The code of `0`.
pub(crate) const DIGIT_ZERO: u8 = 48;

/// The code of `9`.
pub(crate) const DIGIT_NINE: u8 = 57;

/// The code of `E`.
pub(crate) const UPPER_E: u8 = 69;

/// The code of `e`.
pub(crate) const LOWER_E: u8 = 101;

/// `c` is one of the ten decimal digits.
pub open spec fn is_digit(c: char) -> bool {
    '0' <= c <= '9'
}

/// The positions `from..to` of `s` hold a run of at least one digit.
pub open spec fn digits_at(s: Seq<char>, from: int, to: int) -> bool {
    &&& 0 <= from < to <= s.len()
    &&& forall|i: int| from <= i < to ==> is_digit(#[trigger] s[i])
}

/// `bytes` holds the characters of `s`, one byte for each.
pub open spec fn spells(bytes: Seq<u8>, s: Seq<char>) -> bool {
    &&& bytes.len() == s.len()
    &&& forall|i: int|
        #![trigger bytes[i]]
        #![trigger s[i]]
        0 <= i < s.len() ==> s[i] as int == bytes[i] as int
}

/// The bytes of `text` if every character of it is ASCII.
pub(crate) fn ascii_bytes(text: &str) -> (bytes: Option<&[u8]>)
    ensures
        bytes is Some <==> is_ascii_chars(text@),
        bytes matches Some(b) ==> spells(b@, text@),
{
    if text.is_ascii() {
        let b = text.as_bytes();
        proof {
            is_ascii_spec_bytes(text);
            is_ascii_chars_nat_bound(text@);
            assert forall|i: int| 0 <= i < text@.len() implies text@[i] as int
                == #[trigger] b@[i] as int by {}
        }
        Some(b)
    } else {
        None
    }
}

/// Whether `b` is the code of a decimal digit.
pub(crate) fn is_digit_byte(b: u8) -> (r: bool)
    ensures
        r == is_digit(b as char),
{
    DIGIT_ZERO <= b && b <= DIGIT_NINE
}

/// The end of the run of digits that starts at `from`.
pub(crate) fn skip_digits(bytes: &[u8], from: usize, Ghost(s): Ghost<Seq<char>>) -> (to: usize)
    requires
        spells(bytes@, s),
        from <= s.len(),
    ensures
        from <= to <= s.len(),
        forall|i: int| from <= i < to ==> is_digit(#[trigger] s[i]),
        to < s.len() ==> !is_digit(s[to as int]),
{
    let mut to: usize = from;
    while to < bytes.len() && is_digit_byte(bytes[to])
        invariant
            spells(bytes@, s),
            from <= to <= s.len(),
            forall|i: int| from <= i < to ==> is_digit(#[trigger] s[i]),
        decreases s.len() - to,
    {
        to += 1;
    }
    to
}

} // verus!
