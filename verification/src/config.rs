//! What the service is started with: the port it listens on, the directory
//! it serves, and the paths under which it streams.

use vstd::prelude::*;
use vstd::string::*;
use vstd::utf8::is_ascii_chars;
use crate::ascii::{ascii_bytes, is_digit, skip_digits, spells, DIGIT_ZERO, PLUS};
use crate::wire::{decimal, push_decimal, Projection};

verus! {

/// The port that is listened on when none is set, or the setting names none.
pub const DEFAULT_PORT: u16 = 7032;

/// The number that a run of digits writes in base ten.
pub open spec fn digits_value(digits: Seq<char>) -> nat
    decreases digits.len(),
{
    if digits.len() == 0 {
        0
    } else {
        digits_value(digits.drop_last()) * 10 + (digits.last() as int - '0' as int) as nat
    }
}

/// The digits of a port setting: the setting without its plus sign, if it
/// has one.
pub open spec fn port_digits(s: Seq<char>) -> Seq<char> {
    if s.len() > 0 && s[0] == '+' {
        s.skip(1)
    } else {
        s
    }
}

/// Every character of `s` is a digit.
pub open spec fn all_digits(s: Seq<char>) -> bool {
    forall|i: int| 0 <= i < s.len() ==> is_digit(#[trigger] s[i])
}

/// The port that a setting names: an optional plus sign and then digits, at
/// least one, that write a number of at most 65535. Anything else, a blank
/// among them, names no port.
pub open spec fn parsed_port(s: Seq<char>) -> Option<u16> {
    let digits = port_digits(s);
    if digits.len() > 0 && all_digits(digits) && digits_value(digits) <= u16::MAX {
        Some(digits_value(digits) as u16)
    } else {
        None
    }
}

/// A longer run of digits writes no smaller a number than its beginning.
proof fn lemma_value_grows(digits: Seq<char>, k: int)
    requires
        all_digits(digits),
        0 <= k <= digits.len(),
    ensures
        digits_value(digits.take(k)) <= digits_value(digits),
    decreases digits.len(),
{
    if k == digits.len() {
        assert(digits.take(k) == digits);
    } else {
        assert(digits.drop_last().take(k) == digits.take(k));
        lemma_value_grows(digits.drop_last(), k);
    }
}

/// Every character of a setting that names a port is ASCII.
proof fn lemma_port_is_ascii(s: Seq<char>)
    requires
        all_digits(port_digits(s)),
    ensures
        is_ascii_chars(s),
{
    let digits = port_digits(s);
    assert forall|i: int| 0 <= i < s.len() implies '\0' <= #[trigger] s[i] <= '\u{7f}' by {
        if s[0] == '+' && i > 0 {
            assert(is_digit(digits[i - 1]));
        }
    }
}

/// A number written in base ten is a run of digits that writes that number.
proof fn lemma_decimal_is_read_back(n: nat)
    ensures
        decimal(n).len() > 0,
        all_digits(decimal(n)),
        digits_value(decimal(n)) == n,
    decreases n,
{
    reveal_strlit("0123456789");
    let written = decimal(n);
    if n < 10 {
        assert(digits_value(written.drop_last()) == 0);
    } else {
        lemma_decimal_is_read_back(n / 10);
        assert(written.drop_last() == decimal(n / 10));
        assert forall|i: int| 0 <= i < written.len() implies is_digit(#[trigger] written[i]) by {}
    }
}

/// Every port reads back from its decimal form, which is how it stands in
/// the address that is bound.
pub proof fn lemma_port_reads_back(port: u16)
    ensures
        parsed_port(decimal(port as nat)) == Some(port),
{
    reveal_strlit("0123456789");
    lemma_decimal_is_read_back(port as nat);
}

/// Reads the port that `text` names.
pub fn parse_port(text: &str) -> (port: Option<u16>)
    ensures
        port == parsed_port(text@),
{
    let ghost s = text@;
    let ghost digits = port_digits(s);
    let bytes = match ascii_bytes(text) {
        Some(bytes) => bytes,
        None => {
            proof {
                if all_digits(digits) {
                    lemma_port_is_ascii(s);
                }
            }
            return None;
        },
    };
    let len = bytes.len();
    let start: usize = if len > 0 && bytes[0] == PLUS { 1 } else { 0 };
    if start == len {
        return None;
    }
    let digits_end = skip_digits(bytes, start, Ghost(s));
    if digits_end != len {
        assert(!is_digit(digits[digits_end - start]));
        return None;
    }
    let mut value: u32 = 0;
    let mut i: usize = start;
    while i < len
        invariant
            start <= i <= len,
            s == text@,
            len == s.len(),
            spells(bytes@, s),
            digits == port_digits(s),
            digits == s.skip(start as int),
            all_digits(digits),
            value == digits_value(digits.take(i - start)),
            value <= u16::MAX,
        decreases len - i,
    {
        let ghost seen = digits.take(i - start + 1);
        proof {
            assert(seen.drop_last() == digits.take(i - start));
            assert(is_digit(digits[i - start]));
        }
        let next: u32 = value * 10 + (bytes[i] - DIGIT_ZERO) as u32;
        if next > 65535 {
            proof {
                lemma_value_grows(digits, i - start + 1);
            }
            return None;
        }
        value = next;
        i += 1;
    }
    proof {
        assert(digits.take(len - start) == digits);
    }
    Some(value as u16)
}

/// Chooses the port to listen on: the port that the setting names, and the
/// default where the setting is missing or names none. A setting that names
/// no port is not an error.
pub fn port_or_default(setting: Option<&str>) -> (port: u16)
    ensures
        port == match setting {
            Some(text) => match parsed_port(text@) {
                Some(named) => named,
                None => DEFAULT_PORT,
            },
            None => DEFAULT_PORT,
        },
{
    match setting {
        Some(text) => match parse_port(text) {
            Some(port) => port,
            None => DEFAULT_PORT,
        },
        None => DEFAULT_PORT,
    }
}

/// Chooses the directory whose files are served: the one that is set, or
/// `public`.
pub fn public_dir_or_default(setting: Option<String>) -> (dir: String)
    ensures
        dir@ == match setting {
            Some(path) => path@,
            None => "public"@,
        },
{
    match setting {
        Some(path) => path,
        None => String::from_str("public"),
    }
}

/// The address to bind for `port`: every interface of the host.
pub fn bind_address(port: u16) -> (address: String)
    ensures
        address@ == "0.0.0.0:"@ + decimal(port as nat),
{
    let mut address = String::from_str("0.0.0.0:");
    push_decimal(&mut address, port as u64);
    address
}

/// The line that announces the address the listener is bound to.
pub fn listening_line(address: &str) -> (line: String)
    ensures
        line@ == "Listening on "@ + address@,
{
    let mut line = String::from_str("Listening on ");
    line.append(address);
    line
}

/// The path under which connections are streamed `projection`.
pub fn stream_path(projection: Projection) -> (path: &'static str)
    ensures
        path@ == match projection {
            Projection::Full => "/realtime/data"@,
            Projection::CoresOnly => "/realtime/cpus"@,
        },
{
    match projection {
        Projection::Full => "/realtime/data",
        Projection::CoresOnly => "/realtime/cpus",
    }
}

} // verus!
