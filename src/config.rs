use vstd::prelude::*;
use vstd::string::StringExecFns;
use crate::text::{hex_of, hex_text, trim_of, trim_text};

verus! {

/// The token time-to-live when none is configured.
pub const DEFAULT_TTL_SECONDS: i64 = 3600;

/// The listening port when none is configured.
pub const DEFAULT_PORT: u16 = 3000;

/// The value of a non-empty text of ASCII decimal digits.
pub open spec fn digits_value(s: Seq<char>) -> int
    decreases s.len(),
{
    if s.len() == 0 {
        0
    } else {
        digits_value(s.drop_last()) * 10 + (s.last() as int - '0' as int)
    }
}

pub open spec fn all_digits(s: Seq<char>) -> bool {
    s.len() > 0 && forall|i: int| 0 <= i < s.len() ==> '0' <= #[trigger] s[i] && s[i] <= '9'
}

/// The integer that a decimal text denotes, as Rust's integer parsing reads
/// it: an optional sign (`-` only where `signed`), then at least one digit.
pub open spec fn decimal_value(s: Seq<char>, signed: bool) -> Option<int> {
    if s.len() > 0 && (s[0] == '+' || (signed && s[0] == '-')) {
        let rest = s.subrange(1, s.len() as int);
        if all_digits(rest) {
            Some(if s[0] == '-' { -digits_value(rest) } else { digits_value(rest) })
        } else {
            None
        }
    } else if all_digits(s) {
        Some(digits_value(s))
    } else {
        None
    }
}

/// Relies on `str::parse::<i64>`: a decimal text within range, else nothing.
#[verifier::external_body]
fn parse_i64(s: &str) -> (r: Option<i64>)
    ensures
        r == (match decimal_value(s@, true) {
            Some(v) => if i64::MIN <= v <= i64::MAX { Some(v as i64) } else { None::<i64> },
            None => None::<i64>,
        }),
{
    s.parse::<i64>().ok()
}

/// Relies on `str::parse::<u16>`: a decimal text within range, else nothing.
#[verifier::external_body]
fn parse_u16(s: &str) -> (r: Option<u16>)
    ensures
        r == (match decimal_value(s@, false) {
            Some(v) => if 0 <= v <= u16::MAX { Some(v as u16) } else { None::<u16> },
            None => None::<u16>,
        }),
{
    s.parse::<u16>().ok()
}

/// The signing secret from its configured value: trimmed, and absent when
/// nothing is left. Absent means an ephemeral secret must be made.
pub fn secret_from_env(value: Option<&str>) -> (r: Option<String>)
    ensures
        match value {
            Some(v) => if trim_of(v@).len() > 0 {
                r is Some && r->Some_0@ == trim_of(v@)
            } else {
                r is None
            },
            None => r is None,
        },
{
    match value {
        Some(v) => {
            let t = trim_text(v);
            if t.is_empty() {
                None
            } else {
                Some(String::from_str(t))
            }
        },
        None => None,
    }
}

/// The configured token time-to-live, or the default where it is absent or
/// not a number.
pub fn ttl_from_env(value: Option<&str>) -> (r: i64)
    ensures
        match value {
            Some(v) => match decimal_value(v@, true) {
                Some(n) => if i64::MIN <= n <= i64::MAX { r == n } else { r == DEFAULT_TTL_SECONDS },
                None => r == DEFAULT_TTL_SECONDS,
            },
            None => r == DEFAULT_TTL_SECONDS,
        },
{
    match value {
        Some(v) => match parse_i64(v) {
            Some(n) => n,
            None => DEFAULT_TTL_SECONDS,
        },
        None => DEFAULT_TTL_SECONDS,
    }
}

/// The configured port, or the default where it is absent or not a port number.
pub fn port_from_env(value: Option<&str>) -> (r: u16)
    ensures
        match value {
            Some(v) => match decimal_value(v@, false) {
                Some(n) => if 0 <= n <= u16::MAX { r == n } else { r == DEFAULT_PORT },
                None => r == DEFAULT_PORT,
            },
            None => r == DEFAULT_PORT,
        },
{
    match value {
        Some(v) => match parse_u16(v) {
            Some(n) => n,
            None => DEFAULT_PORT,
        },
        None => DEFAULT_PORT,
    }
}

/// An ephemeral signing secret made from 64 random bytes: 128 lowercase
/// hexadecimal digits, two for each byte in order.
pub fn secret_from_bytes(bytes: &[u8; 64]) -> (r: String)
    ensures
        r@ == hex_of(bytes@),
        r@.len() == 128,
{
    hex_text(bytes.as_slice())
}

} // verus!
