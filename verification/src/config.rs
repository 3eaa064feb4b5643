//! The run's one setting: the attempt limit, read from an optional piece of
//! text.

use vstd::prelude::*;
use std::num::ParseIntError;

verus! {

/// The limit used when none is given or the text given is no number.
pub const DEFAULT_LIMIT: u64 = 10;

/// `std`'s error for text that is no integer; opaque here.
#[verifier::external_type_specification]
#[verifier::external_body]
pub struct ExParseIntError(ParseIntError);

/// Whether `c` is one of the ten decimal digits.
pub open spec fn is_digit(c: char) -> bool {
    '0' <= c <= '9'
}

/// The number that decimal digits stand for; digits further left weigh more.
pub open spec fn decimal_value(s: Seq<char>) -> nat
    decreases s.len(),
{
    if s.len() == 0 {
        0
    } else {
        decimal_value(s.drop_last()) * 10 + (s.last() as nat - '0' as nat) as nat
    }
}

/// The text without one leading plus sign, if it has one.
pub open spec fn unsigned_part(s: Seq<char>) -> Seq<char> {
    if s.len() > 0 && s[0] == '+' {
        s.skip(1)
    } else {
        s
    }
}

/// The `u64` that a text denotes: an optional plus sign, then one or more
/// decimal digits and nothing else, with a value that fits. Any other text
/// denotes none.
pub open spec fn parsed_u64(s: Seq<char>) -> Option<u64> {
    let digits = unsigned_part(s);
    if digits.len() > 0 && (forall|i: int| 0 <= i < digits.len() ==> is_digit(#[trigger] digits[i]))
        && decimal_value(digits) <= u64::MAX {
        Some(decimal_value(digits) as u64)
    } else {
        None
    }
}

/// The limit that an optional, already parsed number gives.
pub open spec fn limit_or_default(parsed: Option<u64>) -> u64 {
    match parsed {
        Some(n) => n,
        None => DEFAULT_LIMIT,
    }
}

/// Calls `str::parse::<u64>` of `std`. Trusted: the text is read as an
/// optional plus sign followed by decimal digits only; it is an error when
/// the text is empty, holds anything else, or the value does not fit.
#[verifier::external_body]
fn parse_u64(s: &str) -> (r: Result<u64, ParseIntError>)
    ensures
        match r {
            Ok(n) => parsed_u64(s@) == Some(n),
            Err(_) => parsed_u64(s@).is_none(),
        },
{
    s.parse::<u64>()
}

/// The attempt limit for an optional argument: the number it denotes, and
/// the default when the argument is missing or denotes no `u64`. A missing
/// argument and one that is no number are not told apart.
pub fn parse_limit(arg: Option<&str>) -> (limit: u64)
    ensures
        limit == match arg {
            Some(s) => limit_or_default(parsed_u64(s@)),
            None => DEFAULT_LIMIT,
        },
{
    match arg {
        Some(s) => match parse_u64(s) {
            Ok(n) => n,
            Err(_) => DEFAULT_LIMIT,
        },
        None => DEFAULT_LIMIT,
    }
}

} // verus!
