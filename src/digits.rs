//! The mathematical model of reading a signed digit sequence in a given base.
use vstd::prelude::*;

verus! {

/// Why a text could not be read as an integer of the requested type.
#[derive(Clone, Copy, Debug, PartialEq, Eq, Structural)]
pub enum ParseError {
    /// There were no characters left to read as digits.
    Empty,
    /// A character is not a digit of the base in use, or a sign stands alone.
    InvalidDigit,
    /// The digits are well formed, but their value lies below the type's
    /// minimum or above its maximum.
    Overflow,
}

/// The value of `c` as a digit in any base up to 36: `0`-`9` count 0 to 9,
/// and the letters `a`-`z` (of either case) count 10 to 35. Any other
/// character gets 36, which is no digit in any base.
pub open spec fn digit_of(c: char) -> nat {
    if '0' <= c <= '9' {
        (c as u32 - '0' as u32) as nat
    } else if 'a' <= c <= 'z' {
        (c as u32 - 'a' as u32 + 10) as nat
    } else if 'A' <= c <= 'Z' {
        (c as u32 - 'A' as u32 + 10) as nat
    } else {
        36
    }
}

/// Whether `c` is a digit of base `radix`.
pub open spec fn is_digit(c: char, radix: nat) -> bool {
    digit_of(c) < radix
}

/// Whether every character of `d` is a digit of base `radix`.
pub open spec fn all_digits(d: Seq<char>, radix: nat) -> bool {
    forall|i: int| 0 <= i < d.len() ==> is_digit(#[trigger] d[i], radix)
}

/// The number that the digits `d` write in base `radix`, most significant first.
pub open spec fn value_of(d: Seq<char>, radix: nat) -> nat
    decreases d.len(),
{
    if d.len() == 0 {
        0
    } else {
        value_of(d.drop_last(), radix) * radix + digit_of(d.last())
    }
}

/// How many characters at the start of `d` are digits of base `radix`.
pub open spec fn leading_digits(d: Seq<char>, radix: nat) -> nat
    decreases d.len(),
{
    if d.len() == 0 || !is_digit(d[0], radix) {
        0
    } else {
        1 + leading_digits(d.drop_first(), radix)
    }
}

/// Whether a leading `-` is read as a sign, which only a type with negative
/// values (`min < 0`) allows.
pub open spec fn is_negated(s: Seq<char>, min: int) -> bool {
    s.len() > 0 && s[0] == '-' && min < 0
}

/// What follows the sign of `s`, if `s` begins with one that is read as such.
pub open spec fn unsigned_part(s: Seq<char>, min: int) -> Seq<char> {
    if s.len() > 0 && (s[0] == '+' || is_negated(s, min)) {
        s.drop_first()
    } else {
        s
    }
}

/// The result of reading `s` as an optional sign followed by digits of base
/// `radix`, into a type whose values are the integers from `min` to `max`.
///
/// A leading `+` is a sign for every type, a leading `-` only for a type with
/// negative values; a sign with no digits after it is an invalid digit.
/// The digits are read from the left. Reading stops at the first character
/// that is not a digit, or as soon as the value read so far leaves the range;
/// as the magnitude only grows with each digit, the range is left before that
/// character exactly when the digits ahead of it already lie outside it.
pub open spec fn radix_outcome(s: Seq<char>, radix: nat, min: int, max: int) -> Result<
    int,
    ParseError,
> {
    if s.len() == 0 {
        Err(ParseError::Empty)
    } else {
        let body = unsigned_part(s, min);
        let k = leading_digits(body, radix);
        let magnitude = value_of(body.take(k as int), radix) as int;
        let v = if is_negated(s, min) {
            -magnitude
        } else {
            magnitude
        };
        if v < min || v > max {
            Err(ParseError::Overflow)
        } else if k < body.len() || body.len() == 0 {
            Err(ParseError::InvalidDigit)
        } else {
            Ok(v)
        }
    }
}

} // verus!
