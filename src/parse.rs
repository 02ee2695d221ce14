//! Reading a text as an integer, its base chosen by its prefix.
use crate::digits::{radix_outcome, ParseError};
use crate::radix_int::{agrees, RadixInt};
use crate::text::{lower_text, strip_prefix, to_ascii_lowercase, trim, trim_white_space};
use vstd::prelude::*;

verus! {

/// `s` as it is inspected: without surrounding white space, in lower case.
pub open spec fn normalize(s: Seq<char>) -> Seq<char> {
    lower_text(trim_white_space(s))
}

/// The base that the prefix of a normalized text `n` selects, and the digits
/// that are read in it: `0b` binary, `0o` octal, `0x` hexadecimal, each
/// removed; without one of them, all of `n` in decimal.
pub open spec fn radix_and_digits(n: Seq<char>) -> (nat, Seq<char>) {
    if seq!['0', 'b'].is_prefix_of(n) {
        (2, n.skip(2))
    } else if seq!['0', 'o'].is_prefix_of(n) {
        (8, n.skip(2))
    } else if seq!['0', 'x'].is_prefix_of(n) {
        (16, n.skip(2))
    } else {
        (10, n)
    }
}

/// The result of reading `s` into a type whose values are the integers from
/// `min` to `max`.
pub open spec fn multiparse_outcome(s: Seq<char>, min: int, max: int) -> Result<int, ParseError> {
    let (radix, digits) = radix_and_digits(normalize(s));
    radix_outcome(digits, radix, min, max)
}

/// Text that can be read as an integer written in binary, octal, decimal or
/// hexadecimal.
pub trait Multiparse: View<V = Seq<char>> {
    /// Reads the text as an integer of type `T`. Surrounding white space is
    /// ignored and letters may be of either case; a prefix `0b`, `0o` or `0x`
    /// selects base 2, 8 or 16, and without one the base is 10.
    fn multiparse<T: RadixInt>(&self) -> (r: Result<T, ParseError>)
        ensures
            agrees(r, multiparse_outcome(self@, T::min_int(), T::max_int())),
    ;
}

impl Multiparse for str {
    fn multiparse<T: RadixInt>(&self) -> (r: Result<T, ParseError>) {
        let lowered = to_ascii_lowercase(trim(self));
        let value = lowered.as_str();
        proof {
            reveal_strlit("0b");
            reveal_strlit("0o");
            reveal_strlit("0x");
        }
        if let Some(binary) = strip_prefix(value, "0b") {
            T::parse_radix(binary, 2)
        } else if let Some(octal) = strip_prefix(value, "0o") {
            T::parse_radix(octal, 8)
        } else if let Some(hex) = strip_prefix(value, "0x") {
            T::parse_radix(hex, 16)
        } else {
            T::parse_radix(value, 10)
        }
    }
}

} // verus!
