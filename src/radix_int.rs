//! The fixed-width integer types that a text can be read into.
use crate::digits::{radix_outcome, ParseError};
use core::num::IntErrorKind;
use vstd::prelude::*;

verus! {

/// std's `IntErrorKind`, declared with its variants so that verified code can
/// tell them apart.
#[verifier::external_type_specification]
pub struct ExIntErrorKind(IntErrorKind);

/// Maps the kind of a failed integer parse to this library's error. A value
/// too large and a value too small are both an overflow. The kind `Zero`,
/// which only non-zero integer types report, never comes from the types read
/// here.
pub(crate) fn error_from_kind(kind: &IntErrorKind) -> (r: ParseError)
    ensures
        *kind == IntErrorKind::Empty ==> r == ParseError::Empty,
        *kind == IntErrorKind::PosOverflow ==> r == ParseError::Overflow,
        *kind == IntErrorKind::NegOverflow ==> r == ParseError::Overflow,
        *kind == IntErrorKind::InvalidDigit ==> r == ParseError::InvalidDigit,
{
    match kind {
        IntErrorKind::Empty => ParseError::Empty,
        IntErrorKind::PosOverflow => ParseError::Overflow,
        IntErrorKind::NegOverflow => ParseError::Overflow,
        _ => ParseError::InvalidDigit,
    }
}

/// An integer type of fixed width that a text can be read into, in a given
/// base. Its values are the integers from `min_int()` to `max_int()`.
pub trait RadixInt: Sized {
    /// The least value of the type.
    spec fn min_int() -> int;

    /// The greatest value of the type.
    spec fn max_int() -> int;

    /// The integer that a value of the type stands for.
    spec fn as_int(&self) -> int;

    /// Every type holds zero and at least one positive value.
    proof fn lemma_range()
        ensures
            Self::min_int() <= 0 < Self::max_int(),
    ;

    /// Reads `src` as an optional sign followed by digits of base `radix`.
    fn parse_radix(src: &str, radix: u32) -> (r: Result<Self, ParseError>)
        requires
            2 <= radix <= 36,
        ensures
            match r {
                Ok(v) => radix_outcome(src@, radix as nat, Self::min_int(), Self::max_int())
                    == Ok::<int, ParseError>(v.as_int()),
                Err(e) => radix_outcome(src@, radix as nat, Self::min_int(), Self::max_int())
                    == Err::<int, ParseError>(e),
            },
    ;
}

/// Whether the result `r` is the outcome `o`: the same value, or the same error.
pub open spec fn agrees<T: RadixInt>(r: Result<T, ParseError>, o: Result<int, ParseError>) -> bool {
    match r {
        Ok(v) => o == Ok::<int, ParseError>(v.as_int()),
        Err(e) => o == Err::<int, ParseError>(e),
    }
}

/// Relies on `<u8 as num_traits::Num>::from_str_radix`, which hands the text to
/// std's `u8::from_str_radix`: an optional sign, then digits of the base,
/// read as `radix_outcome` states. The error's kind is mapped by
/// `error_from_kind`. It panics on a base outside 2 to 36.
#[verifier::external_body]
fn u8_from_str_radix(src: &str, radix: u32) -> (r: Result<u8, ParseError>)
    requires
        2 <= radix <= 36,
    ensures
        match r {
            Ok(v) => radix_outcome(src@, radix as nat, u8::MIN as int, u8::MAX as int)
                == Ok::<int, ParseError>(v as int),
            Err(e) => radix_outcome(src@, radix as nat, u8::MIN as int, u8::MAX as int)
                == Err::<int, ParseError>(e),
        },
{
    <u8 as num_traits::Num>::from_str_radix(src, radix).map_err(|e| error_from_kind(e.kind()))
}

impl RadixInt for u8 {
    open spec fn min_int() -> int {
        u8::MIN as int
    }

    open spec fn max_int() -> int {
        u8::MAX as int
    }

    open spec fn as_int(&self) -> int {
        *self as int
    }

    proof fn lemma_range() {
    }

    fn parse_radix(src: &str, radix: u32) -> (r: Result<u8, ParseError>) {
        u8_from_str_radix(src, radix)
    }
}

/// Relies on `<u16 as num_traits::Num>::from_str_radix`, which hands the text to
/// std's `u16::from_str_radix`: an optional sign, then digits of the base,
/// read as `radix_outcome` states. The error's kind is mapped by
/// `error_from_kind`. It panics on a base outside 2 to 36.
#[verifier::external_body]
fn u16_from_str_radix(src: &str, radix: u32) -> (r: Result<u16, ParseError>)
    requires
        2 <= radix <= 36,
    ensures
        match r {
            Ok(v) => radix_outcome(src@, radix as nat, u16::MIN as int, u16::MAX as int)
                == Ok::<int, ParseError>(v as int),
            Err(e) => radix_outcome(src@, radix as nat, u16::MIN as int, u16::MAX as int)
                == Err::<int, ParseError>(e),
        },
{
    <u16 as num_traits::Num>::from_str_radix(src, radix).map_err(|e| error_from_kind(e.kind()))
}

impl RadixInt for u16 {
    open spec fn min_int() -> int {
        u16::MIN as int
    }

    open spec fn max_int() -> int {
        u16::MAX as int
    }

    open spec fn as_int(&self) -> int {
        *self as int
    }

    proof fn lemma_range() {
    }

    fn parse_radix(src: &str, radix: u32) -> (r: Result<u16, ParseError>) {
        u16_from_str_radix(src, radix)
    }
}

/// Relies on `<u32 as num_traits::Num>::from_str_radix`, which hands the text to
/// std's `u32::from_str_radix`: an optional sign, then digits of the base,
/// read as `radix_outcome` states. The error's kind is mapped by
/// `error_from_kind`. It panics on a base outside 2 to 36.
#[verifier::external_body]
fn u32_from_str_radix(src: &str, radix: u32) -> (r: Result<u32, ParseError>)
    requires
        2 <= radix <= 36,
    ensures
        match r {
            Ok(v) => radix_outcome(src@, radix as nat, u32::MIN as int, u32::MAX as int)
                == Ok::<int, ParseError>(v as int),
            Err(e) => radix_outcome(src@, radix as nat, u32::MIN as int, u32::MAX as int)
                == Err::<int, ParseError>(e),
        },
{
    <u32 as num_traits::Num>::from_str_radix(src, radix).map_err(|e| error_from_kind(e.kind()))
}

impl RadixInt for u32 {
    open spec fn min_int() -> int {
        u32::MIN as int
    }

    open spec fn max_int() -> int {
        u32::MAX as int
    }

    open spec fn as_int(&self) -> int {
        *self as int
    }

    proof fn lemma_range() {
    }

    fn parse_radix(src: &str, radix: u32) -> (r: Result<u32, ParseError>) {
        u32_from_str_radix(src, radix)
    }
}

/// Relies on `<u64 as num_traits::Num>::from_str_radix`, which hands the text to
/// std's `u64::from_str_radix`: an optional sign, then digits of the base,
/// read as `radix_outcome` states. The error's kind is mapped by
/// `error_from_kind`. It panics on a base outside 2 to 36.
#[verifier::external_body]
fn u64_from_str_radix(src: &str, radix: u32) -> (r: Result<u64, ParseError>)
    requires
        2 <= radix <= 36,
    ensures
        match r {
            Ok(v) => radix_outcome(src@, radix as nat, u64::MIN as int, u64::MAX as int)
                == Ok::<int, ParseError>(v as int),
            Err(e) => radix_outcome(src@, radix as nat, u64::MIN as int, u64::MAX as int)
                == Err::<int, ParseError>(e),
        },
{
    <u64 as num_traits::Num>::from_str_radix(src, radix).map_err(|e| error_from_kind(e.kind()))
}

impl RadixInt for u64 {
    open spec fn min_int() -> int {
        u64::MIN as int
    }

    open spec fn max_int() -> int {
        u64::MAX as int
    }

    open spec fn as_int(&self) -> int {
        *self as int
    }

    proof fn lemma_range() {
    }

    fn parse_radix(src: &str, radix: u32) -> (r: Result<u64, ParseError>) {
        u64_from_str_radix(src, radix)
    }
}

/// Relies on `<i8 as num_traits::Num>::from_str_radix`, which hands the text to
/// std's `i8::from_str_radix`: an optional sign, then digits of the base,
/// read as `radix_outcome` states. The error's kind is mapped by
/// `error_from_kind`. It panics on a base outside 2 to 36.
#[verifier::external_body]
fn i8_from_str_radix(src: &str, radix: u32) -> (r: Result<i8, ParseError>)
    requires
        2 <= radix <= 36,
    ensures
        match r {
            Ok(v) => radix_outcome(src@, radix as nat, i8::MIN as int, i8::MAX as int)
                == Ok::<int, ParseError>(v as int),
            Err(e) => radix_outcome(src@, radix as nat, i8::MIN as int, i8::MAX as int)
                == Err::<int, ParseError>(e),
        },
{
    <i8 as num_traits::Num>::from_str_radix(src, radix).map_err(|e| error_from_kind(e.kind()))
}

impl RadixInt for i8 {
    open spec fn min_int() -> int {
        i8::MIN as int
    }

    open spec fn max_int() -> int {
        i8::MAX as int
    }

    open spec fn as_int(&self) -> int {
        *self as int
    }

    proof fn lemma_range() {
    }

    fn parse_radix(src: &str, radix: u32) -> (r: Result<i8, ParseError>) {
        i8_from_str_radix(src, radix)
    }
}

/// Relies on `<i16 as num_traits::Num>::from_str_radix`, which hands the text to
/// std's `i16::from_str_radix`: an optional sign, then digits of the base,
/// read as `radix_outcome` states. The error's kind is mapped by
/// `error_from_kind`. It panics on a base outside 2 to 36.
#[verifier::external_body]
fn i16_from_str_radix(src: &str, radix: u32) -> (r: Result<i16, ParseError>)
    requires
        2 <= radix <= 36,
    ensures
        match r {
            Ok(v) => radix_outcome(src@, radix as nat, i16::MIN as int, i16::MAX as int)
                == Ok::<int, ParseError>(v as int),
            Err(e) => radix_outcome(src@, radix as nat, i16::MIN as int, i16::MAX as int)
                == Err::<int, ParseError>(e),
        },
{
    <i16 as num_traits::Num>::from_str_radix(src, radix).map_err(|e| error_from_kind(e.kind()))
}

impl RadixInt for i16 {
    open spec fn min_int() -> int {
        i16::MIN as int
    }

    open spec fn max_int() -> int {
        i16::MAX as int
    }

    open spec fn as_int(&self) -> int {
        *self as int
    }

    proof fn lemma_range() {
    }

    fn parse_radix(src: &str, radix: u32) -> (r: Result<i16, ParseError>) {
        i16_from_str_radix(src, radix)
    }
}

/// Relies on `<i32 as num_traits::Num>::from_str_radix`, which hands the text to
/// std's `i32::from_str_radix`: an optional sign, then digits of the base,
/// read as `radix_outcome` states. The error's kind is mapped by
/// `error_from_kind`. It panics on a base outside 2 to 36.
#[verifier::external_body]
fn i32_from_str_radix(src: &str, radix: u32) -> (r: Result<i32, ParseError>)
    requires
        2 <= radix <= 36,
    ensures
        match r {
            Ok(v) => radix_outcome(src@, radix as nat, i32::MIN as int, i32::MAX as int)
                == Ok::<int, ParseError>(v as int),
            Err(e) => radix_outcome(src@, radix as nat, i32::MIN as int, i32::MAX as int)
                == Err::<int, ParseError>(e),
        },
{
    <i32 as num_traits::Num>::from_str_radix(src, radix).map_err(|e| error_from_kind(e.kind()))
}

impl RadixInt for i32 {
    open spec fn min_int() -> int {
        i32::MIN as int
    }

    open spec fn max_int() -> int {
        i32::MAX as int
    }

    open spec fn as_int(&self) -> int {
        *self as int
    }

    proof fn lemma_range() {
    }

    fn parse_radix(src: &str, radix: u32) -> (r: Result<i32, ParseError>) {
        i32_from_str_radix(src, radix)
    }
}

/// Relies on `<i64 as num_traits::Num>::from_str_radix`, which hands the text to
/// std's `i64::from_str_radix`: an optional sign, then digits of the base,
/// read as `radix_outcome` states. The error's kind is mapped by
/// `error_from_kind`. It panics on a base outside 2 to 36.
#[verifier::external_body]
fn i64_from_str_radix(src: &str, radix: u32) -> (r: Result<i64, ParseError>)
    requires
        2 <= radix <= 36,
    ensures
        match r {
            Ok(v) => radix_outcome(src@, radix as nat, i64::MIN as int, i64::MAX as int)
                == Ok::<int, ParseError>(v as int),
            Err(e) => radix_outcome(src@, radix as nat, i64::MIN as int, i64::MAX as int)
                == Err::<int, ParseError>(e),
        },
{
    <i64 as num_traits::Num>::from_str_radix(src, radix).map_err(|e| error_from_kind(e.kind()))
}

impl RadixInt for i64 {
    open spec fn min_int() -> int {
        i64::MIN as int
    }

    open spec fn max_int() -> int {
        i64::MAX as int
    }

    open spec fn as_int(&self) -> int {
        *self as int
    }

    proof fn lemma_range() {
    }

    fn parse_radix(src: &str, radix: u32) -> (r: Result<i64, ParseError>) {
        i64_from_str_radix(src, radix)
    }
}

} // verus!
