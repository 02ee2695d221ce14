//! Reading integers written in binary, octal, decimal or hexadecimal, the base
//! chosen by a `0b`, `0o` or `0x` prefix.
pub mod digits;
pub mod parse;
pub mod radix_int;
pub mod text;

pub use digits::ParseError;
pub use parse::Multiparse;
pub use radix_int::RadixInt;
pub mod lemmas;
