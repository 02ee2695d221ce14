use multiparse::{Multiparse, ParseError};

#[test]
fn scenario_binary_three() {
    assert_eq!("0b11".multiparse::<u8>(), Ok(3));
}

#[test]
fn scenario_octal_sixty_four() {
    assert_eq!("0o100".multiparse::<u8>(), Ok(64));
}

#[test]
fn scenario_negative_decimal() {
    assert_eq!("-10".multiparse::<i8>(), Ok(-10));
}

#[test]
fn scenario_hex_u16() {
    assert_eq!("0x10F".multiparse::<u16>(), Ok(271));
}

#[test]
fn scenario_hex_overflow() {
    assert_eq!("0xFFF".multiparse::<u8>(), Err(ParseError::Overflow));
}

#[test]
fn binary_covers_every_u8() {
    for v in 0u32..=255 {
        let text = format!("0b{:b}", v);
        assert_eq!(text.multiparse::<u8>(), Ok(v as u8));
    }
    assert_eq!("0b100000000".multiparse::<u8>(), Err(ParseError::Overflow));
}

#[test]
fn octal_value() {
    assert_eq!("0o107".multiparse::<u8>(), Ok(71));
    assert_eq!("0o377".multiparse::<u8>(), Ok(255));
    assert_eq!("0o400".multiparse::<u8>(), Err(ParseError::Overflow));
}

#[test]
fn hex_value_any_case() {
    assert_eq!("0xFF".multiparse::<u8>(), Ok(255));
    assert_eq!("0x100".multiparse::<u16>(), Ok(256));
    assert_eq!("0xaB".multiparse::<u8>(), Ok(171));
}

#[test]
fn decimal_negative_i16() {
    assert_eq!("-100".multiparse::<i16>(), Ok(-100));
    assert_eq!("+100".multiparse::<i16>(), Ok(100));
}

fn radix_text(v: i64, radix: u32) -> String {
    let magnitude = v.unsigned_abs();
    let sign = if v < 0 { "-" } else { "" };
    match radix {
        2 => format!("0b{}{:b}", sign, magnitude),
        8 => format!("0o{}{:o}", sign, magnitude),
        16 => format!("0x{}{:x}", sign, magnitude),
        _ => format!("{}{}", sign, magnitude),
    }
}

#[test]
fn round_trip_every_i8_and_u8() {
    for radix in [2u32, 8, 10, 16] {
        for v in -128i64..=127 {
            assert_eq!(radix_text(v, radix).multiparse::<i8>(), Ok(v as i8));
        }
        for v in 0i64..=255 {
            assert_eq!(radix_text(v, radix).multiparse::<u8>(), Ok(v as u8));
        }
    }
}

#[test]
fn round_trip_wide_extremes() {
    for radix in [2u32, 8, 10, 16] {
        for v in [i64::MIN, -1, 0, 1, i64::MAX] {
            assert_eq!(radix_text(v, radix).multiparse::<i64>(), Ok(v));
        }
        for v in [i32::MIN as i64, i32::MAX as i64] {
            assert_eq!(radix_text(v, radix).multiparse::<i32>(), Ok(v as i32));
        }
    }
}

#[test]
fn out_of_range_overflows_in_every_base() {
    for radix in [2u32, 8, 10, 16] {
        assert_eq!(radix_text(256, radix).multiparse::<u8>(), Err(ParseError::Overflow));
        assert_eq!(radix_text(128, radix).multiparse::<i8>(), Err(ParseError::Overflow));
        assert_eq!(radix_text(-129, radix).multiparse::<i8>(), Err(ParseError::Overflow));
        assert_eq!(radix_text(65536, radix).multiparse::<u16>(), Err(ParseError::Overflow));
    }
    assert_eq!("-32769".multiparse::<i16>(), Err(ParseError::Overflow));
}

#[test]
fn no_digits_is_empty() {
    for text in ["0x", "0b", "0o", "", "   ", " \t\n ", "0X", " 0b "] {
        assert_eq!(text.multiparse::<u8>(), Err(ParseError::Empty));
    }
}

#[test]
fn prefix_case_is_ignored() {
    let upper = "0XFF".multiparse::<u8>();
    assert_eq!(upper, Ok(255));
    assert_eq!("0xff".multiparse::<u8>(), upper);
    assert_eq!("0xFf".multiparse::<u8>(), upper);
    assert_eq!("0B101".multiparse::<u8>(), Ok(5));
    assert_eq!("0O17".multiparse::<u8>(), Ok(15));
}

#[test]
fn surrounding_white_space_is_trimmed() {
    assert_eq!("  42\n".multiparse::<u8>(), Ok(42));
    assert_eq!("\t0x2A ".multiparse::<u8>(), Ok(42));
    assert_eq!("\u{3000}7\u{A0}".multiparse::<u8>(), Ok(7));
}

#[test]
fn invalid_digits() {
    assert_eq!("0b2".multiparse::<u8>(), Err(ParseError::InvalidDigit));
    assert_eq!("0o8".multiparse::<u8>(), Err(ParseError::InvalidDigit));
    assert_eq!("0xg".multiparse::<u8>(), Err(ParseError::InvalidDigit));
    assert_eq!("12a".multiparse::<u8>(), Err(ParseError::InvalidDigit));
    assert_eq!("0x 1".multiparse::<u8>(), Err(ParseError::InvalidDigit));
    assert_eq!("1 2".multiparse::<u8>(), Err(ParseError::InvalidDigit));
    assert_eq!("-1".multiparse::<u8>(), Err(ParseError::InvalidDigit));
    assert_eq!("-".multiparse::<i8>(), Err(ParseError::InvalidDigit));
    assert_eq!("-0x10".multiparse::<i8>(), Err(ParseError::InvalidDigit));
}

#[test]
fn digits_are_read_left_to_right() {
    assert_eq!("100z".multiparse::<u8>(), Err(ParseError::InvalidDigit));
    assert_eq!("300z".multiparse::<u8>(), Err(ParseError::Overflow));
}

#[test]
fn single_prefix_is_stripped() {
    assert_eq!("0x0b1".multiparse::<u16>(), Ok(0xb1));
    assert_eq!("0b0x1".multiparse::<u8>(), Err(ParseError::InvalidDigit));
}

#[test]
fn sign_after_prefix() {
    assert_eq!("0x-10".multiparse::<i8>(), Ok(-16));
    assert_eq!("0x+f".multiparse::<u8>(), Ok(15));
    assert_eq!("0x-10".multiparse::<u8>(), Err(ParseError::InvalidDigit));
}

#[test]
fn each_width_reads_its_extremes() {
    assert_eq!("0xFFFF".multiparse::<u16>(), Ok(u16::MAX));
    assert_eq!("0xFFFFFFFF".multiparse::<u32>(), Ok(u32::MAX));
    assert_eq!("0x100000000".multiparse::<u32>(), Err(ParseError::Overflow));
    assert_eq!("18446744073709551615".multiparse::<u64>(), Ok(u64::MAX));
    assert_eq!("18446744073709551616".multiparse::<u64>(), Err(ParseError::Overflow));
    assert_eq!("-128".multiparse::<i8>(), Ok(i8::MIN));
    assert_eq!("0o-100000".multiparse::<i16>(), Ok(i16::MIN));
    assert_eq!("0x-80000000".multiparse::<i32>(), Ok(i32::MIN));
    assert_eq!("-9223372036854775808".multiparse::<i64>(), Ok(i64::MIN));
    assert_eq!("9223372036854775808".multiparse::<i64>(), Err(ParseError::Overflow));
}

#[test]
fn owned_strings_read_too() {
    let owned = String::from(" 0b1010 ");
    assert_eq!(owned.multiparse::<u32>(), Ok(10));
}
