use core::str::FromStr;

use one_based::decimal::{format_decimal, parse_decimal};
use one_based::{
    IntErrorKind, OneBasedU128, OneBasedU16, OneBasedU32, OneBasedU64, OneBasedU8, OneBasedUsize,
    ParseOneBasedError,
};

#[test]
fn text_comes_back_for_every_u8() {
    for v in 1..=u8::MAX {
        let text = format!("{}", v);
        let index = OneBasedU8::from_str(&text).unwrap();
        assert_eq!(index.as_one_based().get(), v);
        assert_eq!(index.to_string(), text);
    }
}

#[test]
fn index_comes_back_from_its_text_for_every_u8() {
    for v in 1..=u8::MAX {
        let index = OneBasedU8::from_one_based(v).unwrap();
        assert_eq!(OneBasedU8::from_str(&index.to_string()), Ok(index));
    }
}

#[test]
fn text_is_the_one_based_value() {
    assert_eq!(OneBasedU8::from_zero_based(0).unwrap().to_string(), "1");
    assert_eq!(OneBasedU8::from_one_based(9).unwrap().to_string(), "9");
    assert_eq!(OneBasedU8::from_one_based(10).unwrap().to_string(), "10");
    assert_eq!(OneBasedU8::from_one_based(100).unwrap().to_string(), "100");
    assert_eq!(OneBasedU8::from_one_based(255).unwrap().to_string(), "255");
    assert_eq!(OneBasedU16::from_one_based(65535).unwrap().to_string(), "65535");
    assert_eq!(OneBasedU32::from_one_based(u32::MAX).unwrap().to_string(), "4294967295");
    assert_eq!(
        OneBasedU64::from_one_based(u64::MAX).unwrap().to_string(),
        "18446744073709551615"
    );
    assert_eq!(
        OneBasedU128::from_one_based(u128::MAX).unwrap().to_string(),
        "340282366920938463463374607431768211455"
    );
    assert_eq!(
        OneBasedUsize::from_one_based(usize::MAX).unwrap().to_string(),
        format!("{}", usize::MAX)
    );
    assert_eq!(OneBasedU32::from_zero_based(1000).unwrap().to_string(), "1001");
}

#[test]
fn parse_reads_the_one_based_value() {
    let v: OneBasedU32 = "5".parse().unwrap();
    assert_eq!(v.as_zero_based(), 4);
    assert_eq!(&v.to_string(), "5");
    assert_eq!(OneBasedU8::from_str("255").unwrap().as_zero_based(), 254);
    assert_eq!(OneBasedU16::from_str("65535").unwrap().as_zero_based(), 65534);
    assert_eq!(OneBasedU32::from_str("4294967295").unwrap().as_zero_based(), 4294967294);
    assert_eq!(
        OneBasedU64::from_str("18446744073709551615").unwrap().as_one_based().get(),
        u64::MAX
    );
    assert_eq!(
        OneBasedU128::from_str("340282366920938463463374607431768211455")
            .unwrap()
            .as_one_based()
            .get(),
        u128::MAX
    );
    assert_eq!(
        OneBasedUsize::from_str(&format!("{}", usize::MAX)).unwrap().as_one_based().get(),
        usize::MAX
    );
}

#[test]
fn text_of_the_largest_values_comes_back() {
    for text in ["1", "65535"] {
        assert_eq!(OneBasedU16::from_str(text).unwrap().to_string(), text);
    }
    for text in ["1", "4294967295"] {
        assert_eq!(OneBasedU32::from_str(text).unwrap().to_string(), text);
    }
    for text in ["1", "18446744073709551615"] {
        assert_eq!(OneBasedU64::from_str(text).unwrap().to_string(), text);
    }
    for text in ["1", "340282366920938463463374607431768211455"] {
        assert_eq!(OneBasedU128::from_str(text).unwrap().to_string(), text);
    }
}

#[test]
fn leading_zeros_are_read_and_not_written() {
    let index = OneBasedU8::from_str("007").unwrap();
    assert_eq!(index.as_one_based().get(), 7);
    assert_eq!(index.to_string(), "7");
    assert_eq!(OneBasedU8::from_str("0000000000255").unwrap().as_zero_based(), 254);
    assert_eq!(
        OneBasedU8::from_str("0000000000256").unwrap_err().kind,
        IntErrorKind::PosOverflow
    );
}

#[test]
fn empty_text_is_empty() {
    assert_eq!(*OneBasedU8::from_str("").unwrap_err().kind(), IntErrorKind::Empty);
    assert_eq!(*OneBasedU16::from_str("").unwrap_err().kind(), IntErrorKind::Empty);
    assert_eq!(*OneBasedU32::from_str("").unwrap_err().kind(), IntErrorKind::Empty);
    assert_eq!(*OneBasedU64::from_str("").unwrap_err().kind(), IntErrorKind::Empty);
    assert_eq!(*OneBasedU128::from_str("").unwrap_err().kind(), IntErrorKind::Empty);
    assert_eq!(*OneBasedUsize::from_str("").unwrap_err().kind(), IntErrorKind::Empty);
}

#[test]
fn zero_is_a_parse_error_of_its_own() {
    assert_eq!(
        OneBasedU8::from_str("0"),
        Err(ParseOneBasedError { kind: IntErrorKind::Zero })
    );
    assert_eq!(*OneBasedU8::from_str("00").unwrap_err().kind(), IntErrorKind::Zero);
    assert_eq!(*OneBasedU16::from_str("0").unwrap_err().kind(), IntErrorKind::Zero);
    assert_eq!(*OneBasedU32::from_str("0").unwrap_err().kind(), IntErrorKind::Zero);
    assert_eq!(*OneBasedU64::from_str("0").unwrap_err().kind(), IntErrorKind::Zero);
    assert_eq!(*OneBasedU128::from_str("0").unwrap_err().kind(), IntErrorKind::Zero);
    assert_eq!(*OneBasedUsize::from_str("0").unwrap_err().kind(), IntErrorKind::Zero);
}

#[test]
fn a_sign_is_no_digit() {
    assert_eq!(*OneBasedU8::from_str("-5").unwrap_err().kind(), IntErrorKind::InvalidDigit);
    assert_eq!(*OneBasedU8::from_str("+5").unwrap_err().kind(), IntErrorKind::InvalidDigit);
    assert_eq!(*OneBasedU8::from_str("-").unwrap_err().kind(), IntErrorKind::InvalidDigit);
    assert_eq!(*OneBasedU8::from_str("+").unwrap_err().kind(), IntErrorKind::InvalidDigit);
    assert_eq!(*OneBasedU8::from_str("-0").unwrap_err().kind(), IntErrorKind::InvalidDigit);
    assert_eq!(*OneBasedU64::from_str("-5").unwrap_err().kind(), IntErrorKind::InvalidDigit);
    assert_eq!(*OneBasedU64::from_str("+5").unwrap_err().kind(), IntErrorKind::InvalidDigit);
}

#[test]
fn other_characters_are_no_digits() {
    for text in ["a", "1a", "a1", " 1", "1 ", "1_0", "1,0", "1.0", "0x1", "١", "1١", "/", ":"] {
        assert_eq!(
            *OneBasedU8::from_str(text).unwrap_err().kind(),
            IntErrorKind::InvalidDigit
        );
        assert_eq!(
            *OneBasedU128::from_str(text).unwrap_err().kind(),
            IntErrorKind::InvalidDigit
        );
    }
}

#[test]
fn more_than_max_overflows() {
    assert_eq!(*OneBasedU8::from_str("256").unwrap_err().kind(), IntErrorKind::PosOverflow);
    assert_eq!(*OneBasedU8::from_str("2550").unwrap_err().kind(), IntErrorKind::PosOverflow);
    assert_eq!(*OneBasedU8::from_str("1000").unwrap_err().kind(), IntErrorKind::PosOverflow);
    assert_eq!(*OneBasedU16::from_str("65536").unwrap_err().kind(), IntErrorKind::PosOverflow);
    assert_eq!(*OneBasedU16::from_str("655350").unwrap_err().kind(), IntErrorKind::PosOverflow);
    assert_eq!(
        *OneBasedU32::from_str("4294967296").unwrap_err().kind(),
        IntErrorKind::PosOverflow
    );
    assert_eq!(
        *OneBasedU32::from_str("42949672950").unwrap_err().kind(),
        IntErrorKind::PosOverflow
    );
    assert_eq!(
        *OneBasedU64::from_str("18446744073709551616").unwrap_err().kind(),
        IntErrorKind::PosOverflow
    );
    assert_eq!(
        *OneBasedU64::from_str("184467440737095516150").unwrap_err().kind(),
        IntErrorKind::PosOverflow
    );
    assert_eq!(
        *OneBasedU128::from_str("340282366920938463463374607431768211456").unwrap_err().kind(),
        IntErrorKind::PosOverflow
    );
    assert_eq!(
        *OneBasedU128::from_str("3402823669209384634633746074317682114550").unwrap_err().kind(),
        IntErrorKind::PosOverflow
    );
    assert_eq!(
        *OneBasedUsize::from_str(&format!("{}0", usize::MAX)).unwrap_err().kind(),
        IntErrorKind::PosOverflow
    );
}

#[test]
fn the_first_thing_wrong_decides() {
    assert_eq!(*OneBasedU8::from_str("999a").unwrap_err().kind(), IntErrorKind::PosOverflow);
    assert_eq!(*OneBasedU8::from_str("256a").unwrap_err().kind(), IntErrorKind::PosOverflow);
    assert_eq!(*OneBasedU8::from_str("25a6").unwrap_err().kind(), IntErrorKind::InvalidDigit);
    assert_eq!(*OneBasedU8::from_str("a999").unwrap_err().kind(), IntErrorKind::InvalidDigit);
    assert_eq!(*OneBasedU8::from_str("0a").unwrap_err().kind(), IntErrorKind::InvalidDigit);
    assert_eq!(*OneBasedU8::from_str("255a").unwrap_err().kind(), IntErrorKind::InvalidDigit);
}

#[test]
fn decimal_reads_up_to_the_limit_given() {
    assert_eq!(parse_decimal("10", 10), Ok(10));
    assert_eq!(parse_decimal("11", 10), Err(IntErrorKind::PosOverflow));
    assert_eq!(parse_decimal("1", 0), Err(IntErrorKind::PosOverflow));
    assert_eq!(parse_decimal("0", 0), Err(IntErrorKind::Zero));
    assert_eq!(parse_decimal("", 10), Err(IntErrorKind::Empty));
    assert_eq!(parse_decimal("x", 10), Err(IntErrorKind::InvalidDigit));
    assert_eq!(parse_decimal("0123456789", u128::MAX), Ok(123456789));
}

#[test]
fn decimal_writes_every_digit() {
    assert_eq!(format_decimal(0), "0");
    assert_eq!(format_decimal(7), "7");
    assert_eq!(format_decimal(1234567890), "1234567890");
    assert_eq!(format_decimal(9876543210), "9876543210");
    assert_eq!(format_decimal(100), "100");
    assert_eq!(format_decimal(u128::MAX), "340282366920938463463374607431768211455");
    let mut text = String::from("n=");
    one_based::decimal::push_decimal(&mut text, 42);
    assert_eq!(text, "n=42");
}

#[test]
fn parse_error_is_a_plain_value() {
    let error = OneBasedU8::from_str("").unwrap_err();
    let copy = error;
    assert_eq!(error, copy);
    assert_eq!(error.kind, IntErrorKind::Empty);
    assert_ne!(error, OneBasedU8::from_str("0").unwrap_err());
}
