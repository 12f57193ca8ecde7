use create2_vanity::hexfmt::{parse_fixed, prefixed_hex, strip_prefix, ParseError};

#[test]
fn prefixed_hex_of_bytes() {
    assert_eq!(prefixed_hex(&[]), "0x");
    assert_eq!(prefixed_hex(&[0]), "0x00");
    assert_eq!(prefixed_hex(&[1, 2, 3, 15, 16]), "0x0102030f10");
    assert_eq!(prefixed_hex(&[0xde, 0xad, 0xbe, 0xef]), "0xdeadbeef");
    assert_eq!(prefixed_hex(b"0x"), "0x3078");
}

#[test]
fn strip_prefix_takes_only_lowercase_0x() {
    assert_eq!(strip_prefix("0xabc"), Some("abc"));
    assert_eq!(strip_prefix("0x"), Some(""));
    assert_eq!(strip_prefix("0x0x"), Some("0x"));
    assert_eq!(strip_prefix("0x\u{e9}t\u{e9}"), Some("\u{e9}t\u{e9}"));
    assert_eq!(strip_prefix(""), None);
    assert_eq!(strip_prefix("0"), None);
    assert_eq!(strip_prefix("0X12"), None);
    assert_eq!(strip_prefix("x012"), None);
    assert_eq!(strip_prefix("1x12"), None);
    assert_eq!(strip_prefix("\u{e9}x12"), None);
    assert_eq!(strip_prefix("abcd"), None);
}

#[test]
fn parse_reads_digits_of_either_case() {
    assert_eq!(parse_fixed::<2>("0x0aF1"), Ok([0x0a, 0xf1]));
    assert_eq!(parse_fixed::<4>("0xDEADbeef"), Ok([0xde, 0xad, 0xbe, 0xef]));
    assert_eq!(parse_fixed::<1>("0x00"), Ok([0]));
    assert_eq!(parse_fixed::<1>("0xff"), Ok([255]));
    assert_eq!(parse_fixed::<0>("0x"), Ok([]));
    assert_eq!(parse_fixed::<3>("0x303132"), Ok([0x30, 0x31, 0x32]));
}

#[test]
fn parse_refuses_text_without_prefix() {
    assert_eq!(parse_fixed::<2>(""), Err(ParseError::MissingPrefix));
    assert_eq!(parse_fixed::<2>("0"), Err(ParseError::MissingPrefix));
    assert_eq!(parse_fixed::<2>("0a0b"), Err(ParseError::MissingPrefix));
    assert_eq!(parse_fixed::<2>("0X0a0b"), Err(ParseError::MissingPrefix));
    assert_eq!(parse_fixed::<2>(" 0x0a0b"), Err(ParseError::MissingPrefix));
    assert_eq!(parse_fixed::<1>("zz0a"), Err(ParseError::MissingPrefix));
}

#[test]
fn parse_refuses_what_is_not_hex() {
    assert_eq!(parse_fixed::<2>("0x0a0"), Err(ParseError::InvalidHex));
    assert_eq!(parse_fixed::<2>("0x0"), Err(ParseError::InvalidHex));
    assert_eq!(parse_fixed::<2>("0x0a0g"), Err(ParseError::InvalidHex));
    assert_eq!(parse_fixed::<2>("0x0a 0"), Err(ParseError::InvalidHex));
    assert_eq!(parse_fixed::<2>("0x0x0a"), Err(ParseError::InvalidHex));
    assert_eq!(parse_fixed::<2>("0x0a0b\n"), Err(ParseError::InvalidHex));
    assert_eq!(parse_fixed::<1>("0x\u{e9}"), Err(ParseError::InvalidHex));
    assert_eq!(parse_fixed::<2>("0x\u{e9}0"), Err(ParseError::InvalidHex));
    assert_eq!(parse_fixed::<2>("0x0\u{e9}a"), Err(ParseError::InvalidHex));
    assert_eq!(parse_fixed::<1>("0x\u{ff10}\u{ff10}"), Err(ParseError::InvalidHex));
}

#[test]
fn parse_refuses_another_length() {
    assert_eq!(parse_fixed::<2>("0x"), Err(ParseError::WrongLength));
    assert_eq!(parse_fixed::<2>("0x0a"), Err(ParseError::WrongLength));
    assert_eq!(parse_fixed::<2>("0x0a0b0c"), Err(ParseError::WrongLength));
    assert_eq!(parse_fixed::<0>("0x00"), Err(ParseError::WrongLength));
}

#[test]
fn parse_undoes_prefixed_hex() {
    let mut bytes = [0u8; 32];
    for i in 0..32 {
        bytes[i] = (i as u8).wrapping_mul(37).wrapping_add(11);
    }
    let text = prefixed_hex(&bytes);
    assert_eq!(parse_fixed::<32>(&text), Ok(bytes));
    for value in 0u8..=255 {
        assert_eq!(parse_fixed::<1>(&prefixed_hex(&[value])), Ok([value]));
    }
}
