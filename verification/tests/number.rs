use std::num::IntErrorKind;
use vcpu_tids::number::{decimal, parse, ParseError};

fn std_parse(s: &str) -> Result<u32, ParseError> {
    match s.parse::<u32>() {
        Ok(n) => Ok(n),
        Err(e) => match e.kind() {
            IntErrorKind::Empty => Err(ParseError::Empty),
            IntErrorKind::InvalidDigit => Err(ParseError::InvalidDigit),
            IntErrorKind::PosOverflow => Err(ParseError::Overflow),
            other => panic!("unexpected kind {:?} for {:?}", other, s),
        },
    }
}

#[test]
fn parse_exact_values() {
    assert_eq!(parse("0"), Ok(0));
    assert_eq!(parse("7"), Ok(7));
    assert_eq!(parse("100"), Ok(100));
    assert_eq!(parse("007"), Ok(7));
    assert_eq!(parse("+7"), Ok(7));
    assert_eq!(parse("4294967295"), Ok(4294967295));
    assert_eq!(parse("0000000000004294967295"), Ok(4294967295));
}

#[test]
fn parse_empty() {
    assert_eq!(parse(""), Err(ParseError::Empty));
}

#[test]
fn parse_invalid_digit() {
    assert_eq!(parse("+"), Err(ParseError::InvalidDigit));
    assert_eq!(parse("-"), Err(ParseError::InvalidDigit));
    assert_eq!(parse("-1"), Err(ParseError::InvalidDigit));
    assert_eq!(parse("++1"), Err(ParseError::InvalidDigit));
    assert_eq!(parse("1 "), Err(ParseError::InvalidDigit));
    assert_eq!(parse(" 1"), Err(ParseError::InvalidDigit));
    assert_eq!(parse("1_000"), Err(ParseError::InvalidDigit));
    assert_eq!(parse("12a"), Err(ParseError::InvalidDigit));
    assert_eq!(parse("self"), Err(ParseError::InvalidDigit));
    assert_eq!(parse("١٢"), Err(ParseError::InvalidDigit));
    assert_eq!(parse("0x10"), Err(ParseError::InvalidDigit));
}

#[test]
fn parse_overflow() {
    assert_eq!(parse("4294967296"), Err(ParseError::Overflow));
    assert_eq!(parse("99999999999"), Err(ParseError::Overflow));
    assert_eq!(parse("+4294967296"), Err(ParseError::Overflow));
}

#[test]
fn parse_reports_what_is_wrong_first() {
    assert_eq!(parse("4294967296x"), Err(ParseError::Overflow));
    assert_eq!(parse("99999999999999x"), Err(ParseError::Overflow));
    assert_eq!(parse("429496729x6"), Err(ParseError::InvalidDigit));
    assert_eq!(parse("x4294967296"), Err(ParseError::InvalidDigit));
}

#[test]
fn parse_agrees_with_std() {
    let samples = [
        "", "0", "1", "9", "10", "42", "007", "+0", "+", "-", "-0", "+-1", "++1", "1+", " 1", "1 ",
        "1\n", "4294967295", "4294967296", "42949672950", "+4294967295", "+4294967296",
        "00000000000000000001", "99999999999999999999", "4294967296x", "429496729x", "x", "1x",
        "x1", "1.0", "1e3", "0x1f", "１２", "١٢", "vcpu0", "é", "12é", "4294967295é",
        "42949672951é", "18446744073709551616",
    ];
    for s in samples {
        assert_eq!(parse(s), std_parse(s), "{:?}", s);
    }
}

#[test]
fn parse_agrees_with_std_near_the_limit() {
    let mut n: u64 = 4294967200;
    while n < 4294967400 {
        let s = format!("{}", n);
        assert_eq!(parse(&s), std_parse(&s), "{:?}", s);
        n += 1;
    }
}

#[test]
fn decimal_exact_values() {
    assert_eq!(decimal(0), "0");
    assert_eq!(decimal(9), "9");
    assert_eq!(decimal(10), "10");
    assert_eq!(decimal(12345), "12345");
    assert_eq!(decimal(1000000), "1000000");
    assert_eq!(decimal(4294967295), "4294967295");
}

#[test]
fn decimal_agrees_with_std_and_parses_back() {
    let mut n: u32 = 0;
    loop {
        let s = decimal(n);
        assert_eq!(s, format!("{}", n));
        assert_eq!(parse(&s), Ok(n));
        if n > u32::MAX - 1000003 {
            break;
        }
        n += 1000003;
    }
    assert_eq!(parse(&decimal(u32::MAX)), Ok(u32::MAX));
}

#[test]
fn parse_error_messages() {
    assert_eq!(ParseError::Empty.message(), "cannot parse integer from empty string");
    assert_eq!(ParseError::InvalidDigit.message(), "invalid digit found in string");
    assert_eq!(ParseError::Overflow.message(), "number too large to fit in target type");
    assert_eq!(ParseError::Empty.message(), format!("{}", "".parse::<u32>().unwrap_err()));
    assert_eq!(ParseError::InvalidDigit.message(), format!("{}", "x".parse::<u32>().unwrap_err()));
    assert_eq!(
        ParseError::Overflow.message(),
        format!("{}", "4294967296".parse::<u32>().unwrap_err())
    );
}
