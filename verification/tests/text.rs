use homebuhg::error::AppError;
use homebuhg::text::{i64_to_string, parse_int_in, trim, trim_nonempty, IntParseError};

#[test]
fn integers_print_in_decimal() {
    assert_eq!(i64_to_string(0), "0");
    assert_eq!(i64_to_string(-42), "-42");
    assert_eq!(i64_to_string(i64::MIN), "-9223372036854775808");
}

#[test]
fn integers_parse_as_std_does() {
    assert_eq!(parse_int_in("+17", i64::MIN, i64::MAX), Ok(17));
    assert_eq!(parse_int_in("-0", i64::MIN, i64::MAX), Ok(0));
    assert_eq!(parse_int_in("", i64::MIN, i64::MAX), Err(IntParseError::Empty));
    assert_eq!(parse_int_in("-", i64::MIN, i64::MAX), Err(IntParseError::InvalidDigit));
    assert_eq!(parse_int_in("1 2", i64::MIN, i64::MAX), Err(IntParseError::InvalidDigit));
    assert_eq!(parse_int_in("9223372036854775808", i64::MIN, i64::MAX), Err(IntParseError::PosOverflow));
    assert_eq!(parse_int_in("-9223372036854775808", i64::MIN, i64::MAX), Ok(i64::MIN));
    assert_eq!(parse_int_in("-2147483649", -2147483648, 2147483647), Err(IntParseError::NegOverflow));
    for s in ["0", "-1", "123", "-9223372036854775808", "9223372036854775807"] {
        assert_eq!(parse_int_in(s, i64::MIN, i64::MAX).unwrap().to_string(), s);
    }
}

#[test]
fn trimming_follows_unicode_white_space() {
    assert_eq!(trim("\u{00A0} a b \u{3000}\n"), "a b");
    assert_eq!(trim("   "), "");
    assert_eq!(trim_nonempty(&Some(" \t".to_string())), None);
    assert_eq!(trim_nonempty(&Some(" kg ".to_string())), Some("kg".to_string()));
    assert_eq!(trim_nonempty(&None), None);
}

#[test]
fn error_messages_name_their_kind() {
    assert_eq!(AppError::NotFound("x".to_string()).message(), "not found: x");
    assert_eq!(AppError::Other("plain".to_string()).message(), "plain");
    assert_eq!(AppError::Csv("bad".to_string()).message(), "csv error: bad");
}
