use homebuhg::models::money::{format_minor, format_minor_with_symbol, group_thousands};

#[test]
fn formats_basic() {
    assert_eq!(format_minor(0), "0,00\u{00A0}\u{20BD}");
    assert_eq!(format_minor(123), "1,23\u{00A0}\u{20BD}");
    assert_eq!(format_minor(123456), "1\u{00A0}234,56\u{00A0}\u{20BD}");
    assert_eq!(
        format_minor(1234567890),
        "12\u{00A0}345\u{00A0}678,90\u{00A0}\u{20BD}"
    );
}

#[test]
fn formats_negative() {
    assert_eq!(format_minor(-50), "-0,50\u{00A0}\u{20BD}");
    assert_eq!(format_minor(-123456), "-1\u{00A0}234,56\u{00A0}\u{20BD}");
}

#[test]
fn formats_with_given_symbol() {
    assert_eq!(format_minor_with_symbol(-100005, "$"), "-1\u{00A0}000,05\u{00A0}$");
    assert_eq!(format_minor_with_symbol(7, ""), "0,07\u{00A0}");
}

#[test]
fn formats_extreme_amounts() {
    assert_eq!(
        format_minor(i64::MIN),
        "-92\u{00A0}233\u{00A0}720\u{00A0}368\u{00A0}547\u{00A0}758,08\u{00A0}\u{20BD}"
    );
    assert_eq!(
        format_minor(i64::MAX),
        "92\u{00A0}233\u{00A0}720\u{00A0}368\u{00A0}547\u{00A0}758,07\u{00A0}\u{20BD}"
    );
}

#[test]
fn groups_digits_by_three() {
    assert_eq!(group_thousands(0), "0");
    assert_eq!(group_thousands(999), "999");
    assert_eq!(group_thousands(1000), "1\u{00A0}000");
    assert_eq!(group_thousands(1234567), "1\u{00A0}234\u{00A0}567");
    assert_eq!(group_thousands(100000), "100\u{00A0}000");
}
