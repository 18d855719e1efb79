use itext_rs::dec::Dec;
use itext_rs::error::ForeignCallError;

#[test]
fn formats_whole_units() {
    assert_eq!(Dec::from_units(210).to_decimal_text(), "210.000000");
    assert_eq!(Dec::from_units(0).to_decimal_text(), "0.000000");
    assert_eq!(Dec::from_units(-3).to_decimal_text(), "-3.000000");
}

#[test]
fn formats_fractions_zero_padded() {
    assert_eq!(Dec::from_micros(1_500_000).to_decimal_text(), "1.500000");
    assert_eq!(Dec::from_micros(-1_500_000).to_decimal_text(), "-1.500000");
    assert_eq!(Dec::from_micros(123).to_decimal_text(), "0.000123");
    assert_eq!(Dec::from_micros(-1).to_decimal_text(), "-0.000001");
}

#[test]
fn formats_the_extreme_quantities() {
    assert_eq!(
        Dec::from_micros(i64::MIN).to_decimal_text(),
        "-9223372036854.775808"
    );
    assert_eq!(
        Dec::from_micros(i64::MAX).to_decimal_text(),
        "9223372036854.775807"
    );
}

#[test]
fn parses_plain_digit_runs() {
    assert_eq!(Dec::parse_decimal_text("210").unwrap(), Dec::from_units(210));
    assert_eq!(Dec::parse_decimal_text("0").unwrap(), Dec::from_units(0));
    assert_eq!(Dec::parse_decimal_text("-7").unwrap(), Dec::from_units(-7));
}

#[test]
fn parses_page_extent_texts() {
    // The foreign runtime prints the standard A4 extent as these two texts.
    assert_eq!(
        Dec::parse_decimal_text("595.0").unwrap(),
        Dec::from_units(595)
    );
    assert_eq!(
        Dec::parse_decimal_text("842.0").unwrap(),
        Dec::from_units(842)
    );
}

#[test]
fn parses_signed_fractions() {
    assert_eq!(
        Dec::parse_decimal_text("-0.5").unwrap(),
        Dec::from_micros(-500_000)
    );
    assert_eq!(
        Dec::parse_decimal_text("12.345678").unwrap(),
        Dec::from_micros(12_345_678)
    );
    assert_eq!(
        Dec::parse_decimal_text("-0.000000").unwrap(),
        Dec::from_micros(0)
    );
}

#[test]
fn parsing_cuts_off_past_the_sixth_fractional_digit() {
    assert_eq!(
        Dec::parse_decimal_text("0.1234567").unwrap(),
        Dec::from_micros(123_456)
    );
    assert_eq!(
        Dec::parse_decimal_text("0.12345699999").unwrap(),
        Dec::from_micros(123_456)
    );
}

#[test]
fn parsing_rejects_malformed_texts() {
    for bad in [
        "", "-", ".", "12.", ".5", "--1", "1..2", "1.2.3", "a", "12a", "1.2a", "1.0E10", "+1",
        " 1", "1 ",
    ] {
        let r = Dec::parse_decimal_text(bad);
        assert!(
            matches!(r, Err(ForeignCallError::NumberFormat)),
            "{bad} was accepted"
        );
    }
}

#[test]
fn parsing_rejects_a_whole_part_past_twelve_digits() {
    assert!(Dec::parse_decimal_text("999999999999").is_ok());
    assert!(matches!(
        Dec::parse_decimal_text("1234567890123"),
        Err(ForeignCallError::NumberFormat)
    ));
    assert!(matches!(
        Dec::parse_decimal_text("0000000000000.5"),
        Err(ForeignCallError::NumberFormat)
    ));
}

#[test]
fn format_then_parse_is_identity() {
    for m in [
        0i64,
        1,
        -1,
        999_999,
        1_000_000,
        -123_456_789,
        210_000_000,
        999_999_999_999_999_999,
        -999_999_999_999_999_999,
    ] {
        let d = Dec::from_micros(m);
        assert_eq!(Dec::parse_decimal_text(&d.to_decimal_text()).unwrap(), d);
    }
}

#[test]
fn parses_leading_zeros() {
    assert_eq!(Dec::parse_decimal_text("007").unwrap(), Dec::from_units(7));
    assert_eq!(
        Dec::parse_decimal_text("0.000001").unwrap(),
        Dec::from_micros(1)
    );
    assert_eq!(Dec::parse_decimal_text("0.0").unwrap(), Dec::from_units(0));
}
