use image_resizing_lambda::decimal::{format_decimal, parse_decimal};

#[test]
fn format_decimal_values() {
    assert_eq!(format_decimal(0), "0");
    assert_eq!(format_decimal(7), "7");
    assert_eq!(format_decimal(5242880), "5242880");
    assert_eq!(format_decimal(u64::MAX), u64::MAX.to_string());
}

#[test]
fn parse_decimal_accepts_what_str_parse_accepts() {
    assert_eq!(parse_decimal("1920", u32::MAX as u64), Some(1920));
    assert_eq!(parse_decimal("+7", u32::MAX as u64), Some(7));
    assert_eq!(parse_decimal("007", u32::MAX as u64), Some(7));
    assert_eq!(parse_decimal("4294967295", u32::MAX as u64), Some(4294967295));
    assert_eq!(parse_decimal("18446744073709551615", u64::MAX), Some(u64::MAX));
}

#[test]
fn parse_decimal_rejects_what_str_parse_rejects() {
    let limit = u32::MAX as u64;
    for text in ["", "+", "-1", "12a", " 12", "4294967296", "1_000", "١٢"] {
        assert_eq!(parse_decimal(text, limit), None, "{text:?}");
        assert!(text.parse::<u32>().is_err());
    }
    assert_eq!(parse_decimal("18446744073709551616", u64::MAX), None);
}

#[test]
fn parse_decimal_reads_back_format_decimal() {
    for n in [0u64, 9, 10, 99, 100, 123456789, u64::MAX] {
        assert_eq!(parse_decimal(&format_decimal(n), u64::MAX), Some(n));
    }
}
