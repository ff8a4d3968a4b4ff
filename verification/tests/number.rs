use pi_touchscreen_control::number::{format_decimal, parse_unsigned_text};

#[test]
fn decimal_formatting() {
    assert_eq!(format_decimal(0), "0");
    assert_eq!(format_decimal(7), "7");
    assert_eq!(format_decimal(1234567890), "1234567890");
    assert_eq!(format_decimal(u64::MAX), u64::MAX.to_string());
}

#[test]
fn decimal_parsing_matches_std() {
    for text in ["0", "007", "+5", "255", "256", "", "+", "-1", "1a", "٣", "99999999999999999999", "18446744073709551615"] {
        assert_eq!(parse_unsigned_text(text, 255), text.parse::<u8>().ok().map(u64::from), "{text}");
        assert_eq!(parse_unsigned_text(text, u64::MAX), text.parse::<u64>().ok(), "{text}");
    }
}

#[test]
fn decimal_round_trip() {
    for n in [0u64, 1, 9, 10, 99, 100, 65535, u64::MAX] {
        assert_eq!(parse_unsigned_text(&format_decimal(n), u64::MAX), Some(n));
    }
}
