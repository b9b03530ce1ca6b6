use mt5_adapter::numeric::{parse_micro, quantize, str_eq, u64_to_dec};

#[test]
fn decimal_rendering() {
    assert_eq!(u64_to_dec(0), "0");
    assert_eq!(u64_to_dec(7), "7");
    assert_eq!(u64_to_dec(1234567890), "1234567890");
    assert_eq!(u64_to_dec(u64::MAX), "18446744073709551615");
}

#[test]
fn parse_plain_decimals() {
    assert_eq!(parse_micro("10"), Some(10_000_000));
    assert_eq!(parse_micro("0"), Some(0));
    assert_eq!(parse_micro("1.5"), Some(1_500_000));
    assert_eq!(parse_micro("0.00001"), Some(10));
    assert_eq!(parse_micro("123.456789"), Some(123_456_789));
    // fraction digits beyond the sixth truncate toward zero
    assert_eq!(parse_micro("1.2345678"), Some(1_234_567));
}

#[test]
fn parse_exponent_forms() {
    assert_eq!(parse_micro("1e-5"), Some(10));
    assert_eq!(parse_micro("1E-5"), Some(10));
    assert_eq!(parse_micro("2.5e3"), Some(2_500_000_000));
    assert_eq!(parse_micro("1e+2"), Some(100_000_000));
    assert_eq!(parse_micro("5e-7"), Some(0));
}

#[test]
fn parse_rejections() {
    assert_eq!(parse_micro(""), None);
    assert_eq!(parse_micro("-1"), None);
    assert_eq!(parse_micro("abc"), None);
    assert_eq!(parse_micro("1."), None);
    assert_eq!(parse_micro(".5"), None);
    assert_eq!(parse_micro("1.2.3"), None);
    assert_eq!(parse_micro("1e"), None);
    // beyond the 64-bit range in micro-units
    assert_eq!(parse_micro("99999999999999999999"), None);
}

#[test]
fn quantization_rounds_to_tick() {
    // tick 0.0001 = 100 micro
    assert_eq!(quantize(1_234_567, 100), 1_234_600);
    assert_eq!(quantize(1_234_549, 100), 1_234_500);
    // halves round up
    assert_eq!(quantize(150, 100), 200);
    assert_eq!(quantize(149, 100), 100);
    // a value on the grid stays
    assert_eq!(quantize(1_234_500, 100), 1_234_500);
    // tick of one micro-unit changes nothing
    assert_eq!(quantize(987_654, 1), 987_654);
}

#[test]
fn string_equality() {
    assert!(str_eq("sell", "sell"));
    assert!(!str_eq("sell", "buy"));
    assert!(!str_eq("sell", "sells"));
    assert!(str_eq("", ""));
}
