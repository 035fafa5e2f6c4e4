use audio_engine::parse::{parse_u64, parse_volume_micros};

#[test]
fn u64_simple_values() {
    assert_eq!(parse_u64("0"), Some(0));
    assert_eq!(parse_u64("7"), Some(7));
    assert_eq!(parse_u64("90000"), Some(90000));
    assert_eq!(parse_u64("0005"), Some(5));
}

#[test]
fn u64_limits() {
    assert_eq!(parse_u64("18446744073709551615"), Some(u64::MAX));
    assert_eq!(parse_u64("18446744073709551616"), None);
    assert_eq!(parse_u64("99999999999999999999999"), None);
}

#[test]
fn u64_accepts_a_leading_plus() {
    assert_eq!(parse_u64("+5"), Some(5));
    assert_eq!(parse_u64("+90000"), Some(90000));
    assert_eq!(parse_u64("+"), None);
    assert_eq!(parse_u64("++1"), None);
}

#[test]
fn u64_rejects_non_digits() {
    assert_eq!(parse_u64(""), None);
    assert_eq!(parse_u64("12a"), None);
    assert_eq!(parse_u64("-1"), None);
    assert_eq!(parse_u64("1.5"), None);
    assert_eq!(parse_u64(" 5"), None);
}

#[test]
fn volume_whole_numbers() {
    assert_eq!(parse_volume_micros("0"), Some(0));
    assert_eq!(parse_volume_micros("1"), Some(1_000_000));
    assert_eq!(parse_volume_micros("2"), Some(2_000_000));
    assert_eq!(parse_volume_micros("15"), Some(15_000_000));
}

#[test]
fn volume_fractions() {
    assert_eq!(parse_volume_micros("0.5"), Some(500_000));
    assert_eq!(parse_volume_micros("0.2"), Some(200_000));
    assert_eq!(parse_volume_micros("1.0"), Some(1_000_000));
    assert_eq!(parse_volume_micros("2.25"), Some(2_250_000));
    assert_eq!(parse_volume_micros(".5"), Some(500_000));
    assert_eq!(parse_volume_micros("5."), Some(5_000_000));
    assert_eq!(parse_volume_micros("0.000001"), Some(1));
}

#[test]
fn volume_truncates_past_six_fraction_digits() {
    assert_eq!(parse_volume_micros("1.2345678"), Some(1_234_567));
    assert_eq!(parse_volume_micros("0.0000001"), Some(0));
}

#[test]
fn volume_accepts_a_leading_plus() {
    assert_eq!(parse_volume_micros("+0.5"), Some(500_000));
    assert_eq!(parse_volume_micros("+2"), Some(2_000_000));
    assert_eq!(parse_volume_micros("+"), None);
    assert_eq!(parse_volume_micros("+."), None);
    assert_eq!(parse_volume_micros("++1"), None);
}

#[test]
fn volume_rejects_malformed_text() {
    assert_eq!(parse_volume_micros(""), None);
    assert_eq!(parse_volume_micros("."), None);
    assert_eq!(parse_volume_micros("not-a-number"), None);
    assert_eq!(parse_volume_micros("1.2.3"), None);
    assert_eq!(parse_volume_micros("-0.5"), None);
    assert_eq!(parse_volume_micros("1e3"), None);
    assert_eq!(parse_volume_micros("0.5 "), None);
}

#[test]
fn volume_whole_part_cap() {
    assert_eq!(parse_volume_micros("10000000000000"), Some(10_000_000_000_000_000_000));
    assert_eq!(parse_volume_micros("10000000000001"), None);
}
