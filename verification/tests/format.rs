//! Decimal rendering and tooltip text.

use power_mode_monitor::text::{format_i32, format_u64, initial_tooltip, tooltip_for};

#[test]
fn renders_single_digits() {
    assert_eq!(format_u64(0).as_str(), "0");
    assert_eq!(format_u64(7).as_str(), "7");
}

#[test]
fn renders_multi_digit_numbers() {
    assert_eq!(format_u64(10).as_str(), "10");
    assert_eq!(format_u64(42).as_str(), "42");
    assert_eq!(format_u64(1234567890).as_str(), "1234567890");
    assert_eq!(format_u64(u64::MAX).as_str(), "18446744073709551615");
}

#[test]
fn renders_signed_codes() {
    assert_eq!(format_i32(0).as_str(), "0");
    assert_eq!(format_i32(99).as_str(), "99");
    assert_eq!(format_i32(-5).as_str(), "-5");
    assert_eq!(format_i32(i32::MIN).as_str(), "-2147483648");
    assert_eq!(format_i32(i32::MAX).as_str(), "2147483647");
}

#[test]
fn tooltip_embeds_the_code() {
    assert_eq!(tooltip_for(0).as_str(), "Power mode: 0");
    assert_eq!(tooltip_for(99).as_str(), "Power mode: 99");
    assert_eq!(tooltip_for(-1).as_str(), "Power mode: -1");
}

#[test]
fn initial_tooltip_names_unknown() {
    assert_eq!(initial_tooltip().as_str(), "Power mode: Unknown");
}
