use rustify::fraction::UnitFraction;
use rustify::time_format::{formatted_duration, u64_to_decimal};

#[test]
fn zero_is_double_zero() {
    assert_eq!(formatted_duration(0), "00:00");
}

#[test]
fn four_minutes_nine_seconds() {
    assert_eq!(formatted_duration(4 * 60 + 9), "04:09");
}

#[test]
fn long_tracks_keep_all_minute_digits() {
    assert_eq!(formatted_duration(112 * 60 + 5), "112:05");
}

#[test]
fn just_under_a_minute() {
    assert_eq!(formatted_duration(59), "00:59");
}

#[test]
fn exact_minutes_have_zero_seconds() {
    assert_eq!(formatted_duration(600), "10:00");
}

#[test]
fn decimal_digits_render_exactly() {
    assert_eq!(u64_to_decimal(0), "0");
    assert_eq!(u64_to_decimal(7), "7");
    assert_eq!(u64_to_decimal(1234567890), "1234567890");
}

#[test]
fn fractions_clamp_to_one() {
    assert_eq!(UnitFraction::new(1500).permille, 1000);
    assert_eq!(UnitFraction::new(1000).permille, 1000);
    assert_eq!(UnitFraction::new(3).permille, 3);
}

#[test]
fn volume_gain_is_the_square() {
    assert_eq!(UnitFraction::new(500).gain_millionths(), 250_000);
    assert_eq!(UnitFraction::new(1000).gain_millionths(), 1_000_000);
    assert_eq!(UnitFraction::new(0).gain_millionths(), 0);
}

#[test]
fn scaling_durations_is_exact() {
    assert_eq!(UnitFraction::new(500).scale_ms(1000), 500);
    assert_eq!(UnitFraction::new(333).scale_ms(1000), 333);
    assert_eq!(UnitFraction::new(500).scale_ms(7), 3);
    assert_eq!(UnitFraction::new(0).scale_ms(123456), 0);
    assert_eq!(UnitFraction::new(1000).scale_ms(123456), 123456);
}
