use akron_core::helpers::{
    format_amount, format_amount_number, height_to_future_est, height_to_past_est, u64_to_string,
};
use akron_core::types::Amount;

#[test]
fn u64_to_string_writes_decimal() {
    assert_eq!(u64_to_string(0), "0");
    assert_eq!(u64_to_string(7), "7");
    assert_eq!(u64_to_string(120), "120");
    assert_eq!(u64_to_string(u64::MAX), "18446744073709551615");
}

#[test]
fn format_amount_number_zero() {
    assert_eq!(format_amount_number(0), "0 sat");
}

#[test]
fn format_amount_number_small() {
    assert_eq!(format_amount_number(999), "999 sat");
    assert_eq!(format_amount_number(1000), "1\u{2009}000 sat");
}

#[test]
fn format_amount_number_groups_by_thousands() {
    assert_eq!(format_amount_number(1234567), "1\u{2009}234\u{2009}567 sat");
    assert_eq!(format_amount_number(100000), "100\u{2009}000 sat");
}

#[test]
fn format_amount_uses_satoshi_count() {
    assert_eq!(format_amount(Amount::from_sat(21000)), "21\u{2009}000 sat");
}

#[test]
fn future_est_now() {
    assert_eq!(height_to_future_est(100, 100), "now");
    assert_eq!(height_to_future_est(99, 100), "now");
}

#[test]
fn future_est_minutes() {
    assert_eq!(height_to_future_est(105, 100), "in 50 minutes");
    assert_eq!(height_to_future_est(101, 100), "in 10 minutes");
}

#[test]
fn future_est_hours() {
    assert_eq!(height_to_future_est(244, 100), "in 24 hours");
    assert_eq!(height_to_future_est(107, 100), "in 1 hours 10 minutes");
}

#[test]
fn future_est_days() {
    assert_eq!(height_to_future_est(400, 100), "in 2 days 2 hours");
    assert_eq!(height_to_future_est(100 + 288, 100), "in 2 days");
}

#[test]
fn past_est_just_now() {
    assert_eq!(height_to_past_est(100, 100), "just now");
    assert_eq!(height_to_past_est(101, 100), "just now");
}

#[test]
fn past_est_minutes() {
    assert_eq!(height_to_past_est(95, 100), "50 minutes ago");
}

#[test]
fn past_est_hours() {
    assert_eq!(height_to_past_est(94, 100), "1 hours ago");
    assert_eq!(height_to_past_est(6, 150), "24 hours ago");
}

#[test]
fn past_est_days() {
    assert_eq!(height_to_past_est(0, 150), "1 days ago");
    assert_eq!(height_to_past_est(0, 300), "2 days ago");
}
