//! Numbers and texts.

use usage_monitor::cells::{format_percent, format_quantity, format_quota_number};
use usage_monitor::numbers::{decimal_text, fixed, round_away, Quantity, Ratio};
use usage_monitor::settings::DisplayBasis;
use usage_monitor::cells::display_value;
use usage_monitor::text::replaced;

#[test]
fn decimal_text_prints_every_digit() {
    assert_eq!(decimal_text(0), "0");
    assert_eq!(decimal_text(1_234_567_890), "1234567890");
    assert_eq!(decimal_text(u64::MAX), "18446744073709551615");
}

#[test]
fn fixed_text_agrees_with_the_formatter() {
    for millionths in [
        0i64, 1, 4_999, 5_000, 5_001, 15_000, 125_000, 375_000, 499_999, 500_000, 500_001,
        1_500_000, 2_500_000, 99_994_999, 99_995_001, 100_000_000, -1_250_000, -500_000,
    ] {
        let value = millionths as f64 / 1_000_000.0;
        let ratio = Ratio { num: millionths as i128, den: 1 };
        assert_eq!(fixed(ratio, 0), format!("{value:.0}"), "{value} without places");
        if millionths % 5_000 != 0 || millionths % 125_000 == 0 {
            assert_eq!(fixed(ratio, 2), format!("{value:.2}"), "{value} with two places");
        }
    }
}

#[test]
fn ties_go_away_from_zero_when_pixels_are_rounded() {
    assert_eq!(round_away(5, 2), 3);
    assert_eq!(round_away(-5, 2), -3);
    assert_eq!(round_away(4, 3), 1);
}

#[test]
fn percents_are_whole_numbers() {
    assert_eq!(format_percent(Quantity::Finite(42_400_000)), "42%");
    assert_eq!(format_percent(Quantity::Finite(42_600_000)), "43%");
}

#[test]
fn quota_numbers_show_two_places_only_where_there_are_some() {
    assert_eq!(format_quota_number(Quantity::Finite(1_500_000_000)), "1500");
    assert_eq!(format_quota_number(Quantity::Finite(17_500_000)), "17.50");
    assert_eq!(format_quantity(Quantity::Finite(17_500_000), 2), "17.50");
}

#[test]
fn infinite_readings_are_clamped_and_no_number_stays_none() {
    assert_eq!(
        display_value(DisplayBasis::UsedPercentage, Quantity::PosInfinity),
        Quantity::Finite(100_000_000)
    );
    assert_eq!(
        display_value(DisplayBasis::RemainingAllowance, Quantity::NegInfinity),
        Quantity::Finite(100_000_000)
    );
    assert_eq!(
        display_value(DisplayBasis::UsedPercentage, Quantity::NotANumber),
        Quantity::NotANumber
    );
}

#[test]
fn every_occurrence_of_a_placeholder_is_replaced() {
    assert_eq!(replaced("{v} of {v}", "{v}", "2.0"), "2.0 of 2.0");
    assert_eq!(replaced("nothing", "{v}", "2.0"), "nothing");
}
