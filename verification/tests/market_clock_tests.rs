use market_oracle::market_clock::{
    is_us_market_open, is_within_15_minutes_of_market_open_or_close,
};

// 1700145000 is day 19677 since the epoch (a Thursday, weekday number 3)
// with 52200 seconds since midnight: exactly market open time.
const THURSDAY_AT_OPEN: i64 = 1700145000;
// Same Thursday at 21:00:00 UTC (75600 seconds since midnight): market close.
const THURSDAY_AT_CLOSE: i64 = 1700168400;
// Day 19678, the following Friday (weekday number 4), during market hours.
const FRIDAY_MIDDAY: i64 = 19678 * 86400 + 60000;
// Day 19679, a Saturday (weekday number 5), at the same time of day.
const SATURDAY_MIDDAY: i64 = 19679 * 86400 + 60000;
// Day 19680, a Sunday (weekday number 6), at the same time of day.
const SUNDAY_MIDDAY: i64 = 19680 * 86400 + 60000;

#[test]
fn open_exactly_at_market_open() {
    assert_eq!(is_us_market_open(THURSDAY_AT_OPEN), true);
    assert_eq!(is_within_15_minutes_of_market_open_or_close(THURSDAY_AT_OPEN), true);
}

#[test]
fn closed_exactly_at_market_close() {
    assert_eq!(is_us_market_open(THURSDAY_AT_CLOSE), false);
    assert_eq!(is_within_15_minutes_of_market_open_or_close(THURSDAY_AT_CLOSE), true);
}

#[test]
fn closed_one_second_before_open() {
    assert_eq!(is_us_market_open(THURSDAY_AT_OPEN - 1), false);
    assert_eq!(is_within_15_minutes_of_market_open_or_close(THURSDAY_AT_OPEN - 1), false);
}

#[test]
fn open_one_second_before_close() {
    assert_eq!(is_us_market_open(THURSDAY_AT_CLOSE - 1), true);
    assert_eq!(is_within_15_minutes_of_market_open_or_close(THURSDAY_AT_CLOSE - 1), false);
}

#[test]
fn open_midday_on_a_week_day() {
    assert_eq!(is_us_market_open(THURSDAY_AT_OPEN + 3600), true);
}

#[test]
fn open_on_friday_during_market_hours() {
    assert_eq!(is_us_market_open(FRIDAY_MIDDAY), true);
}

#[test]
fn closed_on_weekend_days_even_during_market_hours() {
    assert_eq!(is_us_market_open(SATURDAY_MIDDAY), false);
    assert_eq!(is_us_market_open(SUNDAY_MIDDAY), false);
}

#[test]
fn near_open_window_boundaries() {
    // [52200, 53100): last second in, first second out.
    assert_eq!(is_within_15_minutes_of_market_open_or_close(THURSDAY_AT_OPEN + 899), true);
    assert_eq!(is_within_15_minutes_of_market_open_or_close(THURSDAY_AT_OPEN + 900), false);
}

#[test]
fn near_close_window_boundaries() {
    // [75600, 76500): last second in, first second out.
    assert_eq!(is_within_15_minutes_of_market_open_or_close(THURSDAY_AT_CLOSE + 899), true);
    assert_eq!(is_within_15_minutes_of_market_open_or_close(THURSDAY_AT_CLOSE + 900), false);
}

#[test]
fn between_the_two_near_windows() {
    assert_eq!(is_within_15_minutes_of_market_open_or_close(THURSDAY_AT_OPEN + 10000), false);
}

#[test]
fn friday_morning_before_the_open_window() {
    // 1700216400 is day 19678 (a Friday) with 37200 seconds since
    // midnight: a trading day, but well before the open window.
    assert_eq!(is_us_market_open(1700216400), false);
    assert_eq!(is_within_15_minutes_of_market_open_or_close(1700216400), false);
}

#[test]
fn negative_timestamps_follow_truncating_remainders() {
    // For pre-epoch timestamps Rust's `%` yields a negative seconds-since-
    // midnight value, which never lands in the open or near windows.
    assert_eq!(is_us_market_open(-1), false);
    assert_eq!(is_within_15_minutes_of_market_open_or_close(-1), false);
    assert_eq!(is_us_market_open(-100000), false);
    assert_eq!(is_within_15_minutes_of_market_open_or_close(-100000), false);
    assert_eq!(is_us_market_open(i64::MIN), false);
}
