use wake_cycle::datetime::{days_in_month, is_leap_year, RtcDateTime};

fn dt(year: u16, month: u8, day: u8, hour: u8, minute: u8, second: u8) -> RtcDateTime {
    RtcDateTime::new(year, month, day, hour, minute, second).unwrap()
}

#[test]
fn new_accepts_valid_values() {
    let v = dt(2020, 5, 15, 10, 30, 15);
    assert_eq!(v.year, 2020);
    assert_eq!(v.month, 5);
    assert_eq!(v.day, 15);
    assert_eq!(v.hour, 10);
    assert_eq!(v.minute, 30);
    assert_eq!(v.second, 15);
}

#[test]
fn new_rejects_out_of_range_fields() {
    assert!(RtcDateTime::new(2020, 13, 1, 0, 0, 0).is_none());
    assert!(RtcDateTime::new(2020, 0, 1, 0, 0, 0).is_none());
    assert!(RtcDateTime::new(2020, 1, 0, 0, 0, 0).is_none());
    assert!(RtcDateTime::new(2020, 1, 32, 0, 0, 0).is_none());
    assert!(RtcDateTime::new(2020, 1, 1, 24, 0, 0).is_none());
    assert!(RtcDateTime::new(2020, 1, 1, 0, 60, 0).is_none());
    assert!(RtcDateTime::new(2020, 1, 1, 0, 0, 60).is_none());
    assert!(RtcDateTime::new(1999, 1, 1, 0, 0, 0).is_none());
    assert!(RtcDateTime::new(2100, 1, 1, 0, 0, 0).is_none());
}

#[test]
fn new_applies_leap_year_rule() {
    assert!(RtcDateTime::new(2020, 2, 29, 0, 0, 0).is_some());
    assert!(RtcDateTime::new(2021, 2, 29, 0, 0, 0).is_none());
    assert!(RtcDateTime::new(2020, 2, 30, 0, 0, 0).is_none());
    assert!(RtcDateTime::new(2020, 4, 31, 0, 0, 0).is_none());
}

#[test]
fn leap_years_and_month_lengths() {
    assert!(is_leap_year(2000));
    assert!(is_leap_year(2020));
    assert!(!is_leap_year(2021));
    assert!(!is_leap_year(2023));
    assert_eq!(days_in_month(2020, 2), 29);
    assert_eq!(days_in_month(2021, 2), 28);
    assert_eq!(days_in_month(2021, 4), 30);
    assert_eq!(days_in_month(2021, 12), 31);
}

#[test]
fn next_advances_one_second() {
    assert_eq!(dt(2020, 5, 15, 10, 30, 15).next(), dt(2020, 5, 15, 10, 30, 16));
}

#[test]
fn next_rolls_minute_hour_and_day() {
    assert_eq!(dt(2020, 5, 15, 10, 30, 59).next(), dt(2020, 5, 15, 10, 31, 0));
    assert_eq!(dt(2020, 5, 15, 10, 59, 59).next(), dt(2020, 5, 15, 11, 0, 0));
    assert_eq!(dt(2020, 5, 15, 23, 59, 59).next(), dt(2020, 5, 16, 0, 0, 0));
}

#[test]
fn next_rolls_month_and_year() {
    assert_eq!(dt(2020, 2, 28, 23, 59, 59).next(), dt(2020, 2, 29, 0, 0, 0));
    assert_eq!(dt(2021, 2, 28, 23, 59, 59).next(), dt(2021, 3, 1, 0, 0, 0));
    assert_eq!(dt(2020, 4, 30, 23, 59, 59).next(), dt(2020, 5, 1, 0, 0, 0));
    assert_eq!(dt(2020, 12, 31, 23, 59, 59).next(), dt(2021, 1, 1, 0, 0, 0));
}

#[test]
fn next_wraps_the_century_like_the_two_digit_year() {
    assert_eq!(dt(2099, 12, 31, 23, 59, 59).next(), dt(2000, 1, 1, 0, 0, 0));
}

#[test]
fn plus_seconds_counts_and_keeps_the_seconds_field_mod_60() {
    let start = dt(2020, 5, 15, 10, 30, 15);
    assert_eq!(start.plus_seconds(0), start);
    assert_eq!(start.plus_seconds(1), dt(2020, 5, 15, 10, 30, 16));
    assert_eq!(start.plus_seconds(60), dt(2020, 5, 15, 10, 31, 15));
    assert_eq!(start.plus_seconds(3600), dt(2020, 5, 15, 11, 30, 15));
    assert_eq!(start.plus_seconds(120).second, start.second);
}
