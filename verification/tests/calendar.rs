use chrono::{TimeZone, Utc};

use salah::date::Date;
use salah::ops;
use salah::rounding::Rounding;

#[test]
fn calculate_julian_day() {
    // The astronomical Julian date of 1992-10-13 at 0h is 2448908.5;
    // the day number carries its integer part plus one half.
    assert_eq!(ops::julian_day_number(1992, 10, 13), 2_448_909);
    // The epoch of the Julian century count: 2000-01-01 at 0h is JD 2451544.5.
    assert_eq!(ops::julian_day_number(2000, 1, 1), 2_451_545);
}

#[test]
fn julian_day_number_handles_early_months() {
    // January and February count as the 13th and 14th months of the
    // preceding year: 2000-02-29 at 0h is JD 2451603.5, 2015-07-12 is 2457215.5.
    assert_eq!(ops::julian_day_number(2000, 2, 29), 2_451_604);
    assert_eq!(ops::julian_day_number(2015, 7, 12), 2_457_216);
}

#[test]
fn leap_years() {
    assert!(ops::is_leap_year(2000));
    assert!(ops::is_leap_year(2016));
    assert!(!ops::is_leap_year(1900));
    assert!(!ops::is_leap_year(2015));
}

#[test]
fn days_since_solstice_northern_and_southern() {
    // Northern hemisphere: ten days after the day of the year, wrapping
    // at the year's end.
    assert_eq!(ops::days_since_solstice(1, 2016, 35_775_000), 11);
    assert_eq!(ops::days_since_solstice(360, 2015, 35_775_000), 5);
    assert_eq!(ops::days_since_solstice(355, 2015, 35_775_000), 0);
    // Southern hemisphere: counted from the June solstice.
    assert_eq!(ops::days_since_solstice(1, 2015, -6_182_340), 194);
    assert_eq!(ops::days_since_solstice(200, 2015, -6_182_340), 393);
}

#[test]
fn date_ordinals() {
    assert_eq!(Date::new(2015, 1, 1).ordinal(), 1);
    assert_eq!(Date::new(2015, 7, 12).ordinal(), 193);
    assert_eq!(Date::new(2016, 7, 12).ordinal(), 194);
    assert_eq!(Date::new(2016, 12, 31).ordinal(), 366);
}

#[test]
fn calculate_date_for_tomorrow() {
    let tomorrow = Date::new(2019, 1, 10).tomorrow();
    assert_eq!(tomorrow, Date::new(2019, 1, 11));
    assert_eq!(Date::new(2015, 12, 31).tomorrow(), Date::new(2016, 1, 1));
    assert_eq!(Date::new(2016, 2, 28).tomorrow(), Date::new(2016, 2, 29));
    assert_eq!(Date::new(2016, 1, 1).yesterday(), Date::new(2015, 12, 31));
    assert_eq!(Date::new(2016, 3, 1).yesterday(), Date::new(2016, 2, 29));
}

#[test]
fn calculate_rounding_nearest() {
    let time_1 = Utc.with_ymd_and_hms(2015, 7, 13, 4, 37, 30).unwrap().timestamp();
    assert_eq!(
        ops::rounded_minute(time_1, Rounding::Nearest),
        Utc.with_ymd_and_hms(2015, 7, 13, 4, 38, 0).unwrap().timestamp()
    );
    let time_2 = Utc.with_ymd_and_hms(2015, 7, 13, 4, 37, 29).unwrap().timestamp();
    assert_eq!(
        ops::rounded_minute(time_2, Rounding::Nearest),
        Utc.with_ymd_and_hms(2015, 7, 13, 4, 37, 0).unwrap().timestamp()
    );
}

#[test]
fn calculate_rounding_up() {
    let time_1 = Utc.with_ymd_and_hms(2015, 7, 13, 5, 59, 20).unwrap().timestamp();
    assert_eq!(
        ops::rounded_minute(time_1, Rounding::Up),
        Utc.with_ymd_and_hms(2015, 7, 13, 6, 0, 0).unwrap().timestamp()
    );
}

#[test]
fn calculate_rounding_none() {
    let time_1 = Utc.with_ymd_and_hms(2015, 7, 13, 5, 59, 20).unwrap().timestamp();
    assert_eq!(ops::rounded_minute(time_1, Rounding::Unrounded), time_1);
}

#[test]
fn utc_day_boundaries() {
    let before_midnight = Utc.with_ymd_and_hms(2015, 7, 12, 23, 59, 59).unwrap().timestamp();
    let at_midnight = Utc.with_ymd_and_hms(2015, 7, 13, 0, 0, 0).unwrap().timestamp();
    assert_eq!(ops::utc_day(before_midnight) + 1, ops::utc_day(at_midnight));
    assert_eq!(ops::utc_day(-1), -1);
    assert_eq!(ops::utc_day(0), 0);
}

#[test]
fn season_adjusted_morning_twilight_exact() {
    // Eleven days after the solstice at 59.9094 degrees north, the
    // morning correction is 105 minutes: 6300 seconds before sunrise.
    let sunrise = Utc.with_ymd_and_hms(2016, 1, 1, 8, 19, 0).unwrap().timestamp();
    let adjusted = ops::season_adjusted_morning_twilight(59_909_400, 1, 2016, sunrise);
    assert_eq!(adjusted, sunrise - 6_300);
}

#[test]
fn season_adjusted_evening_twilight_exact() {
    // The same day and latitude: 5987 seconds after sunset, rounded to
    // the nearest minute.
    let sunset = Utc.with_ymd_and_hms(2016, 1, 1, 14, 22, 0).unwrap().timestamp();
    let adjusted = ops::season_adjusted_evening_twilight(
        59_909_400,
        1,
        2016,
        sunset,
        salah::shafaq::Shafaq::General,
    );
    let raw = sunset + 5_987;
    assert_eq!(adjusted, ops::rounded_minute(raw, Rounding::Nearest));
    // The glow category changes the coefficients and so the instant.
    let ahmer = ops::season_adjusted_evening_twilight(
        59_909_400,
        1,
        2016,
        sunset,
        salah::shafaq::Shafaq::Ahmer,
    );
    assert_ne!(adjusted, ahmer);
}

#[test]
fn adjust_time_moves_by_minutes() {
    let base = Utc.with_ymd_and_hms(2015, 7, 13, 5, 0, 0).unwrap().timestamp();
    assert_eq!(ops::adjust_time(base, 3), base + 180);
    assert_eq!(ops::adjust_time(base, -10), base - 600);
}
