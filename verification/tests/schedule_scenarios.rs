use chrono::{DateTime, FixedOffset, TimeZone, Utc};

use salah::adjustments::TimeAdjustment;
use salah::angle::Coordinates;
use salah::date::Date;
use salah::event::{Event, Prayer};
use salah::high_altitude_rule::HighLatitudeRule;
use salah::rounding::Rounding;
use salah::madhab::Madhab;
use salah::method::Method;
use salah::parameters::Parameters;
use salah::schedule::{Schedule, SolarDay, Times};

fn fmt(ts: i64) -> String {
    DateTime::<Utc>::from_timestamp(ts, 0).unwrap().format("%-l:%M %p").to_string()
}

fn fmt_at(ts: i64, offset_hours: i32) -> String {
    let offset = FixedOffset::east_opt(offset_hours * 3600).unwrap();
    DateTime::<Utc>::from_timestamp(ts, 0)
        .unwrap()
        .with_timezone(&offset)
        .format("%-l:%M %p")
        .to_string()
}

/// Raw solar instants for Raleigh, NC (35.775 N, 78.6336 W) around
/// 2015-07-12, for 15-degree dawn and dusk angles and the Hanafi
/// afternoon shadow ratio.
fn raleigh_solar() -> SolarDay {
    SolarDay {
        yesterday_sunset: 1_436_661_180,
        sunrise: 1_436_695_680,
        transit: 1_436_721_600,
        sunset: 1_436_747_520,
        asr: 1_436_739_720,
        fajr_base: Some(1_436_690_520),
        isha_base: Some(1_436_752_620),
        tomorrow_sunrise: 1_436_782_080,
        tomorrow_sunset: 1_436_833_920,
        tomorrow_fajr_base: Some(1_436_776_980),
        after_tomorrow_sunrise: 1_436_868_540,
    }
}

fn raleigh_times() -> Times {
    let date = Date::new(2015, 7, 12);
    let params = Parameters::from_method(Method::NorthAmerica).with_madhab(Madhab::Hanafi);
    let coordinates = Coordinates::new(35_775_000, -78_633_600);
    Times::new(&date, &coordinates, &params, &raleigh_solar())
}

#[test]
fn calculate_prayer_times() {
    let schedule = raleigh_times();

    assert_eq!(fmt(schedule.fajr()), "8:42 AM");
    assert_eq!(fmt(schedule.sunrise()), "10:08 AM");
    assert_eq!(fmt(schedule.dhuhr()), "5:21 PM");
    assert_eq!(fmt(schedule.asr()), "10:22 PM");
    assert_eq!(fmt(schedule.maghrib()), "12:32 AM");
    assert_eq!(fmt(schedule.isha()), "1:57 AM");
}

#[test]
fn calculate_times_using_the_builder_successfully() {
    let date = Date::new(2015, 7, 12);
    let params = Parameters::from_method(Method::NorthAmerica).with_madhab(Madhab::Hanafi);
    let coordinates = Coordinates::new(35_775_000, -78_633_600);
    let result = Schedule::new()
        .with_date(&date)
        .with_coordinates(coordinates)
        .with_parameters(params)
        .with_solar(raleigh_solar())
        .build();

    match result {
        Ok(schedule) => {
            assert_eq!(fmt(schedule.fajr()), "8:42 AM");
            assert_eq!(fmt(schedule.sunrise()), "10:08 AM");
            assert_eq!(fmt(schedule.dhuhr()), "5:21 PM");
            assert_eq!(fmt(schedule.asr()), "10:22 PM");
            assert_eq!(fmt(schedule.maghrib()), "12:32 AM");
            assert_eq!(fmt(schedule.isha()), "1:57 AM");
        }
        Err(_err) => unreachable!(),
    }
}

#[test]
fn calculate_times_using_the_builder_failure() {
    let date = Date::new(2015, 7, 12);
    let params = Parameters::from_method(Method::NorthAmerica).with_madhab(Madhab::Hanafi);
    let result = Schedule::new()
        .with_date(&date)
        .with_parameters(params)
        .with_solar(raleigh_solar())
        .build();

    assert!(result.is_err(), "We were expecting an error, but received data.");
}

#[test]
fn calculate_qiyam_times() {
    let date = Date::new(2015, 7, 12);
    let params = Parameters::from_method(Method::NorthAmerica).with_madhab(Madhab::Hanafi);
    let coordinates = Coordinates::new(35_775_000, -78_633_600);
    let result = Schedule::new()
        .with_date(&date)
        .with_coordinates(coordinates)
        .with_parameters(params)
        .with_solar(raleigh_solar())
        .build();

    match result {
        Ok(schedule) => {
            // Today's Maghrib: 2015-07-13T00:32:00Z
            // Tomorrow's Fajr: 2015-07-13T08:43:00Z
            // Middle of Night: 2015-07-13T04:38:00Z
            // Last Third     : 2015-07-13T05:59:00Z
            assert_eq!(fmt(schedule.maghrib()), "12:32 AM");
            assert_eq!(fmt(schedule.qiyam()), "5:59 AM");
            assert_eq!(
                schedule.midnight(),
                Utc.with_ymd_and_hms(2015, 7, 13, 4, 38, 0).unwrap().timestamp()
            );
        }
        Err(_err) => unreachable!(),
    }
}

#[test]
fn test_current_prayer() {
    let times = raleigh_times();
    // Given the schedule above, Fajr is at 2015-07-12T08:42:00Z.
    let cases: [(DateTime<Utc>, Event); 7] = [
        (Utc.with_ymd_and_hms(2015, 7, 12, 9, 0, 0).unwrap(), Event::Prayer(Prayer::Fajr)),
        (Utc.with_ymd_and_hms(2015, 7, 12, 11, 0, 0).unwrap(), Event::Sunrise),
        (Utc.with_ymd_and_hms(2015, 7, 12, 19, 0, 0).unwrap(), Event::Prayer(Prayer::Dhuhr)),
        (Utc.with_ymd_and_hms(2015, 7, 12, 22, 26, 0).unwrap(), Event::Prayer(Prayer::Asr)),
        (Utc.with_ymd_and_hms(2015, 7, 13, 1, 0, 0).unwrap(), Event::Prayer(Prayer::Maghrib)),
        (Utc.with_ymd_and_hms(2015, 7, 13, 2, 0, 0).unwrap(), Event::Prayer(Prayer::Isha)),
        (Utc.with_ymd_and_hms(2015, 7, 12, 8, 0, 0).unwrap(), Event::Qiyam),
    ];
    for (timestamp, expected) in cases {
        assert_eq!(times.current(timestamp.timestamp()).0, expected);
    }
}

#[test]
fn current_prayer_inside_sunset_window_is_restricted() {
    let times = raleigh_times();
    // Maghrib is at 2015-07-13T00:32:00Z; a quarter of an hour earlier
    // falls inside the twenty-minute forbidden window, so the state is
    // the during-sunset restriction rather than Asr.
    let inside = Utc.with_ymd_and_hms(2015, 7, 13, 0, 20, 0).unwrap().timestamp();
    assert_eq!(
        times.current(inside).0,
        Event::Restricted(salah::event::Reason::DuringSunset)
    );
    let well_before = Utc.with_ymd_and_hms(2015, 7, 12, 23, 0, 0).unwrap().timestamp();
    assert_eq!(times.current(well_before).0, Event::Prayer(Prayer::Asr));
}

#[test]
fn next_prayer_follows_the_cycle() {
    let times = raleigh_times();
    let during_fajr = Utc.with_ymd_and_hms(2015, 7, 12, 9, 0, 0).unwrap().timestamp();
    let next = times.next(during_fajr);
    assert_eq!(next.0, Event::Sunrise);
    assert_eq!(next.1, times.sunrise());

    let during_dhuhr = Utc.with_ymd_and_hms(2015, 7, 12, 19, 0, 0).unwrap().timestamp();
    assert_eq!(times.next(during_dhuhr).0, Event::Prayer(Prayer::Asr));
}

#[test]
fn time_remaining_until_next_event() {
    let times = raleigh_times();
    // At 09:00 the current event is Fajr and the next is sunrise at
    // 10:08, one hour and eight minutes later.
    let now = Utc.with_ymd_and_hms(2015, 7, 12, 9, 0, 0).unwrap().timestamp();
    assert_eq!(times.time_remaining(now), (1, 8));
}

#[test]
fn calculate_times_for_moonsighting_method() {
    let date = Date::new(2016, 1, 31);
    let params = Parameters::from_method(Method::MoonsightingCommittee).with_madhab(Madhab::Shafi);
    let coordinates = Coordinates::new(35_775_000, -78_633_600);
    let solar = SolarDay {
        yesterday_sunset: 1_454_193_540,
        sunrise: 1_454_242_560,
        transit: 1_454_261_280,
        sunset: 1_454_280_000,
        asr: 1_454_271_600,
        fajr_base: Some(1_454_237_280),
        isha_base: Some(1_454_285_280),
        tomorrow_sunrise: 1_454_328_900,
        tomorrow_sunset: 1_454_366_460,
        tomorrow_fajr_base: Some(1_454_323_680),
        after_tomorrow_sunrise: 1_454_415_240,
    };
    let result = Schedule::new()
        .with_date(&date)
        .with_coordinates(coordinates)
        .with_parameters(params)
        .with_solar(solar)
        .build();

    if let Ok(schedule) = result {
        // fajr    = 2016-01-31 10:48:00 UTC
        // sunrise = 2016-01-31 12:16:00 UTC
        // dhuhr   = 2016-01-31 17:33:00 UTC
        // asr     = 2016-01-31 20:20:00 UTC
        // maghrib = 2016-01-31 22:43:00 UTC
        // isha    = 2016-02-01 00:05:00 UTC
        assert_eq!(fmt(schedule.fajr()), "10:48 AM");
        assert_eq!(fmt(schedule.sunrise()), "12:16 PM");
        assert_eq!(fmt(schedule.dhuhr()), "5:33 PM");
        assert_eq!(fmt(schedule.asr()), "8:20 PM");
        assert_eq!(fmt(schedule.maghrib()), "10:43 PM");
        assert_eq!(fmt(schedule.isha()), "12:05 AM");
    } else {
        unreachable!()
    }
}

#[test]
fn calculate_times_for_moonsighting_method_with_high_latitude() {
    let date = Date::new(2016, 1, 1);
    let params = Parameters::from_method(Method::MoonsightingCommittee).with_madhab(Madhab::Hanafi);
    let coordinates = Coordinates::new(59_909_400, 10_734_900);
    // Above 55 degrees of latitude the Moonsighting Committee method
    // derives Fajr and Isha from the night's seventh, so no angle
    // crossings are needed.
    let solar = SolarDay {
        yesterday_sunset: 1_451_571_660,
        sunrise: 1_451_636_340,
        transit: 1_451_647_200,
        sunset: 1_451_658_120,
        asr: 1_451_651_760,
        fajr_base: None,
        isha_base: None,
        tomorrow_sunrise: 1_451_722_680,
        tomorrow_sunset: 1_451_744_640,
        tomorrow_fajr_base: None,
        after_tomorrow_sunrise: 1_451_809_080,
    };
    let result = Schedule::new()
        .with_date(&date)
        .with_coordinates(coordinates)
        .with_parameters(params)
        .with_solar(solar)
        .build();

    if let Ok(schedule) = result {
        // fajr    = 2016-01-01 06:34:00 UTC
        // sunrise = 2016-01-01 08:19:00 UTC
        // dhuhr   = 2016-01-01 11:25:00 UTC
        // asr     = 2016-01-01 12:36:00 UTC
        // maghrib = 2016-01-01 14:25:00 UTC
        // isha    = 2016-01-01 16:02:00 UTC
        assert_eq!(fmt(schedule.fajr()), "6:34 AM");
        assert_eq!(fmt(schedule.sunrise()), "8:19 AM");
        assert_eq!(fmt(schedule.dhuhr()), "11:25 AM");
        assert_eq!(fmt(schedule.asr()), "12:36 PM");
        assert_eq!(fmt(schedule.maghrib()), "2:25 PM");
        assert_eq!(fmt(schedule.isha()), "4:02 PM");
    } else {
        unreachable!()
    }
}

#[test]
fn calculate_times_for_singapore() {
    let date = Date::new(2021, 1, 13);
    let mut params = Parameters::from_method(Method::Singapore).with_madhab(Madhab::Shafi);
    params.high_latitude_rule = HighLatitudeRule::MiddleOfTheNight;
    let coordinates = Coordinates::new(1_370_845, 103_801_456);
    let solar = SolarDay {
        yesterday_sunset: 1_610_450_100,
        sunrise: 1_610_493_120,
        transit: 1_610_514_780,
        sunset: 1_610_536_500,
        asr: 1_610_527_080,
        fajr_base: Some(1_610_488_140),
        isha_base: Some(1_610_540_940),
        tomorrow_sunrise: 1_610_579_520,
        tomorrow_sunset: 1_610_622_900,
        tomorrow_fajr_base: Some(1_610_574_600),
        after_tomorrow_sunrise: 1_610_665_980,
    };
    let result = Schedule::new()
        .with_date(&date)
        .with_coordinates(coordinates)
        .with_parameters(params)
        .with_solar(solar)
        .build();

    match result {
        Ok(schedule) => {
            assert_eq!(fmt_at(schedule.fajr(), 8), "5:50 AM");
            assert_eq!(fmt_at(schedule.sunrise(), 8), "7:13 AM");
            assert_eq!(fmt_at(schedule.dhuhr(), 8), "1:15 PM");
            assert_eq!(fmt_at(schedule.asr(), 8), "4:39 PM");
            assert_eq!(fmt_at(schedule.maghrib(), 8), "7:16 PM");
            assert_eq!(fmt_at(schedule.isha(), 8), "8:30 PM");
        }
        Err(_err) => unreachable!(),
    }
}

#[test]
fn calculate_times_for_jakarta() {
    let date = Date::new(2021, 1, 12);
    let mut params = Parameters::from_method(Method::Egyptian).with_madhab(Madhab::Shafi);
    // Matches the times published locally; the published calculation is
    // not known exactly, hence the per-prayer adjustment.
    params.method_adjustments = TimeAdjustment::new(-10, -2, 2, 1, 2, 4);
    let coordinates = Coordinates::new(-6_182_340, 106_842_872);
    let solar = SolarDay {
        yesterday_sunset: 1_610_363_640,
        sunrise: 1_610_405_220,
        transit: 1_610_427_660,
        sunset: 1_610_450_040,
        asr: 1_610_440_020,
        fajr_base: Some(1_610_400_300),
        isha_base: Some(1_610_454_420),
        tomorrow_sunrise: 1_610_491_680,
        tomorrow_sunset: 1_610_536_500,
        tomorrow_fajr_base: Some(1_610_486_760),
        after_tomorrow_sunrise: 1_610_578_080,
    };
    let result = Schedule::new()
        .with_date(&date)
        .with_coordinates(coordinates)
        .with_parameters(params)
        .with_solar(solar)
        .build();

    match result {
        Ok(schedule) => {
            assert_eq!(fmt_at(schedule.fajr(), 7), "4:15 AM");
            assert_eq!(fmt_at(schedule.sunrise(), 7), "5:45 AM");
            assert_eq!(fmt_at(schedule.dhuhr(), 7), "12:03 PM");
            assert_eq!(fmt_at(schedule.asr(), 7), "3:28 PM");
            assert_eq!(fmt_at(schedule.maghrib(), 7), "6:16 PM");
            assert_eq!(fmt_at(schedule.isha(), 7), "7:31 PM");
        }
        Err(_err) => unreachable!(),
    }
}

#[test]
fn build_without_coordinates_is_a_configuration_error() {
    let date = Date::new(2015, 7, 12);
    let params = Parameters::from_method(Method::NorthAmerica);
    let result = Schedule::new().with_date(&date).with_parameters(params).build();
    match result {
        Err(err) => {
            assert_eq!(err, salah::schedule::ScheduleError::MissingInformation);
            assert_eq!(
                err.message(),
                "Required information is needed in order to calculate the prayer times."
            );
        }
        Ok(_) => unreachable!(),
    }
}

#[test]
fn build_rejects_an_impossible_date() {
    let params = Parameters::from_method(Method::NorthAmerica);
    let result = Schedule::new()
        .with_date(&Date::new(2015, 2, 30))
        .with_coordinates(Coordinates::new(35_775_000, -78_633_600))
        .with_parameters(params)
        .with_solar(raleigh_solar())
        .build();
    match result {
        Err(err) => assert_eq!(err, salah::schedule::ScheduleError::InvalidInformation),
        Ok(_) => unreachable!(),
    }
}

#[test]
fn build_rejects_a_negative_isha_interval() {
    let mut params = Parameters::from_method(Method::UmmAlQura);
    params.isha_interval = -90;
    let result = Schedule::new()
        .with_date(&Date::new(2015, 7, 12))
        .with_coordinates(Coordinates::new(35_775_000, -78_633_600))
        .with_parameters(params)
        .with_solar(raleigh_solar())
        .build();
    match result {
        Err(err) => assert_eq!(err, salah::schedule::ScheduleError::InvalidInformation),
        Ok(_) => unreachable!(),
    }
}

#[test]
fn build_rejects_missing_angle_crossings() {
    // The North America method needs the dawn and dusk angle crossings.
    let mut solar = raleigh_solar();
    solar.isha_base = None;
    let params = Parameters::from_method(Method::NorthAmerica);
    let result = Schedule::new()
        .with_date(&Date::new(2015, 7, 12))
        .with_coordinates(Coordinates::new(35_775_000, -78_633_600))
        .with_parameters(params)
        .with_solar(solar)
        .build();
    assert!(result.is_err());
}

#[test]
fn expected_prayers_reports_both_events() {
    let times = raleigh_times();
    let now = Utc.with_ymd_and_hms(2015, 7, 12, 9, 0, 0).unwrap().timestamp();
    let expected = times.expected(now);
    assert_eq!(expected.current_event(), Event::Prayer(Prayer::Fajr));
    assert_eq!(expected.current_time(), times.fajr());
    assert_eq!(expected.next_event(), Event::Sunrise);
    assert_eq!(expected.next_time(), times.sunrise());
}

#[test]
fn schedule_is_ordered_for_an_ordinary_day() {
    let schedule = raleigh_times();
    assert!(schedule.fajr() < schedule.sunrise());
    assert!(schedule.sunrise() < schedule.dhuhr());
    assert!(schedule.dhuhr() < schedule.asr());
    assert!(schedule.asr() < schedule.maghrib());
    assert!(schedule.maghrib() < schedule.isha());
    assert!(schedule.isha() < schedule.midnight());
    assert!(schedule.midnight() < schedule.qiyam());
}

#[test]
fn night_vigil_rounds_to_nearest_regardless_of_policy() {
    let date = Date::new(2015, 7, 12);
    let mut params = Parameters::from_method(Method::NorthAmerica).with_madhab(Madhab::Hanafi);
    params.rounding = Rounding::Unrounded;
    let coordinates = Coordinates::new(35_775_000, -78_633_600);
    let schedule = Times::new(&date, &coordinates, &params, &raleigh_solar());
    // With rounding switched off the prayer instants keep their raw
    // seconds, but the night-vigil midpoint — which falls on an odd half
    // minute here — is still rounded to the nearest whole minute, as is
    // the start of the last third.
    assert_eq!(schedule.midnight(), 1_436_762_280);
    assert_eq!(schedule.qiyam(), 1_436_767_140);
    assert_eq!(schedule.midnight() % 60, 0);
    assert_eq!(schedule.qiyam() % 60, 0);
}

#[test]
fn isha_interval_fixes_isha_after_sunset() {
    let date = Date::new(2015, 7, 12);
    let params = Parameters::from_method(Method::UmmAlQura);
    let coordinates = Coordinates::new(35_775_000, -78_633_600);
    let mut solar = raleigh_solar();
    // The fixed-interval rule reads no dusk crossing.
    solar.isha_base = None;
    let schedule = Times::new(&date, &coordinates, &params, &solar);
    // Maghrib is the rounded sunset; Isha comes 90 minutes after the
    // raw sunset.
    assert_eq!(schedule.isha(), solar.sunset + 90 * 60);
}
