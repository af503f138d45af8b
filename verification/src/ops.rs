//! Calendar and clock helpers shared by the schedule: leap years, the
//! Julian day number, seasonal progression since the winter solstice,
//! minute adjustment and rounding of instants, and the Moonsighting
//! Committee seasonal twilight corrections.
//!
//! An instant is a count of UTC seconds; the schedule works on plain
//! instants throughout.

use vstd::prelude::*;

use crate::rounding::Rounding;
use crate::shafaq::Shafaq;

verus! {

/// Largest instant (absolute value, in seconds) the library accepts;
/// roughly three hundred thousand years away from the epoch, far beyond
/// the supported calendar span, and small enough that the schedule
/// arithmetic stays inside `i64`.
pub const MAX_INSTANT: i64 = 10_000_000_000_000;

/// Scale of the twilight coefficient numerators: a coefficient expressed
/// in minutes is held as `numerator / TWILIGHT_SCALE`, exact for a
/// latitude in microdegrees divided by 55 degrees.
pub const TWILIGHT_SCALE: i64 = 5_500_000_000;

/// Whether the Gregorian year is a leap year.
pub open spec fn spec_is_leap_year(year: int) -> bool {
    year % 400 == 0 || (year % 4 == 0 && year % 100 != 0)
}

pub fn is_leap_year(year: u32) -> (r: bool)
    ensures
        r == spec_is_leap_year(year as int),
{
    year % 400 == 0 || (year % 4 == 0 && year % 100 != 0)
}

/// The Julian day number of the date at `0h` universal time, offset so
/// that the astronomical Julian date equals the result minus one half.
pub open spec fn spec_julian_day_number(year: int, month: int, day: int) -> int {
    let adjusted_year = if month > 2 {
        year
    } else {
        year - 1
    };
    let adjusted_month = if month > 2 {
        month
    } else {
        month + 12
    };
    let a = adjusted_year / 100;
    let b = 2 - a + a / 4;
    let i0 = (1461 * (adjusted_year + 4716)) / 4;
    let i1 = (306001 * (adjusted_month + 1)) / 10000;
    i0 + i1 + day + b - 1524
}

pub fn julian_day_number(year: i32, month: i32, day: i32) -> (r: i64)
    requires
        1 <= year <= 9999,
        1 <= month <= 12,
        1 <= day <= 31,
    ensures
        r == spec_julian_day_number(year as int, month as int, day as int),
{
    let adjusted_year: i64 = if month > 2 {
        year as i64
    } else {
        year as i64 - 1
    };
    let adjusted_month: i64 = if month > 2 {
        month as i64
    } else {
        month as i64 + 12
    };
    let a = adjusted_year.checked_div_euclid(100).unwrap();
    let b = 2 - a + a.checked_div_euclid(4).unwrap();
    let i0 = (1461 * (adjusted_year + 4716)).checked_div_euclid(4).unwrap();
    let i1 = (306001 * (adjusted_month + 1)).checked_div_euclid(10000).unwrap();
    i0 + i1 + day as i64 + b - 1524
}

/// Days of seasonal progression since the most recent winter solstice of
/// the observer's hemisphere.
pub open spec fn spec_days_since_solstice(day_of_year: int, year: int, latitude: int) -> int {
    let days_in_year: int = if spec_is_leap_year(year) {
        366
    } else {
        365
    };
    if latitude < 0 {
        let southern_offset: int = if spec_is_leap_year(year) {
            173
        } else {
            172
        };
        day_of_year - southern_offset + days_in_year
    } else {
        let lapsed = day_of_year + 10;
        if lapsed >= days_in_year {
            lapsed - days_in_year
        } else {
            lapsed
        }
    }
}

pub fn days_since_solstice(day_of_year: u32, year: u32, latitude: i64) -> (r: u32)
    requires
        1 <= day_of_year <= 366,
    ensures
        r == spec_days_since_solstice(day_of_year as int, year as int, latitude as int),
        r <= 560,
{
    let days_in_year: u32 = if is_leap_year(year) {
        366
    } else {
        365
    };
    if latitude < 0 {
        let southern_offset: u32 = if is_leap_year(year) {
            173
        } else {
            172
        };
        day_of_year + days_in_year - southern_offset
    } else {
        let lapsed = day_of_year + 10;
        if lapsed >= days_in_year {
            lapsed - days_in_year
        } else {
            lapsed
        }
    }
}

/// The instant shifted by a whole number of minutes.
pub open spec fn spec_adjust_time(instant: int, minutes: int) -> int {
    instant + minutes * 60
}

pub fn adjust_time(instant: i64, minutes: i64) -> (r: i64)
    requires
        -100_000_000_000_000_000 <= instant <= 100_000_000_000_000_000,
        -200_000 <= minutes <= 200_000,
    ensures
        r == spec_adjust_time(instant as int, minutes as int),
{
    instant + minutes * 60
}

/// Division truncating toward zero, the behaviour of machine division on
/// signed counts of seconds, minutes, and hours.
pub open spec fn spec_trunc_div(a: int, b: int) -> int {
    if a >= 0 {
        a / b
    } else {
        -((-a) / b)
    }
}

/// The remainder matching [`spec_trunc_div`]: it carries the sign of the
/// dividend.
pub open spec fn spec_trunc_rem(a: int, b: int) -> int {
    a - b * spec_trunc_div(a, b)
}

/// The UTC calendar day an instant falls on, as a count of whole days
/// since the epoch.
pub open spec fn spec_utc_day(instant: int) -> int {
    instant / 86400
}

pub fn utc_day(instant: i64) -> (r: i64)
    requires
        -100_000_000_000_000_000 <= instant <= 100_000_000_000_000_000,
    ensures
        r == spec_utc_day(instant as int),
{
    instant.checked_div_euclid(86400).unwrap()
}

/// The instant aligned to a whole minute under the chosen policy.
/// Rounding up always moves to the next minute boundary, even from an
/// instant already on one.
pub open spec fn spec_rounded_minute(instant: int, rounding: Rounding) -> int {
    let seconds = instant % 60;
    match rounding {
        Rounding::Nearest => if seconds >= 30 {
            instant + 60 - seconds
        } else {
            instant - seconds
        },
        Rounding::Up => instant + 60 - seconds,
        Rounding::Unrounded => instant,
    }
}

/// Every rounding policy moves an instant at most 29 seconds earlier
/// and at most 60 seconds later; rounding to the nearest minute moves
/// it at most 30 seconds later.
pub proof fn lemma_rounded_minute_close(instant: int, rounding: Rounding)
    ensures
        instant - 29 <= spec_rounded_minute(instant, rounding) <= instant + 60,
        rounding == Rounding::Nearest ==> spec_rounded_minute(instant, rounding) <= instant + 30,
{
}

/// Under one rounding policy, instants at least a whole minute apart
/// stay strictly ordered after rounding.
pub proof fn lemma_rounded_minute_ordered(earlier: int, later: int, rounding: Rounding)
    requires
        earlier + 60 <= later,
    ensures
        spec_rounded_minute(earlier, rounding) < spec_rounded_minute(later, rounding),
{
}

pub fn rounded_minute(instant: i64, rounding: Rounding) -> (r: i64)
    requires
        -100_000_000_000_000_000 <= instant <= 100_000_000_000_000_000,
    ensures
        r == spec_rounded_minute(instant as int, rounding),
{
    let seconds = instant.checked_rem_euclid(60).unwrap();
    match rounding {
        Rounding::Nearest => if seconds >= 30 {
            instant + (60 - seconds)
        } else {
            instant - seconds
        },
        Rounding::Up => instant + (60 - seconds),
        Rounding::Unrounded => instant,
    }
}

/// The four seasonal breakpoint coefficients, in minutes scaled by
/// [`TWILIGHT_SCALE`], for an absolute latitude `l` in microdegrees.
/// Morning twilight has one fixed set; evening twilight has one set per
/// twilight-glow category.
pub open spec fn spec_twilight_breakpoints(morning: bool, shafaq: Shafaq, l: int) -> (int, int, int, int) {
    let s = TWILIGHT_SCALE as int;
    if morning {
        (75 * s + 2865 * l, 75 * s + 1944 * l, 75 * s + 3274 * l, 75 * s + 4810 * l)
    } else {
        match shafaq {
            Shafaq::General => (75 * s + 2560 * l, 75 * s + 205 * l, 75 * s - 921 * l, 75 * s + 614 * l),
            Shafaq::Ahmer => (62 * s + 1740 * l, 62 * s - 716 * l, 62 * s + 512 * l, 62 * s + 1944 * l),
            Shafaq::Abyad => (75 * s + 2560 * l, 75 * s + 716 * l, 75 * s + 3684 * l, 75 * s + 8184 * l),
        }
    }
}

/// The twilight correction in minutes, as `numerator / denominator`,
/// interpolated piecewise between the breakpoints over the days since
/// the solstice.
pub open spec fn spec_twilight_fraction(morning: bool, shafaq: Shafaq, l: int, dyy: int) -> (int, int) {
    let s = TWILIGHT_SCALE as int;
    let (a, b, c, d) = spec_twilight_breakpoints(morning, shafaq, l);
    if 0 <= dyy <= 90 {
        (a * 91 + (b - a) * dyy, 91 * s)
    } else if dyy <= 136 {
        (b * 46 + (c - b) * (dyy - 91), 46 * s)
    } else if dyy <= 182 {
        (c * 46 + (d - c) * (dyy - 137), 46 * s)
    } else if dyy <= 228 {
        (d * 46 + (c - d) * (dyy - 183), 46 * s)
    } else if dyy <= 274 {
        (c * 46 + (b - c) * (dyy - 229), 46 * s)
    } else {
        (b * 91 + (a - b) * (dyy - 275), 91 * s)
    }
}

/// The twilight correction converted to whole seconds, rounding the
/// minute fraction half up.
pub open spec fn spec_season_adjustment_seconds(morning: bool, shafaq: Shafaq, l: int, dyy: int) -> int {
    let (num, den) = spec_twilight_fraction(morning, shafaq, l, dyy);
    (120 * num + den) / (2 * den)
}

fn season_adjustment_seconds(morning: bool, shafaq: Shafaq, latitude: i64, dyy: u32) -> (r: i64)
    requires
        -90_000_000 <= latitude <= 90_000_000,
        dyy <= 600,
    ensures
        r == spec_season_adjustment_seconds(
            morning,
            shafaq,
            (if latitude < 0 { -(latitude as int) } else { latitude as int }),
            dyy as int,
        ),
        0 <= r <= 100_000,
{
    let l: i64 = if latitude < 0 {
        -latitude
    } else {
        latitude
    };
    let (a, b, c, d): (i64, i64, i64, i64) = if morning {
        (75 * TWILIGHT_SCALE + 2865 * l, 75 * TWILIGHT_SCALE + 1944 * l, 75 * TWILIGHT_SCALE + 3274 * l, 75
            * TWILIGHT_SCALE + 4810 * l)
    } else {
        match shafaq {
            Shafaq::General => (75 * TWILIGHT_SCALE + 2560 * l, 75 * TWILIGHT_SCALE + 205 * l, 75 * TWILIGHT_SCALE
                - 921 * l, 75 * TWILIGHT_SCALE + 614 * l),
            Shafaq::Ahmer => (62 * TWILIGHT_SCALE + 1740 * l, 62 * TWILIGHT_SCALE - 716 * l, 62 * TWILIGHT_SCALE + 512
                * l, 62 * TWILIGHT_SCALE + 1944 * l),
            Shafaq::Abyad => (75 * TWILIGHT_SCALE + 2560 * l, 75 * TWILIGHT_SCALE + 716 * l, 75 * TWILIGHT_SCALE + 3684
                * l, 75 * TWILIGHT_SCALE + 8184 * l),
        }
    };
    let dyy = dyy as i64;
    let (num, den): (i64, i64) = if dyy <= 90 {
        proof {
            assert(0 <= a * 91 + (b - a) * dyy <= 1000 * (91 * TWILIGHT_SCALE as int)
                && -2_000_000_000_000_000 <= (b - a) * dyy <= 2_000_000_000_000_000) by (nonlinear_arith)
                requires
                    0 <= dyy <= 90,
                    0 <= a <= 1_200_000_000_000,
                    0 <= b <= 1_200_000_000_000,
            {
            }
        }
        (a * 91 + (b - a) * dyy, 91 * TWILIGHT_SCALE)
    } else if dyy <= 136 {
        proof {
            assert(0 <= b * 46 + (c - b) * (dyy - 91) <= 1000 * (46 * TWILIGHT_SCALE as int)
                && -2_000_000_000_000_000 <= (c - b) * (dyy - 91) <= 2_000_000_000_000_000) by (nonlinear_arith)
                requires
                    91 <= dyy <= 136,
                    0 <= b <= 1_200_000_000_000,
                    0 <= c <= 1_200_000_000_000,
            {
            }
        }
        (b * 46 + (c - b) * (dyy - 91), 46 * TWILIGHT_SCALE)
    } else if dyy <= 182 {
        proof {
            assert(0 <= c * 46 + (d - c) * (dyy - 137) <= 1000 * (46 * TWILIGHT_SCALE as int)
                && -2_000_000_000_000_000 <= (d - c) * (dyy - 137) <= 2_000_000_000_000_000) by (nonlinear_arith)
                requires
                    137 <= dyy <= 182,
                    0 <= c <= 1_200_000_000_000,
                    0 <= d <= 1_200_000_000_000,
            {
            }
        }
        (c * 46 + (d - c) * (dyy - 137), 46 * TWILIGHT_SCALE)
    } else if dyy <= 228 {
        proof {
            assert(0 <= d * 46 + (c - d) * (dyy - 183) <= 1000 * (46 * TWILIGHT_SCALE as int)
                && -2_000_000_000_000_000 <= (c - d) * (dyy - 183) <= 2_000_000_000_000_000) by (nonlinear_arith)
                requires
                    183 <= dyy <= 228,
                    0 <= c <= 1_200_000_000_000,
                    0 <= d <= 1_200_000_000_000,
            {
            }
        }
        (d * 46 + (c - d) * (dyy - 183), 46 * TWILIGHT_SCALE)
    } else if dyy <= 274 {
        proof {
            assert(0 <= c * 46 + (b - c) * (dyy - 229) <= 1000 * (46 * TWILIGHT_SCALE as int)
                && -2_000_000_000_000_000 <= (b - c) * (dyy - 229) <= 2_000_000_000_000_000) by (nonlinear_arith)
                requires
                    229 <= dyy <= 274,
                    0 <= b <= 1_200_000_000_000,
                    0 <= c <= 1_200_000_000_000,
            {
            }
        }
        (c * 46 + (b - c) * (dyy - 229), 46 * TWILIGHT_SCALE)
    } else {
        proof {
            assert(0 <= b * 91 + (a - b) * (dyy - 275) <= 1000 * (91 * TWILIGHT_SCALE as int)
                && -2_000_000_000_000_000 <= (a - b) * (dyy - 275) <= 2_000_000_000_000_000) by (nonlinear_arith)
                requires
                    275 <= dyy <= 600,
                    0 <= b <= a <= 1_200_000_000_000,
            {
            }
        }
        (b * 91 + (a - b) * (dyy - 275), 91 * TWILIGHT_SCALE)
    };
    proof {
        vstd::arithmetic::div_mod::lemma_div_pos_is_pos(120 * num + den, 2 * den);
        assert((120 * num + den) / (2 * den) <= 100_000) by (nonlinear_arith)
            requires
                0 <= num <= 1000 * den,
                0 < den,
        {
        }
    }
    (120 * num + den).checked_div_euclid(2 * den).unwrap()
}

/// For the Moonsighting Committee method: the morning twilight instant
/// obtained by moving the raw sunrise earlier by the seasonal correction.
pub open spec fn spec_season_adjusted_morning_twilight(
    latitude: int,
    day: int,
    year: int,
    sunrise: int,
) -> int {
    let l = if latitude < 0 {
        -latitude
    } else {
        latitude
    };
    let dyy = spec_days_since_solstice(day, year, latitude);
    sunrise - spec_season_adjustment_seconds(true, Shafaq::General, l, dyy)
}

pub fn season_adjusted_morning_twilight(latitude: i64, day: u32, year: u32, sunrise: i64) -> (r: i64)
    requires
        -90_000_000 <= latitude <= 90_000_000,
        1 <= day <= 366,
        -20_000_000_000_000 <= sunrise <= 20_000_000_000_000,
    ensures
        r == spec_season_adjusted_morning_twilight(latitude as int, day as int, year as int, sunrise as int),
        sunrise - 100_000 <= r <= sunrise,
{
    let dyy = days_since_solstice(day, year, latitude);
    let seconds = season_adjustment_seconds(true, Shafaq::General, latitude, dyy);
    sunrise - seconds
}

/// For the Moonsighting Committee method: the evening twilight instant
/// obtained by moving the raw sunset later by the seasonal correction for
/// the chosen twilight-glow category, then rounding to the nearest minute.
pub open spec fn spec_season_adjusted_evening_twilight(
    latitude: int,
    day: int,
    year: int,
    sunset: int,
    shafaq: Shafaq,
) -> int {
    let l = if latitude < 0 {
        -latitude
    } else {
        latitude
    };
    let dyy = spec_days_since_solstice(day, year, latitude);
    spec_rounded_minute(sunset + spec_season_adjustment_seconds(false, shafaq, l, dyy), Rounding::Nearest)
}

pub fn season_adjusted_evening_twilight(latitude: i64, day: u32, year: u32, sunset: i64, shafaq: Shafaq) -> (r: i64)
    requires
        -90_000_000 <= latitude <= 90_000_000,
        1 <= day <= 366,
        -20_000_000_000_000 <= sunset <= 20_000_000_000_000,
    ensures
        sunset - 60 <= r <= sunset + 100_060,
        r == spec_season_adjusted_evening_twilight(
            latitude as int,
            day as int,
            year as int,
            sunset as int,
            shafaq,
        ),
{
    let dyy = days_since_solstice(day, year, latitude);
    let seconds = season_adjustment_seconds(false, shafaq, latitude, dyy);
    rounded_minute(sunset + seconds, Rounding::Nearest)
}

} // verus!
