//! The prayer schedule: deriving the named daily instants for one date
//! from the raw solar times, and answering current/next queries.
//!
//! All instants are UTC seconds. The raw solar instants — transit,
//! sunrise, sunset, and the solar-altitude crossings the configured
//! angles ask for — are handed in as a [`SolarDay`]; this module applies
//! the calculation-method policy: high-latitude safeguards, seasonal
//! twilight corrections, manual minute adjustments, and rounding.

use vstd::prelude::*;

use crate::angle::Coordinates;
use crate::date::Date;
use crate::event::{Event, Prayer, Reason};
use crate::method::Method;
use crate::ops;
use crate::parameters::{Parameters, Portion};
use crate::rounding::Rounding;

verus! {

/// Half the width of the window around the solar transit inside which
/// every raw instant of a [`SolarDay`] must fall: five days of seconds.
pub const SOLAR_WINDOW: i64 = 432_000;

/// Bound on every instant a schedule can hold.
pub const SCHEDULE_BOUND: i64 = 1_000_000_000_000_000;

/// The raw solar instants, in UTC seconds, for the window of days around
/// one date: unadjusted and unrounded outputs of the positional
/// astronomy.
///
/// The angle-based crossings are absent when the sun never reaches the
/// asked-for altitude on that day (polar conditions).
#[derive(Clone, Copy, Debug, PartialEq, Eq, Structural)]
pub struct SolarDay {
    /// Sunset of the preceding day.
    pub yesterday_sunset: i64,
    /// Sunrise of the date itself.
    pub sunrise: i64,
    /// Solar transit (solar noon) of the date itself.
    pub transit: i64,
    /// Sunset of the date itself.
    pub sunset: i64,
    /// The afternoon shadow-ratio crossing for the configured madhab.
    pub asr: i64,
    /// The morning crossing of the configured Fajr angle below the
    /// horizon.
    pub fajr_base: Option<i64>,
    /// The evening crossing of the configured Isha angle below the
    /// horizon.
    pub isha_base: Option<i64>,
    /// Sunrise of the following day.
    pub tomorrow_sunrise: i64,
    /// Sunset of the following day.
    pub tomorrow_sunset: i64,
    /// The morning Fajr-angle crossing of the following day.
    pub tomorrow_fajr_base: Option<i64>,
    /// Sunrise two days after the date.
    pub after_tomorrow_sunrise: i64,
}

impl SolarDay {
    /// Every instant lies in a short window around the transit, within
    /// the supported range, and the nights are not negative.
    pub open spec fn wf(self) -> bool {
        &&& -ops::MAX_INSTANT <= self.transit <= ops::MAX_INSTANT
        &&& self.transit - SOLAR_WINDOW <= self.yesterday_sunset <= self.transit + SOLAR_WINDOW
        &&& self.transit - SOLAR_WINDOW <= self.sunrise <= self.transit + SOLAR_WINDOW
        &&& self.transit - SOLAR_WINDOW <= self.sunset <= self.transit + SOLAR_WINDOW
        &&& self.transit - SOLAR_WINDOW <= self.asr <= self.transit + SOLAR_WINDOW
        &&& self.transit - SOLAR_WINDOW <= self.tomorrow_sunrise <= self.transit + SOLAR_WINDOW
        &&& self.transit - SOLAR_WINDOW <= self.tomorrow_sunset <= self.transit + SOLAR_WINDOW
        &&& self.transit - SOLAR_WINDOW <= self.after_tomorrow_sunrise <= self.transit + SOLAR_WINDOW
        &&& (self.fajr_base matches Some(t) ==> self.transit - SOLAR_WINDOW <= t <= self.transit + SOLAR_WINDOW)
        &&& (self.isha_base matches Some(t) ==> self.transit - SOLAR_WINDOW <= t <= self.transit + SOLAR_WINDOW)
        &&& (self.tomorrow_fajr_base matches Some(t) ==> self.transit - SOLAR_WINDOW <= t <= self.transit
            + SOLAR_WINDOW)
        &&& self.sunset <= self.tomorrow_sunrise
        &&& self.tomorrow_sunset <= self.after_tomorrow_sunrise
    }

    /// Checks `wf` at run time.
    pub fn is_coherent(&self) -> (r: bool)
        ensures
            r == self.wf(),
    {
        if !(-ops::MAX_INSTANT <= self.transit && self.transit <= ops::MAX_INSTANT) {
            return false;
        }
        let in_window_ys = self.transit - SOLAR_WINDOW <= self.yesterday_sunset && self.yesterday_sunset
            <= self.transit + SOLAR_WINDOW;
        let in_window_sr = self.transit - SOLAR_WINDOW <= self.sunrise && self.sunrise <= self.transit + SOLAR_WINDOW;
        let in_window_ss = self.transit - SOLAR_WINDOW <= self.sunset && self.sunset <= self.transit + SOLAR_WINDOW;
        let in_window_asr = self.transit - SOLAR_WINDOW <= self.asr && self.asr <= self.transit + SOLAR_WINDOW;
        let in_window_tsr = self.transit - SOLAR_WINDOW <= self.tomorrow_sunrise && self.tomorrow_sunrise
            <= self.transit + SOLAR_WINDOW;
        let in_window_tss = self.transit - SOLAR_WINDOW <= self.tomorrow_sunset && self.tomorrow_sunset <= self.transit
            + SOLAR_WINDOW;
        let in_window_atsr = self.transit - SOLAR_WINDOW <= self.after_tomorrow_sunrise && self.after_tomorrow_sunrise
            <= self.transit + SOLAR_WINDOW;
        let in_window_fb = match self.fajr_base {
            Some(t) => self.transit - SOLAR_WINDOW <= t && t <= self.transit + SOLAR_WINDOW,
            None => true,
        };
        let in_window_ib = match self.isha_base {
            Some(t) => self.transit - SOLAR_WINDOW <= t && t <= self.transit + SOLAR_WINDOW,
            None => true,
        };
        let in_window_tfb = match self.tomorrow_fajr_base {
            Some(t) => self.transit - SOLAR_WINDOW <= t && t <= self.transit + SOLAR_WINDOW,
            None => true,
        };
        -ops::MAX_INSTANT <= self.transit && self.transit <= ops::MAX_INSTANT && in_window_ys && in_window_sr
            && in_window_ss && in_window_asr && in_window_tsr && in_window_tss && in_window_atsr && in_window_fb
            && in_window_ib && in_window_tfb && self.sunset <= self.tomorrow_sunrise && self.tomorrow_sunset
            <= self.after_tomorrow_sunrise
    }
}

/// Whether the one-seventh-of-the-night approximation replaces the
/// angle-based Fajr and Isha: the Moonsighting Committee method above 55
/// degrees of latitude.
pub open spec fn uses_night_seventh(parameters: Parameters, latitude: int) -> bool {
    parameters.method == Method::MoonsightingCommittee && latitude >= 55_000_000
}

/// Which angle-based crossings the schedule derivation reads for these
/// parameters at this latitude.
pub open spec fn required_inputs_present(parameters: Parameters, latitude: int, solar: SolarDay) -> bool {
    &&& (!uses_night_seventh(parameters, latitude) ==> solar.fajr_base matches Some(_))
    &&& (!uses_night_seventh(parameters, latitude) ==> solar.tomorrow_fajr_base matches Some(_))
    &&& (parameters.isha_interval <= 0 && !uses_night_seventh(parameters, latitude) ==> solar.isha_base matches Some(
        _,
    ))
}

/// The part of the night a portion keeps, in seconds, rounded down.
pub open spec fn spec_night_fraction(portion: Portion, night: int) -> int {
    (portion.numerator * night) / (portion.denominator as int)
}

fn night_fraction(portion: Portion, night: i64) -> (r: i64)
    requires
        1 <= portion.denominator <= 60_000_000,
        0 <= portion.numerator <= 360_000_000,
        0 <= night <= 864_000,
    ensures
        r == spec_night_fraction(portion, night as int),
        0 <= r <= 360_000_000_000_000,
{
    proof {
        assert(0 <= portion.numerator * night <= 360_000_000_000_000) by (nonlinear_arith)
            requires
                0 <= portion.numerator <= 360_000_000,
                0 <= night <= 864_000,
        {
        }
        vstd::arithmetic::div_mod::lemma_div_pos_is_pos(portion.numerator * night, portion.denominator as int);
        vstd::arithmetic::div_mod::lemma_div_is_ordered_by_denominator(
            portion.numerator * night,
            1,
            portion.denominator as int,
        );
    }
    (portion.numerator.checked_mul(night)).unwrap().checked_div_euclid(portion.denominator).unwrap()
}

/// The adjusted and rounded Fajr instant for a day with the given raw
/// sunrise, Fajr-angle crossing, and night length: the later of the
/// angle-based (or, above 55 degrees under the Moonsighting Committee
/// method, night-seventh) instant and the high-latitude safe bound.
pub open spec fn spec_fajr(
    parameters: Parameters,
    latitude: int,
    sunrise: int,
    fajr_base: Option<i64>,
    night: int,
    day_of_year: int,
    year: int,
) -> int {
    let base = if uses_night_seventh(parameters, latitude) {
        sunrise - night / 7
    } else {
        match fajr_base {
            Some(t) => t as int,
            None => 0,
        }
    };
    let safe = if parameters.method == Method::MoonsightingCommittee {
        ops::spec_season_adjusted_morning_twilight(latitude, day_of_year, year, sunrise)
    } else {
        sunrise - spec_night_fraction(parameters.spec_night_portions().0, night)
    };
    let raw = if base < safe {
        safe
    } else {
        base
    };
    ops::spec_rounded_minute(
        raw + parameters.spec_time_adjustments(Event::Prayer(Prayer::Fajr)) * 60,
        parameters.rounding,
    )
}

fn calculate_fajr(
    parameters: &Parameters,
    latitude: i64,
    sunrise: i64,
    fajr_base: Option<i64>,
    night: i64,
    day_of_year: u32,
    year: u32,
) -> (r: i64)
    requires
        parameters.wf(),
        -90_000_000 <= latitude <= 90_000_000,
        -20_000_000_000_000 <= sunrise <= 20_000_000_000_000,
        (fajr_base matches Some(t) ==> -20_000_000_000_000 <= t <= 20_000_000_000_000),
        !uses_night_seventh(*parameters, latitude as int) ==> fajr_base matches Some(_),
        0 <= night <= 864_000,
        1 <= day_of_year <= 366,
    ensures
        r == spec_fajr(
            *parameters,
            latitude as int,
            sunrise as int,
            fajr_base,
            night as int,
            day_of_year as int,
            year as int,
        ),
        -SCHEDULE_BOUND <= r <= SCHEDULE_BOUND,
{
    let base: i64 = if parameters.method == Method::MoonsightingCommittee && latitude >= 55_000_000 {
        sunrise - night.checked_div_euclid(7).unwrap()
    } else {
        fajr_base.unwrap()
    };
    let safe: i64 = if parameters.method == Method::MoonsightingCommittee {
        ops::season_adjusted_morning_twilight(latitude, day_of_year, year, sunrise)
    } else {
        let portions = parameters.night_portions();
        sunrise - night_fraction(portions.0, night)
    };
    let raw = if base < safe {
        safe
    } else {
        base
    };
    ops::rounded_minute(
        ops::adjust_time(raw, parameters.time_adjustments(Event::Prayer(Prayer::Fajr))),
        parameters.rounding,
    )
}

/// The adjusted and rounded Isha instant: a positive `isha_interval`
/// fixes Isha that many minutes after sunset; otherwise Isha is the
/// earlier of the angle-based (or night-seventh) instant and the
/// high-latitude safe bound.
pub open spec fn spec_isha(
    parameters: Parameters,
    latitude: int,
    sunset: int,
    isha_base: Option<i64>,
    night: int,
    day_of_year: int,
    year: int,
) -> int {
    let pre = if parameters.isha_interval > 0 {
        sunset + parameters.isha_interval * 60
    } else {
        let safe = if parameters.method == Method::MoonsightingCommittee {
            ops::spec_season_adjusted_evening_twilight(latitude, day_of_year, year, sunset, parameters.shafaq)
        } else {
            sunset + spec_night_fraction(parameters.spec_night_portions().1, night)
        };
        let base = if uses_night_seventh(parameters, latitude) {
            sunset + night / 7
        } else {
            match isha_base {
                Some(t) => t as int,
                None => 0,
            }
        };
        if base > safe {
            safe
        } else {
            base
        }
    };
    ops::spec_rounded_minute(
        pre + parameters.spec_time_adjustments(Event::Prayer(Prayer::Isha)) * 60,
        parameters.rounding,
    )
}

fn calculate_isha(
    parameters: &Parameters,
    latitude: i64,
    sunset: i64,
    isha_base: Option<i64>,
    night: i64,
    day_of_year: u32,
    year: u32,
) -> (r: i64)
    requires
        parameters.wf(),
        -90_000_000 <= latitude <= 90_000_000,
        -20_000_000_000_000 <= sunset <= 20_000_000_000_000,
        (isha_base matches Some(t) ==> -20_000_000_000_000 <= t <= 20_000_000_000_000),
        parameters.isha_interval <= 0 && !uses_night_seventh(*parameters, latitude as int) ==> isha_base matches Some(
            _,
        ),
        0 <= night <= 864_000,
        1 <= day_of_year <= 366,
    ensures
        r == spec_isha(
            *parameters,
            latitude as int,
            sunset as int,
            isha_base,
            night as int,
            day_of_year as int,
            year as int,
        ),
        -SCHEDULE_BOUND <= r <= SCHEDULE_BOUND,
{
    let pre: i64 = if parameters.isha_interval > 0 {
        sunset + (parameters.isha_interval as i64) * 60
    } else {
        let safe: i64 = if parameters.method == Method::MoonsightingCommittee {
            ops::season_adjusted_evening_twilight(latitude, day_of_year, year, sunset, parameters.shafaq)
        } else {
            let portions = parameters.night_portions();
            sunset + night_fraction(portions.1, night)
        };
        let base: i64 = if parameters.method == Method::MoonsightingCommittee && latitude >= 55_000_000 {
            sunset + night.checked_div_euclid(7).unwrap()
        } else {
            isha_base.unwrap()
        };
        if base > safe {
            safe
        } else {
            base
        }
    };
    ops::rounded_minute(
        ops::adjust_time(pre, parameters.time_adjustments(Event::Prayer(Prayer::Isha))),
        parameters.rounding,
    )
}

/// A raw instant with a manual adjustment applied and the rounding policy
/// taken: how sunrise, Dhuhr, Asr, and Maghrib are finished.
pub open spec fn spec_adjusted_rounded(instant: int, minutes: int, rounding: Rounding) -> int {
    ops::spec_rounded_minute(instant + minutes * 60, rounding)
}

/// The middle of the night and the start of its last third, measured
/// from Maghrib to the following Fajr. Both are rounded to the nearest
/// minute, independent of the configured rounding policy.
pub open spec fn spec_qiyam_pair(maghrib: int, tomorrow_fajr: int) -> (int, int) {
    let night_duration = tomorrow_fajr - maghrib;
    let middle = maghrib + ops::spec_trunc_div(night_duration, 2);
    let last_third = maghrib + ops::spec_trunc_div(2 * night_duration, 3);
    (
        ops::spec_rounded_minute(middle, Rounding::Nearest),
        ops::spec_rounded_minute(last_third, Rounding::Nearest),
    )
}

fn qiyam_pair(maghrib: i64, tomorrow_fajr: i64) -> (r: (i64, i64))
    requires
        -SCHEDULE_BOUND <= maghrib <= SCHEDULE_BOUND,
        -SCHEDULE_BOUND <= tomorrow_fajr <= SCHEDULE_BOUND,
    ensures
        r.0 == spec_qiyam_pair(maghrib as int, tomorrow_fajr as int).0,
        r.1 == spec_qiyam_pair(maghrib as int, tomorrow_fajr as int).1,
        -4 * SCHEDULE_BOUND <= r.0 <= 4 * SCHEDULE_BOUND,
        -4 * SCHEDULE_BOUND <= r.1 <= 4 * SCHEDULE_BOUND,
{
    let night_duration = tomorrow_fajr - maghrib;
    let middle = maghrib + night_duration.checked_div(2).unwrap();
    let last_third = maghrib + (2 * night_duration).checked_div(3).unwrap();
    (ops::rounded_minute(middle, Rounding::Nearest), ops::rounded_minute(last_third, Rounding::Nearest))
}

/// What it means for a [`Times`] value to be the schedule that `date`,
/// `coordinates`, `parameters`, and the raw solar instants `solar`
/// determine: each field equals its derivation.
pub open spec fn is_schedule_for(
    t: Times,
    date: Date,
    coordinates: Coordinates,
    parameters: Parameters,
    solar: SolarDay,
) -> bool {
    let maghrib_yesterday = spec_adjusted_rounded(
        solar.yesterday_sunset as int,
        parameters.spec_time_adjustments(Event::Prayer(Prayer::Maghrib)),
        parameters.rounding,
    );
    &&& t.fajr == spec_fajr(
        parameters,
        coordinates.latitude as int,
        solar.sunrise as int,
        solar.fajr_base,
        solar.tomorrow_sunrise - solar.sunset,
        date.spec_ordinal(),
        date.year as int,
    )
    &&& t.sunrise == spec_adjusted_rounded(
        solar.sunrise as int,
        parameters.spec_time_adjustments(Event::Sunrise),
        parameters.rounding,
    )
    &&& t.dhuhr == spec_adjusted_rounded(
        solar.transit as int,
        parameters.spec_time_adjustments(Event::Prayer(Prayer::Dhuhr)),
        parameters.rounding,
    )
    &&& t.asr == spec_adjusted_rounded(
        solar.asr as int,
        parameters.spec_time_adjustments(Event::Prayer(Prayer::Asr)),
        parameters.rounding,
    )
    &&& t.maghrib == spec_adjusted_rounded(
        solar.sunset as int,
        parameters.spec_time_adjustments(Event::Prayer(Prayer::Maghrib)),
        parameters.rounding,
    )
    &&& t.isha == spec_isha(
        parameters,
        coordinates.latitude as int,
        solar.sunset as int,
        solar.isha_base,
        solar.tomorrow_sunrise - solar.sunset,
        date.spec_ordinal(),
        date.year as int,
    )
    &&& t.fajr_tomorrow == spec_fajr(
        parameters,
        coordinates.latitude as int,
        solar.tomorrow_sunrise as int,
        solar.tomorrow_fajr_base,
        solar.after_tomorrow_sunrise - solar.tomorrow_sunset,
        date.spec_tomorrow().spec_ordinal(),
        date.spec_tomorrow().year as int,
    )
    &&& t.midnight == spec_qiyam_pair(t.maghrib as int, t.fajr_tomorrow as int).0
    &&& t.qiyam == spec_qiyam_pair(t.maghrib as int, t.fajr_tomorrow as int).1
    &&& t.midnight_yesterday == spec_qiyam_pair(maghrib_yesterday, t.fajr as int).0
    &&& t.qiyam_yesterday == spec_qiyam_pair(maghrib_yesterday, t.fajr as int).1
}

/// The nine-to-eleven ordered instants of one day's schedule, in UTC
/// seconds, together with the neighbouring instants needed to answer
/// queries that fall before today's Fajr.
#[derive(Clone, Copy, Debug, PartialEq, Eq, Structural)]
pub struct Times {
    pub midnight_yesterday: i64,
    pub qiyam_yesterday: i64,
    pub fajr: i64,
    pub sunrise: i64,
    pub dhuhr: i64,
    pub asr: i64,
    pub maghrib: i64,
    pub isha: i64,
    pub midnight: i64,
    pub qiyam: i64,
    pub fajr_tomorrow: i64,
}

impl Times {
    /// Every instant of the schedule lies within the supported range.
    pub open spec fn wf(self) -> bool {
        &&& -4 * (SCHEDULE_BOUND as int) <= self.midnight_yesterday <= 4 * (SCHEDULE_BOUND as int)
        &&& -4 * (SCHEDULE_BOUND as int) <= self.qiyam_yesterday <= 4 * (SCHEDULE_BOUND as int)
        &&& -4 * (SCHEDULE_BOUND as int) <= self.fajr <= 4 * (SCHEDULE_BOUND as int)
        &&& -4 * (SCHEDULE_BOUND as int) <= self.sunrise <= 4 * (SCHEDULE_BOUND as int)
        &&& -4 * (SCHEDULE_BOUND as int) <= self.dhuhr <= 4 * (SCHEDULE_BOUND as int)
        &&& -4 * (SCHEDULE_BOUND as int) <= self.asr <= 4 * (SCHEDULE_BOUND as int)
        &&& -4 * (SCHEDULE_BOUND as int) <= self.maghrib <= 4 * (SCHEDULE_BOUND as int)
        &&& -4 * (SCHEDULE_BOUND as int) <= self.isha <= 4 * (SCHEDULE_BOUND as int)
        &&& -4 * (SCHEDULE_BOUND as int) <= self.midnight <= 4 * (SCHEDULE_BOUND as int)
        &&& -4 * (SCHEDULE_BOUND as int) <= self.qiyam <= 4 * (SCHEDULE_BOUND as int)
        &&& -4 * (SCHEDULE_BOUND as int) <= self.fajr_tomorrow <= 4 * (SCHEDULE_BOUND as int)
    }

    /// Checks `wf` at run time: a schedule the library built always
    /// passes, and a caller holding a hand-assembled value can test it
    /// before querying.
    pub fn is_in_range(&self) -> (r: bool)
        ensures
            r == self.wf(),
    {
        -4 * SCHEDULE_BOUND <= self.midnight_yesterday && self.midnight_yesterday <= 4 * SCHEDULE_BOUND && -4
            * SCHEDULE_BOUND <= self.qiyam_yesterday && self.qiyam_yesterday <= 4 * SCHEDULE_BOUND && -4
            * SCHEDULE_BOUND <= self.fajr && self.fajr <= 4 * SCHEDULE_BOUND && -4 * SCHEDULE_BOUND <= self.sunrise
            && self.sunrise <= 4 * SCHEDULE_BOUND && -4 * SCHEDULE_BOUND <= self.dhuhr && self.dhuhr <= 4
            * SCHEDULE_BOUND && -4 * SCHEDULE_BOUND <= self.asr && self.asr <= 4 * SCHEDULE_BOUND && -4
            * SCHEDULE_BOUND <= self.maghrib && self.maghrib <= 4 * SCHEDULE_BOUND && -4 * SCHEDULE_BOUND <= self.isha
            && self.isha <= 4 * SCHEDULE_BOUND && -4 * SCHEDULE_BOUND <= self.midnight && self.midnight <= 4
            * SCHEDULE_BOUND && -4 * SCHEDULE_BOUND <= self.qiyam && self.qiyam <= 4 * SCHEDULE_BOUND && -4
            * SCHEDULE_BOUND <= self.fajr_tomorrow && self.fajr_tomorrow <= 4 * SCHEDULE_BOUND
    }

    /// Builds the schedule for `date` at `coordinates` under
    /// `parameters`, from the raw solar instants in `solar`.
    pub fn new(date: &Date, coordinates: &Coordinates, parameters: &Parameters, solar: &SolarDay) -> (r: Self)
        requires
            date.wf(),
            date.year < 9999,
            coordinates.wf(),
            parameters.wf(),
            solar.wf(),
            required_inputs_present(*parameters, coordinates.latitude as int, *solar),
        ensures
            is_schedule_for(r, *date, *coordinates, *parameters, *solar),
            r.wf(),
    {
        let night = solar.tomorrow_sunrise - solar.sunset;
        let day_of_year = date.ordinal();
        let year = date.year as u32;

        let fajr = calculate_fajr(
            parameters,
            coordinates.latitude,
            solar.sunrise,
            solar.fajr_base,
            night,
            day_of_year,
            year,
        );
        let sunrise = ops::rounded_minute(
            ops::adjust_time(solar.sunrise, parameters.time_adjustments(Event::Sunrise)),
            parameters.rounding,
        );
        let dhuhr = ops::rounded_minute(
            ops::adjust_time(solar.transit, parameters.time_adjustments(Event::Prayer(Prayer::Dhuhr))),
            parameters.rounding,
        );
        let asr = ops::rounded_minute(
            ops::adjust_time(solar.asr, parameters.time_adjustments(Event::Prayer(Prayer::Asr))),
            parameters.rounding,
        );
        let maghrib = ops::rounded_minute(
            ops::adjust_time(solar.sunset, parameters.time_adjustments(Event::Prayer(Prayer::Maghrib))),
            parameters.rounding,
        );
        let maghrib_yesterday = ops::rounded_minute(
            ops::adjust_time(solar.yesterday_sunset, parameters.time_adjustments(Event::Prayer(Prayer::Maghrib))),
            parameters.rounding,
        );
        let isha = calculate_isha(
            parameters,
            coordinates.latitude,
            solar.sunset,
            solar.isha_base,
            night,
            day_of_year,
            year,
        );

        let tomorrow = date.tomorrow();
        let night_tomorrow = solar.after_tomorrow_sunrise - solar.tomorrow_sunset;
        let fajr_tomorrow = calculate_fajr(
            parameters,
            coordinates.latitude,
            solar.tomorrow_sunrise,
            solar.tomorrow_fajr_base,
            night_tomorrow,
            tomorrow.ordinal(),
            tomorrow.year as u32,
        );

        let (midnight, qiyam) = qiyam_pair(maghrib, fajr_tomorrow);
        let (midnight_yesterday, qiyam_yesterday) = qiyam_pair(maghrib_yesterday, fajr);

        Self {
            midnight_yesterday,
            qiyam_yesterday,
            fajr,
            sunrise,
            dhuhr,
            asr,
            maghrib,
            isha,
            midnight,
            qiyam,
            fajr_tomorrow,
        }
    }

    pub fn fajr(&self) -> (r: i64)
        ensures
            r == self.fajr,
    {
        self.fajr
    }

    pub fn sunrise(&self) -> (r: i64)
        ensures
            r == self.sunrise,
    {
        self.sunrise
    }

    pub fn dhuhr(&self) -> (r: i64)
        ensures
            r == self.dhuhr,
    {
        self.dhuhr
    }

    pub fn asr(&self) -> (r: i64)
        ensures
            r == self.asr,
    {
        self.asr
    }

    pub fn maghrib(&self) -> (r: i64)
        ensures
            r == self.maghrib,
    {
        self.maghrib
    }

    pub fn isha(&self) -> (r: i64)
        ensures
            r == self.isha,
    {
        self.isha
    }

    pub fn midnight(&self) -> (r: i64)
        ensures
            r == self.midnight,
    {
        self.midnight
    }

    pub fn qiyam(&self) -> (r: i64)
        ensures
            r == self.qiyam,
    {
        self.qiyam
    }
}

/// The event in force at `time`, with its defining instant: the chain of
/// boundaries is walked from the latest backwards, and the 20-minute
/// forbidden windows around sunrise and after sunset interpose on their
/// restricted states.
pub open spec fn spec_current(t: Times, time: int) -> (Event, int) {
    if t.fajr_tomorrow - time <= 0 {
        (Event::Prayer(Prayer::Fajr), t.fajr_tomorrow as int)
    } else if t.qiyam - time <= 0 {
        (Event::Qiyam, t.qiyam as int)
    } else if t.midnight - time <= 0 {
        (Event::Restricted(Reason::AfterMidnight), t.midnight as int)
    } else if t.isha - time <= 0 {
        (Event::Prayer(Prayer::Isha), t.isha as int)
    } else if t.maghrib - time <= 0 {
        (Event::Prayer(Prayer::Maghrib), t.maghrib as int)
    } else if 0 <= ops::spec_trunc_div(t.maghrib - time, 60) <= 20 {
        (Event::Restricted(Reason::DuringSunset), t.asr as int)
    } else if t.asr - time <= 0 {
        (Event::Prayer(Prayer::Asr), t.asr as int)
    } else if t.dhuhr - time <= 0 {
        (Event::Prayer(Prayer::Dhuhr), t.dhuhr as int)
    } else if ops::spec_trunc_div(t.sunrise - time, 60) <= -20 {
        (Event::Sunrise, t.sunrise as int)
    } else if -20 <= ops::spec_trunc_div(t.sunrise - time, 60) <= 0 {
        (Event::Restricted(Reason::DuringSunrise), t.sunrise as int)
    } else if t.fajr - time <= 0 {
        (Event::Prayer(Prayer::Fajr), t.fajr as int)
    } else if t.qiyam_yesterday - time <= 0 {
        (Event::Qiyam, t.qiyam_yesterday as int)
    } else {
        (Event::Restricted(Reason::AfterMidnight), t.midnight_yesterday as int)
    }
}

/// The event following the one in force at `time`, with its instant.
/// After Isha and after midnight the boundary resolves to today's or
/// yesterday's instant by the calendar day `time` falls on.
pub open spec fn spec_next(t: Times, time: int) -> (Event, int) {
    match spec_current(t, time).0 {
        Event::Prayer(Prayer::Fajr) => (Event::Sunrise, t.sunrise as int),
        Event::Sunrise => if -20 <= ops::spec_trunc_div(t.sunrise - time, 60) < 0 {
            (Event::Restricted(Reason::DuringSunrise), t.dhuhr as int)
        } else {
            (Event::Prayer(Prayer::Dhuhr), t.dhuhr as int)
        },
        Event::Restricted(Reason::DuringSunrise) => (Event::Prayer(Prayer::Dhuhr), t.dhuhr as int),
        Event::Prayer(Prayer::Dhuhr) => (Event::Prayer(Prayer::Asr), t.asr as int),
        Event::Prayer(Prayer::Asr) => if 0 <= ops::spec_trunc_div(t.maghrib - time, 60) <= 20 {
            (Event::Restricted(Reason::DuringSunset), t.maghrib as int)
        } else {
            (Event::Prayer(Prayer::Maghrib), t.maghrib as int)
        },
        Event::Restricted(Reason::DuringSunset) => (Event::Prayer(Prayer::Maghrib), t.maghrib as int),
        Event::Prayer(Prayer::Maghrib) => (Event::Prayer(Prayer::Isha), t.isha as int),
        Event::Prayer(Prayer::Isha) => (
            Event::Restricted(Reason::AfterMidnight),
            if ops::spec_utc_day(time) == ops::spec_utc_day(t.isha as int) {
                t.midnight as int
            } else {
                t.midnight_yesterday as int
            },
        ),
        Event::Restricted(Reason::AfterMidnight) => (
            Event::Qiyam,
            if ops::spec_utc_day(time) == ops::spec_utc_day(t.midnight as int) {
                t.qiyam as int
            } else {
                t.qiyam_yesterday as int
            },
        ),
        Event::Qiyam => (Event::Prayer(Prayer::Fajr), t.fajr as int),
    }
}

/// The whole hours and leftover whole minutes from `now` until the event
/// after the one current at `now`, measured at that event's instant.
pub open spec fn spec_time_remaining(t: Times, now: int) -> (int, int) {
    let current_time = spec_current(t, now).1;
    let next_time = spec_next(t, current_time).1;
    let span = next_time - now;
    (ops::spec_trunc_div(span, 3600), ops::spec_trunc_rem(ops::spec_trunc_div(span, 60), 60))
}

/// The current and next event around one instant, each with its time.
#[derive(Clone, Copy, Debug, PartialEq, Eq)]
pub struct ExpectedPrayers {
    pub current: (Event, i64),
    pub next: (Event, i64),
}

impl ExpectedPrayers {
    pub fn current_event(&self) -> (r: Event)
        ensures
            r == self.current.0,
    {
        self.current.0
    }

    pub fn current_time(&self) -> (r: i64)
        ensures
            r == self.current.1,
    {
        self.current.1
    }

    pub fn next_event(&self) -> (r: Event)
        ensures
            r == self.next.0,
    {
        self.next.0
    }

    pub fn next_time(&self) -> (r: i64)
        ensures
            r == self.next.1,
    {
        self.next.1
    }
}

impl Times {
    /// The event in force at `time` and the instant that defines it.
    pub fn current(&self, time: i64) -> (r: (Event, i64))
        requires
            self.wf(),
            -4 * SCHEDULE_BOUND <= time <= 4 * SCHEDULE_BOUND,
        ensures
            r.0 == spec_current(*self, time as int).0,
            r.1 == spec_current(*self, time as int).1,
    {
        if self.fajr_tomorrow - time <= 0 {
            (Event::Prayer(Prayer::Fajr), self.fajr_tomorrow)
        } else if self.qiyam - time <= 0 {
            (Event::Qiyam, self.qiyam)
        } else if self.midnight - time <= 0 {
            (Event::Restricted(Reason::AfterMidnight), self.midnight)
        } else if self.isha - time <= 0 {
            (Event::Prayer(Prayer::Isha), self.isha)
        } else if self.maghrib - time <= 0 {
            (Event::Prayer(Prayer::Maghrib), self.maghrib)
        } else {
            let minutes_to_maghrib = (self.maghrib - time).checked_div(60).unwrap();
            let minutes_to_sunrise = (self.sunrise - time).checked_div(60).unwrap();
            if 0 <= minutes_to_maghrib && minutes_to_maghrib <= 20 {
                (Event::Restricted(Reason::DuringSunset), self.asr)
            } else if self.asr - time <= 0 {
                (Event::Prayer(Prayer::Asr), self.asr)
            } else if self.dhuhr - time <= 0 {
                (Event::Prayer(Prayer::Dhuhr), self.dhuhr)
            } else if minutes_to_sunrise <= -20 {
                (Event::Sunrise, self.sunrise)
            } else if -20 <= minutes_to_sunrise && minutes_to_sunrise <= 0 {
                (Event::Restricted(Reason::DuringSunrise), self.sunrise)
            } else if self.fajr - time <= 0 {
                (Event::Prayer(Prayer::Fajr), self.fajr)
            } else if self.qiyam_yesterday - time <= 0 {
                (Event::Qiyam, self.qiyam_yesterday)
            } else {
                (Event::Restricted(Reason::AfterMidnight), self.midnight_yesterday)
            }
        }
    }

    /// The event following the one in force at `time`, and its instant.
    pub fn next(&self, time: i64) -> (r: (Event, i64))
        requires
            self.wf(),
            -4 * SCHEDULE_BOUND <= time <= 4 * SCHEDULE_BOUND,
        ensures
            r.0 == spec_next(*self, time as int).0,
            r.1 == spec_next(*self, time as int).1,
    {
        let current = self.current(time);
        match current.0 {
            Event::Prayer(Prayer::Fajr) => (Event::Sunrise, self.sunrise),
            Event::Sunrise => {
                // There is roughly a 20-minute window during sunrise in
                // which it is forbidden to perform the Fajr prayer.
                let minutes_to_sunrise = (self.sunrise - time).checked_div(60).unwrap();
                if -20 <= minutes_to_sunrise && minutes_to_sunrise < 0 {
                    (Event::Restricted(Reason::DuringSunrise), self.dhuhr)
                } else {
                    (Event::Prayer(Prayer::Dhuhr), self.dhuhr)
                }
            },
            Event::Restricted(Reason::DuringSunrise) => (Event::Prayer(Prayer::Dhuhr), self.dhuhr),
            Event::Prayer(Prayer::Dhuhr) => (Event::Prayer(Prayer::Asr), self.asr),
            Event::Prayer(Prayer::Asr) => {
                // Similarly, there is a 20-minute window during sunset in
                // which it is forbidden to perform the Asr prayer.
                let minutes_to_maghrib = (self.maghrib - time).checked_div(60).unwrap();
                if 0 <= minutes_to_maghrib && minutes_to_maghrib <= 20 {
                    (Event::Restricted(Reason::DuringSunset), self.maghrib)
                } else {
                    (Event::Prayer(Prayer::Maghrib), self.maghrib)
                }
            },
            Event::Restricted(Reason::DuringSunset) => (Event::Prayer(Prayer::Maghrib), self.maghrib),
            Event::Prayer(Prayer::Maghrib) => (Event::Prayer(Prayer::Isha), self.isha),
            // It is forbidden to pray past Islamic midnight and before
            // the period of Qiyam.
            Event::Prayer(Prayer::Isha) => (
                Event::Restricted(Reason::AfterMidnight),
                if ops::utc_day(time) == ops::utc_day(self.isha) {
                    self.midnight
                } else {
                    self.midnight_yesterday
                },
            ),
            Event::Restricted(Reason::AfterMidnight) => (
                Event::Qiyam,
                if ops::utc_day(time) == ops::utc_day(self.midnight) {
                    self.qiyam
                } else {
                    self.qiyam_yesterday
                },
            ),
            Event::Qiyam => (Event::Prayer(Prayer::Fajr), self.fajr),
        }
    }

    /// The current and next event around `time`, each with its instant.
    pub fn expected(&self, time: i64) -> (r: ExpectedPrayers)
        requires
            self.wf(),
            -4 * SCHEDULE_BOUND <= time <= 4 * SCHEDULE_BOUND,
        ensures
            r.current.0 == spec_current(*self, time as int).0,
            r.current.1 == spec_current(*self, time as int).1,
            r.next.0 == spec_next(*self, time as int).0,
            r.next.1 == spec_next(*self, time as int).1,
    {
        ExpectedPrayers { current: self.current(time), next: self.next(time) }
    }

    /// Whole hours and leftover whole minutes until the next event.
    pub fn time_remaining(&self, now: i64) -> (r: (i64, i64))
        requires
            self.wf(),
            -4 * SCHEDULE_BOUND <= now <= 4 * SCHEDULE_BOUND,
        ensures
            r.0 == spec_time_remaining(*self, now as int).0,
            r.1 == spec_time_remaining(*self, now as int).1,
    {
        let current = self.current(now);
        let next = self.next(current.1);
        let span = next.1 - now;
        let hours = span.checked_div(3600).unwrap();
        let minutes = span.checked_div(60).unwrap().checked_rem(60).unwrap();
        (hours, minutes)
    }
}

/// Why a schedule could not be built.
#[derive(Clone, Copy, Debug, PartialEq, Eq, Structural)]
pub enum ScheduleError {
    /// Date, coordinates, parameters, or solar instants were not given.
    MissingInformation,
    /// An input was given but lies outside what the library supports:
    /// an impossible date, a position off the globe, parameters or solar
    /// instants out of range, or an absent solar crossing the
    /// configuration needs.
    InvalidInformation,
}

impl ScheduleError {
    /// A short description of the error.
    pub fn message(&self) -> (r: &'static str)
        ensures
            *self == ScheduleError::MissingInformation ==> r@
                == "Required information is needed in order to calculate the prayer times."@,
            *self == ScheduleError::InvalidInformation ==> r@
                == "The given information is outside the supported range."@,
    {
        match self {
            Self::MissingInformation => "Required information is needed in order to calculate the prayer times.",
            Self::InvalidInformation => "The given information is outside the supported range.",
        }
    }
}

/// A builder for the [`Times`] struct.
#[derive(Clone, Copy, Debug, PartialEq, Eq, Structural)]
pub struct Schedule {
    pub date: Option<Date>,
    pub coordinates: Option<Coordinates>,
    pub params: Option<Parameters>,
    pub solar: Option<SolarDay>,
}

impl Schedule {
    pub fn new() -> (r: Self)
        ensures
            r == (Schedule { date: None, coordinates: None, params: None, solar: None }),
    {
        Self { date: None, coordinates: None, params: None, solar: None }
    }

    pub fn with_date(self, date: &Date) -> (r: Self)
        ensures
            r == (Schedule { date: Some(*date), ..self }),
    {
        Self { date: Some(*date), ..self }
    }

    pub fn with_coordinates(self, location: Coordinates) -> (r: Self)
        ensures
            r == (Schedule { coordinates: Some(location), ..self }),
    {
        Self { coordinates: Some(location), ..self }
    }

    pub fn with_parameters(self, params: Parameters) -> (r: Self)
        ensures
            r == (Schedule { params: Some(params), ..self }),
    {
        Self { params: Some(params), ..self }
    }

    pub fn with_solar(self, solar: SolarDay) -> (r: Self)
        ensures
            r == (Schedule { solar: Some(solar), ..self }),
    {
        Self { solar: Some(solar), ..self }
    }

    /// All four build inputs are present.
    pub open spec fn spec_complete(self) -> bool {
        &&& self.date is Some
        &&& self.coordinates is Some
        &&& self.params is Some
        &&& self.solar is Some
    }

    /// The present inputs are all within the supported ranges, and the
    /// solar instants the configuration needs are all given.
    pub open spec fn spec_inputs_valid(self) -> bool {
        &&& self.date->0.wf()
        &&& self.date->0.year < 9999
        &&& self.coordinates->0.wf()
        &&& self.params->0.wf()
        &&& self.solar->0.wf()
        &&& required_inputs_present(self.params->0, self.coordinates->0.latitude as int, self.solar->0)
    }

    /// Builds the schedule. Fails with a configuration error — never a
    /// panic — when an input is missing or out of range.
    pub fn build(&self) -> (r: Result<Times, ScheduleError>)
        ensures
            r is Ok <==> (self.spec_complete() && self.spec_inputs_valid()),
            !self.spec_complete() ==> r == Result::<Times, ScheduleError>::Err(ScheduleError::MissingInformation),
            self.spec_complete() && !self.spec_inputs_valid() ==> r == Result::<
                Times,
                ScheduleError,
            >::Err(ScheduleError::InvalidInformation),
            r matches Ok(t) ==> is_schedule_for(t, self.date->0, self.coordinates->0, self.params->0, self.solar->0)
                && t.wf(),
    {
        match (&self.date, &self.coordinates, &self.params, &self.solar) {
            (Some(date), Some(coordinates), Some(params), Some(solar)) => {
                let latitude_ok = -90_000_000 <= coordinates.latitude && coordinates.latitude <= 90_000_000;
                let longitude_ok = -180_000_000 <= coordinates.longitude && coordinates.longitude <= 180_000_000;
                let seventh = params.method == Method::MoonsightingCommittee && coordinates.latitude >= 55_000_000;
                let fajr_base_ok = seventh || matches!(solar.fajr_base, Some(_));
                let tomorrow_fajr_base_ok = seventh || matches!(solar.tomorrow_fajr_base, Some(_));
                let isha_base_ok = params.isha_interval > 0 || seventh || matches!(solar.isha_base, Some(_));
                if date.is_valid() && date.year < 9999 && latitude_ok && longitude_ok && params.is_valid()
                    && solar.is_coherent() && fajr_base_ok && tomorrow_fajr_base_ok && isha_base_ok {
                    Ok(Times::new(date, coordinates, params, solar))
                } else {
                    Err(ScheduleError::InvalidInformation)
                }
            },
            _ => Err(ScheduleError::MissingInformation),
        }
    }
}

/// The schedule keeps the day's order: for a date and location on which
/// the sun rises and sets, `fajr < sunrise < dhuhr < asr < maghrib <
/// isha < midnight < qiyam < fajr_tomorrow`.
///
/// Stated for schedules without manual adjustments, under a standard
/// angle-based method (no fixed Isha interval and no Moonsighting
/// Committee seasonal bounds), with the raw solar crossings a minute or
/// more apart as the sun actually moves, the night portions keeping at
/// least a whole minute, and the night not degenerate. Any rounding
/// policy is covered. Outside that scope the ordering can genuinely
/// fail: a large manual adjustment can push one instant past the next.
pub proof fn lemma_schedule_strictly_ordered(
    t: Times,
    date: Date,
    coordinates: Coordinates,
    parameters: Parameters,
    solar: SolarDay,
)
    requires
        is_schedule_for(t, date, coordinates, parameters, solar),
        solar.wf(),
        parameters.wf(),
        parameters.method != Method::MoonsightingCommittee,
        parameters.isha_interval <= 0,
        parameters.adjustments == crate::adjustments::TimeAdjustment::spec_zero(),
        parameters.method_adjustments == crate::adjustments::TimeAdjustment::spec_zero(),
        solar.fajr_base is Some,
        solar.isha_base is Some,
        solar.tomorrow_fajr_base is Some,
        solar.fajr_base->0 + 60 <= solar.sunrise,
        solar.sunrise + 60 <= solar.transit,
        solar.transit + 60 <= solar.asr,
        solar.asr + 60 <= solar.sunset,
        solar.sunset + 60 <= solar.isha_base->0,
        solar.sunset + 600 <= solar.tomorrow_fajr_base->0,
        2 * (solar.isha_base->0 - solar.sunset) + 360 <= solar.tomorrow_fajr_base->0 - solar.sunset,
        parameters.spec_night_portions().0.numerator * (solar.tomorrow_sunrise - solar.sunset) >= 60
            * parameters.spec_night_portions().0.denominator,
        parameters.spec_night_portions().1.numerator * (solar.tomorrow_sunrise - solar.sunset) >= 60
            * parameters.spec_night_portions().1.denominator,
    ensures
        t.fajr < t.sunrise,
        t.sunrise < t.dhuhr,
        t.dhuhr < t.asr,
        t.asr < t.maghrib,
        t.maghrib < t.isha,
        t.isha < t.midnight,
        t.midnight < t.qiyam,
        t.qiyam < t.fajr_tomorrow,
{
    let rounding = parameters.rounding;
    let night = solar.tomorrow_sunrise - solar.sunset;
    let portions = parameters.spec_night_portions();
    let fb = solar.fajr_base->0 as int;
    let ib = solar.isha_base->0 as int;
    let tfb = solar.tomorrow_fajr_base->0 as int;
    let sr = solar.sunrise as int;
    let ss = solar.sunset as int;

    // The night portions keep at least a whole minute of the night.
    let nf0 = spec_night_fraction(portions.0, night);
    assert(nf0 >= 60) by {
        vstd::arithmetic::div_mod::lemma_div_is_ordered(
            60 * portions.0.denominator,
            portions.0.numerator * night,
            portions.0.denominator as int,
        );
        vstd::arithmetic::div_mod::lemma_div_multiples_vanish(60, portions.0.denominator as int);
    }
    let nf1 = spec_night_fraction(portions.1, night);
    assert(nf1 >= 60) by {
        vstd::arithmetic::div_mod::lemma_div_is_ordered(
            60 * portions.1.denominator,
            portions.1.numerator * night,
            portions.1.denominator as int,
        );
        vstd::arithmetic::div_mod::lemma_div_multiples_vanish(60, portions.1.denominator as int);
    }

    // Fajr's raw instant lies a minute or more before raw sunrise, and
    // each daytime event keeps a minute's raw gap to the next, so one
    // shared rounding policy cannot reorder them.
    let fajr_raw = if fb < sr - nf0 {
        sr - nf0
    } else {
        fb
    };
    assert(t.fajr == ops::spec_rounded_minute(fajr_raw, rounding));
    ops::lemma_rounded_minute_ordered(fajr_raw, sr, rounding);
    ops::lemma_rounded_minute_ordered(sr, solar.transit as int, rounding);
    ops::lemma_rounded_minute_ordered(solar.transit as int, solar.asr as int, rounding);
    ops::lemma_rounded_minute_ordered(solar.asr as int, ss, rounding);
    assert(t.fajr < t.sunrise);
    assert(t.sunrise < t.dhuhr);
    assert(t.dhuhr < t.asr);
    assert(t.asr < t.maghrib);

    // Isha's raw instant lies a minute or more after raw sunset.
    let safe_isha = ss + nf1;
    let isha_raw = if ib > safe_isha {
        safe_isha
    } else {
        ib
    };
    assert(t.isha == ops::spec_rounded_minute(isha_raw, rounding));
    ops::lemma_rounded_minute_ordered(ss, isha_raw, rounding);
    assert(t.maghrib < t.isha);

    // Bound the rounded Maghrib, Isha, and tomorrow's Fajr around their
    // raw instants.
    ops::lemma_rounded_minute_close(ss, rounding);
    ops::lemma_rounded_minute_close(isha_raw, rounding);
    assert(t.isha <= ib + 60);
    let night_tomorrow = solar.after_tomorrow_sunrise - solar.tomorrow_sunset;
    let nf0_tomorrow = spec_night_fraction(portions.0, night_tomorrow);
    let tomorrow_fajr_raw = if tfb < solar.tomorrow_sunrise - nf0_tomorrow {
        solar.tomorrow_sunrise - nf0_tomorrow
    } else {
        tfb
    };
    assert(t.fajr_tomorrow == ops::spec_rounded_minute(tomorrow_fajr_raw, rounding));
    ops::lemma_rounded_minute_close(tomorrow_fajr_raw, rounding);
    assert(t.fajr_tomorrow >= tfb - 29);

    // The night from the rounded Maghrib to tomorrow's rounded Fajr is
    // several minutes long even after the rounding slop.
    let nd = t.fajr_tomorrow - t.maghrib;
    assert(nd >= 511);
    let half = nd / 2;
    let two_thirds = (2 * nd) / 3;
    assert(t.midnight == ops::spec_rounded_minute(t.maghrib + half, Rounding::Nearest));
    assert(t.qiyam == ops::spec_rounded_minute(t.maghrib + two_thirds, Rounding::Nearest));
    assert(nd == 2 * half + nd % 2 && 0 <= nd % 2 < 2) by {
        vstd::arithmetic::div_mod::lemma_fundamental_div_mod(nd, 2);
        vstd::arithmetic::div_mod::lemma_mod_division_less_than_divisor(nd, 2);
    }
    assert(2 * nd == 3 * two_thirds + (2 * nd) % 3 && 0 <= (2 * nd) % 3 < 3) by {
        vstd::arithmetic::div_mod::lemma_fundamental_div_mod(2 * nd, 3);
        vstd::arithmetic::div_mod::lemma_mod_division_less_than_divisor(2 * nd, 3);
    }

    // Isha lies strictly before the rounded midpoint of that night.
    let midnight_raw = t.maghrib + half;
    assert(2 * midnight_raw >= t.maghrib + t.fajr_tomorrow - 1);
    assert(midnight_raw >= ib + 90);
    ops::lemma_rounded_minute_close(midnight_raw, Rounding::Nearest);
    assert(t.isha < t.midnight);

    // The midpoint comes strictly before the start of the last third.
    assert(6 * (two_thirds - half) >= nd - 4);
    assert(two_thirds - half >= 85);
    ops::lemma_rounded_minute_close(t.maghrib + two_thirds, Rounding::Nearest);
    assert(t.midnight < t.qiyam);

    // The last third begins strictly before tomorrow's Fajr.
    assert(3 * (nd - two_thirds) >= nd);
    assert(nd - two_thirds >= 171);
    assert(t.qiyam < t.fajr_tomorrow);
}

impl Default for Schedule {
    fn default() -> (r: Self)
        ensures
            r == (Schedule { date: None, coordinates: None, params: None, solar: None }),
    {
        Self::new()
    }
}

} // verus!
