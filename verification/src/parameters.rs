//! Settings that are used for determining the correct prayer times, and
//! the fluent builder that assembles them.

use vstd::prelude::*;

use crate::adjustments::TimeAdjustment;
use crate::angle::Angle;
use crate::event::{Event, Prayer};
use crate::high_altitude_rule::HighLatitudeRule;
use crate::madhab::Madhab;
use crate::method::Method;
use crate::rounding::Rounding;
use crate::shafaq::Shafaq;

verus! {

/// A fraction of the night, as an exact ratio.
#[derive(Clone, Copy, Debug, PartialEq, Eq, Structural)]
pub struct Portion {
    pub numerator: i64,
    pub denominator: i64,
}

/// Settings that are used for determining the correct prayer time.
///
/// It is recommended to use [`Configuration`] to build the parameters
/// that are needed.
#[derive(Clone, Copy, Debug, PartialEq, Eq, Structural)]
pub struct Parameters {
    pub method: Method,
    pub fajr_angle: Angle,
    pub maghrib_angle: Angle,
    pub isha_angle: Angle,
    /// Minutes after sunset; a positive value replaces the angle-based
    /// Isha calculation with a fixed interval.
    pub isha_interval: i32,
    pub madhab: Madhab,
    pub high_latitude_rule: HighLatitudeRule,
    pub adjustments: TimeAdjustment,
    pub method_adjustments: TimeAdjustment,
    pub rounding: Rounding,
    pub shafaq: Shafaq,
}

impl Parameters {
    /// Twilight angles below the horizon are at most a half turn, the
    /// Isha interval is not negative, and the manual adjustments stay
    /// within bounds that keep instant arithmetic inside the machine
    /// range.
    pub open spec fn wf(self) -> bool {
        &&& 0 <= self.isha_interval
        &&& 0 <= self.fajr_angle.microdegrees <= 180_000_000
        &&& 0 <= self.maghrib_angle.microdegrees <= 180_000_000
        &&& 0 <= self.isha_angle.microdegrees <= 180_000_000
        &&& self.adjustments.wf()
        &&& self.method_adjustments.wf()
    }

    /// Checks `wf` at run time.
    pub fn is_valid(&self) -> (r: bool)
        ensures
            r == self.wf(),
    {
        0 <= self.isha_interval && 0 <= self.fajr_angle.microdegrees && self.fajr_angle.microdegrees <= 180_000_000
            && 0 <= self.maghrib_angle.microdegrees && self.maghrib_angle.microdegrees <= 180_000_000
            && 0 <= self.isha_angle.microdegrees && self.isha_angle.microdegrees <= 180_000_000
            && -100_000 <= self.adjustments.fajr && self.adjustments.fajr <= 100_000
            && -100_000 <= self.adjustments.sunrise && self.adjustments.sunrise <= 100_000
            && -100_000 <= self.adjustments.dhuhr && self.adjustments.dhuhr <= 100_000
            && -100_000 <= self.adjustments.asr && self.adjustments.asr <= 100_000
            && -100_000 <= self.adjustments.maghrib && self.adjustments.maghrib <= 100_000
            && -100_000 <= self.adjustments.isha && self.adjustments.isha <= 100_000
            && -100_000 <= self.method_adjustments.fajr && self.method_adjustments.fajr <= 100_000
            && -100_000 <= self.method_adjustments.sunrise && self.method_adjustments.sunrise <= 100_000
            && -100_000 <= self.method_adjustments.dhuhr && self.method_adjustments.dhuhr <= 100_000
            && -100_000 <= self.method_adjustments.asr && self.method_adjustments.asr <= 100_000
            && -100_000 <= self.method_adjustments.maghrib && self.method_adjustments.maghrib <= 100_000
            && -100_000 <= self.method_adjustments.isha && self.method_adjustments.isha <= 100_000
    }

    /// Parameters with the given dawn and dusk twilight angles and every
    /// other setting at its default.
    pub open spec fn spec_from_angles(fajr_angle: Angle, isha_angle: Angle) -> Parameters {
        Parameters {
            fajr_angle,
            maghrib_angle: Angle { microdegrees: 0 },
            isha_angle,
            method: Method::Other,
            isha_interval: 0,
            madhab: Madhab::Shafi,
            high_latitude_rule: HighLatitudeRule::MiddleOfTheNight,
            adjustments: TimeAdjustment::spec_zero(),
            method_adjustments: TimeAdjustment::spec_zero(),
            rounding: Rounding::Nearest,
            shafaq: Shafaq::General,
        }
    }

    pub fn from_angles(fajr_angle: Angle, isha_angle: Angle) -> (r: Self)
        ensures
            r == Self::spec_from_angles(fajr_angle, isha_angle),
    {
        Self {
            fajr_angle,
            maghrib_angle: Angle { microdegrees: 0 },
            isha_angle,
            method: Method::Other,
            isha_interval: 0,
            madhab: Madhab::Shafi,
            high_latitude_rule: HighLatitudeRule::MiddleOfTheNight,
            adjustments: TimeAdjustment::zero(),
            method_adjustments: TimeAdjustment::zero(),
            rounding: Rounding::Nearest,
            shafaq: Shafaq::General,
        }
    }

    pub fn from_method(method: Method) -> (r: Self)
        ensures
            r == method.spec_parameters(),
    {
        method.parameters()
    }

    pub fn with_madhab(self, madhab: Madhab) -> (r: Self)
        ensures
            r == (Parameters { madhab, ..self }),
    {
        Self { madhab, ..self }
    }

    /// The fractions of the night bounding Fajr and Isha under the
    /// configured high-latitude rule.
    pub open spec fn spec_night_portions(self) -> (Portion, Portion) {
        match self.high_latitude_rule {
            HighLatitudeRule::MiddleOfTheNight => (
                Portion { numerator: 1, denominator: 2 },
                Portion { numerator: 1, denominator: 2 },
            ),
            HighLatitudeRule::SeventhOfTheNight => (
                Portion { numerator: 1, denominator: 7 },
                Portion { numerator: 1, denominator: 7 },
            ),
            HighLatitudeRule::TwilightAngle => (
                Portion { numerator: self.fajr_angle.microdegrees, denominator: 60_000_000 },
                Portion { numerator: self.isha_angle.microdegrees, denominator: 60_000_000 },
            ),
        }
    }

    pub fn night_portions(&self) -> (r: (Portion, Portion))
        ensures
            r == self.spec_night_portions(),
    {
        match self.high_latitude_rule {
            HighLatitudeRule::MiddleOfTheNight => (
                Portion { numerator: 1, denominator: 2 },
                Portion { numerator: 1, denominator: 2 },
            ),
            HighLatitudeRule::SeventhOfTheNight => (
                Portion { numerator: 1, denominator: 7 },
                Portion { numerator: 1, denominator: 7 },
            ),
            HighLatitudeRule::TwilightAngle => (
                Portion { numerator: self.fajr_angle.microdegrees, denominator: 60_000_000 },
                Portion { numerator: self.isha_angle.microdegrees, denominator: 60_000_000 },
            ),
        }
    }

    /// The total manual adjustment, in minutes, applied to an event:
    /// the user adjustment plus the method's own.
    pub open spec fn spec_time_adjustments(self, event: Event) -> int {
        match event {
            Event::Sunrise => self.adjustments.sunrise + self.method_adjustments.sunrise,
            Event::Prayer(Prayer::Fajr) => self.adjustments.fajr + self.method_adjustments.fajr,
            Event::Prayer(Prayer::Dhuhr) => self.adjustments.dhuhr + self.method_adjustments.dhuhr,
            Event::Prayer(Prayer::Asr) => self.adjustments.asr + self.method_adjustments.asr,
            Event::Prayer(Prayer::Maghrib) => self.adjustments.maghrib + self.method_adjustments.maghrib,
            Event::Prayer(Prayer::Isha) => self.adjustments.isha + self.method_adjustments.isha,
            _ => 0,
        }
    }

    pub fn time_adjustments(&self, event: Event) -> (r: i64)
        requires
            self.adjustments.wf(),
            self.method_adjustments.wf(),
        ensures
            r == self.spec_time_adjustments(event),
            -200_000 <= r <= 200_000,
    {
        match event {
            Event::Sunrise => self.adjustments.sunrise + self.method_adjustments.sunrise,
            Event::Prayer(Prayer::Fajr) => self.adjustments.fajr + self.method_adjustments.fajr,
            Event::Prayer(Prayer::Dhuhr) => self.adjustments.dhuhr + self.method_adjustments.dhuhr,
            Event::Prayer(Prayer::Asr) => self.adjustments.asr + self.method_adjustments.asr,
            Event::Prayer(Prayer::Maghrib) => self.adjustments.maghrib + self.method_adjustments.maghrib,
            Event::Prayer(Prayer::Isha) => self.adjustments.isha + self.method_adjustments.isha,
            _ => 0,
        }
    }
}

impl Default for Parameters {
    fn default() -> (r: Self)
        ensures
            r == Parameters::spec_from_angles(Angle { microdegrees: 0 }, Angle { microdegrees: 0 }),
    {
        Self::from_angles(Angle { microdegrees: 0 }, Angle { microdegrees: 0 })
    }
}

/// A fluent builder for [`Parameters`]: unset fields take their
/// defaults when `build` is called.
#[derive(Clone, Copy, Debug, PartialEq, Eq, Structural)]
pub struct Configuration {
    pub method: Option<Method>,
    pub fajr_angle: Option<Angle>,
    pub maghrib_angle: Option<Angle>,
    pub isha_angle: Option<Angle>,
    pub isha_interval: Option<i32>,
    pub madhab: Option<Madhab>,
    pub high_latitude_rule: Option<HighLatitudeRule>,
    pub adjustments: Option<TimeAdjustment>,
    pub method_adjustments: Option<TimeAdjustment>,
    pub rounding: Option<Rounding>,
    pub shafaq: Option<Shafaq>,
}

impl Configuration {
    /// The parameters this configuration builds: each set field as given,
    /// each unset field at its default.
    pub open spec fn spec_build(self) -> Parameters {
        Parameters {
            method: match self.method {
                Some(v) => v,
                None => Method::Other,
            },
            fajr_angle: match self.fajr_angle {
                Some(v) => v,
                None => Angle { microdegrees: 0 },
            },
            maghrib_angle: match self.maghrib_angle {
                Some(v) => v,
                None => Angle { microdegrees: 0 },
            },
            isha_angle: match self.isha_angle {
                Some(v) => v,
                None => Angle { microdegrees: 0 },
            },
            isha_interval: match self.isha_interval {
                Some(v) => v,
                None => 0,
            },
            madhab: match self.madhab {
                Some(v) => v,
                None => Madhab::Shafi,
            },
            high_latitude_rule: match self.high_latitude_rule {
                Some(v) => v,
                None => HighLatitudeRule::MiddleOfTheNight,
            },
            adjustments: match self.adjustments {
                Some(v) => v,
                None => TimeAdjustment::spec_zero(),
            },
            method_adjustments: match self.method_adjustments {
                Some(v) => v,
                None => TimeAdjustment::spec_zero(),
            },
            rounding: match self.rounding {
                Some(v) => v,
                None => Rounding::Nearest,
            },
            shafaq: match self.shafaq {
                Some(v) => v,
                None => Shafaq::General,
            },
        }
    }

    pub fn new() -> (r: Self)
        ensures
            r == (Configuration {
                method: None,
                fajr_angle: None,
                maghrib_angle: None,
                isha_angle: None,
                isha_interval: None,
                madhab: None,
                high_latitude_rule: None,
                adjustments: None,
                method_adjustments: None,
                rounding: None,
                shafaq: None,
            }),
    {
        Self {
            method: None,
            fajr_angle: None,
            maghrib_angle: None,
            isha_angle: None,
            isha_interval: None,
            madhab: None,
            high_latitude_rule: None,
            adjustments: None,
            method_adjustments: None,
            rounding: None,
            shafaq: None,
        }
    }

    pub fn method(self, method: Method) -> (r: Self)
        ensures
            r == (Configuration { method: Some(method), ..self }),
    {
        Self { method: Some(method), ..self }
    }

    pub fn fajr_angle(self, fajr_angle: Angle) -> (r: Self)
        ensures
            r == (Configuration { fajr_angle: Some(fajr_angle), ..self }),
    {
        Self { fajr_angle: Some(fajr_angle), ..self }
    }

    pub fn maghrib_angle(self, maghrib_angle: Angle) -> (r: Self)
        ensures
            r == (Configuration { maghrib_angle: Some(maghrib_angle), ..self }),
    {
        Self { maghrib_angle: Some(maghrib_angle), ..self }
    }

    pub fn isha_angle(self, isha_angle: Angle) -> (r: Self)
        ensures
            r == (Configuration { isha_angle: Some(isha_angle), ..self }),
    {
        Self { isha_angle: Some(isha_angle), ..self }
    }

    /// A positive interval replaces the angle-based Isha calculation, so
    /// setting it also clears the Isha angle.
    pub fn isha_interval(self, isha_interval: i32) -> (r: Self)
        ensures
            r == (Configuration {
                isha_angle: Some(Angle { microdegrees: 0 }),
                isha_interval: Some(isha_interval),
                ..self
            }),
    {
        Self { isha_angle: Some(Angle { microdegrees: 0 }), isha_interval: Some(isha_interval), ..self }
    }

    pub fn madhab(self, madhab: Madhab) -> (r: Self)
        ensures
            r == (Configuration { madhab: Some(madhab), ..self }),
    {
        Self { madhab: Some(madhab), ..self }
    }

    pub fn high_latitude_rule(self, high_latitude_rule: HighLatitudeRule) -> (r: Self)
        ensures
            r == (Configuration { high_latitude_rule: Some(high_latitude_rule), ..self }),
    {
        Self { high_latitude_rule: Some(high_latitude_rule), ..self }
    }

    pub fn adjustments(self, adjustments: TimeAdjustment) -> (r: Self)
        ensures
            r == (Configuration { adjustments: Some(adjustments), ..self }),
    {
        Self { adjustments: Some(adjustments), ..self }
    }

    pub fn method_adjustments(self, method_adjustments: TimeAdjustment) -> (r: Self)
        ensures
            r == (Configuration { method_adjustments: Some(method_adjustments), ..self }),
    {
        Self { method_adjustments: Some(method_adjustments), ..self }
    }

    pub fn rounding(self, rounding: Rounding) -> (r: Self)
        ensures
            r == (Configuration { rounding: Some(rounding), ..self }),
    {
        Self { rounding: Some(rounding), ..self }
    }

    pub fn shafaq(self, shafaq: Shafaq) -> (r: Self)
        ensures
            r == (Configuration { shafaq: Some(shafaq), ..self }),
    {
        Self { shafaq: Some(shafaq), ..self }
    }

    pub fn build(self) -> (r: Parameters)
        ensures
            r == self.spec_build(),
    {
        Parameters {
            method: match self.method {
                Some(v) => v,
                None => Method::Other,
            },
            fajr_angle: match self.fajr_angle {
                Some(v) => v,
                None => Angle { microdegrees: 0 },
            },
            maghrib_angle: match self.maghrib_angle {
                Some(v) => v,
                None => Angle { microdegrees: 0 },
            },
            isha_angle: match self.isha_angle {
                Some(v) => v,
                None => Angle { microdegrees: 0 },
            },
            isha_interval: match self.isha_interval {
                Some(v) => v,
                None => 0,
            },
            madhab: match self.madhab {
                Some(v) => v,
                None => Madhab::Shafi,
            },
            high_latitude_rule: match self.high_latitude_rule {
                Some(v) => v,
                None => HighLatitudeRule::MiddleOfTheNight,
            },
            adjustments: match self.adjustments {
                Some(v) => v,
                None => TimeAdjustment::zero(),
            },
            method_adjustments: match self.method_adjustments {
                Some(v) => v,
                None => TimeAdjustment::zero(),
            },
            rounding: match self.rounding {
                Some(v) => v,
                None => Rounding::Nearest,
            },
            shafaq: match self.shafaq {
                Some(v) => v,
                None => Shafaq::General,
            },
        }
    }
}

impl Default for Configuration {
    fn default() -> (r: Self)
        ensures
            r.spec_build() == Parameters::spec_from_angles(Angle { microdegrees: 0 }, Angle { microdegrees: 0 }),
    {
        Self::new()
    }
}

} // verus!
