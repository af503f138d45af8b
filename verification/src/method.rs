//! Preset configurations from a few authorities for calculating prayer
//! times.

use vstd::prelude::*;

use crate::adjustments::{Adjustment, TimeAdjustment};
use crate::angle::Angle;
use crate::parameters::{Configuration, Parameters};
use crate::rounding::Rounding;

verus! {

/// Provides preset configurations for a few authorities for calculating
/// prayer times.
#[derive(Clone, Copy, Debug, PartialEq, Eq, Structural)]
pub enum Method {
    /// Muslim World League. Standard Fajr time with an angle of 18.
    /// Earlier Isha time with an angle of 17.
    MuslimWorldLeague,
    /// Egyptian General Authority of Survey. Early Fajr time using an
    /// angle of 19.5 and a slightly earlier Isha time using an angle of
    /// 17.5.
    Egyptian,
    /// University of Islamic Sciences, Karachi. A generally applicable
    /// method that uses standard Fajr and Isha angles of 18.
    Karachi,
    /// Umm al-Qura University, Makkah. Uses a fixed interval of 90
    /// minutes from Maghrib to calculate Isha, and a slightly earlier
    /// Fajr time with an angle of 18.5.
    UmmAlQura,
    /// Used in the UAE. Slightly earlier Fajr time and slightly later
    /// Isha time with angles of 18.2, in addition to 3-minute offsets
    /// for sunrise, Dhuhr, Asr, and Maghrib.
    Dubai,
    /// Method developed by the Moonsighting Committee Worldwide. Uses
    /// standard 18 degree angles for Fajr and Isha in addition to
    /// seasonal adjustment values, and applies the one-seventh
    /// approximation rule for locations above 55 degrees of latitude.
    MoonsightingCommittee,
    /// Also known as the ISNA method, usable for North America. Gives
    /// later Fajr times and early Isha times with angles of 15.
    NorthAmerica,
    /// Standard Fajr time with an angle of 18. Slightly earlier Isha
    /// time with an angle of 17.5.
    Kuwait,
    /// Same Isha interval as Umm al-Qura but with the standard Fajr time
    /// using an angle of 18.
    Qatar,
    /// Used in Singapore, Malaysia, and Indonesia. Early Fajr time with
    /// an angle of 20 and standard Isha time with an angle of 18.
    Singapore,
    /// Institute of Geophysics, University of Tehran. Early Isha time
    /// with an angle of 14. Slightly later Fajr time with an angle of
    /// 17.7. Calculates Maghrib based on the sun reaching an angle of
    /// 4.5 below the horizon.
    Tehran,
    /// An approximation of the Diyanet method used in Turkey.
    Turkey,
    /// Defaults to angles of 0. Generally used for a custom method with
    /// values of one's own.
    Other,
}

impl Method {
    /// The preset parameters this authority prescribes.
    pub open spec fn spec_parameters(self) -> Parameters {
        let base = Parameters::spec_from_angles(Angle { microdegrees: 0 }, Angle { microdegrees: 0 });
        match self {
            Method::MuslimWorldLeague => Parameters {
                method: self,
                fajr_angle: Angle { microdegrees: 18_000_000 },
                isha_angle: Angle { microdegrees: 17_000_000 },
                method_adjustments: TimeAdjustment { dhuhr: 1, ..TimeAdjustment::spec_zero() },
                ..base
            },
            Method::Egyptian => Parameters {
                method: self,
                fajr_angle: Angle { microdegrees: 19_500_000 },
                isha_angle: Angle { microdegrees: 17_500_000 },
                method_adjustments: TimeAdjustment { dhuhr: 1, ..TimeAdjustment::spec_zero() },
                ..base
            },
            Method::Karachi => Parameters {
                method: self,
                fajr_angle: Angle { microdegrees: 18_000_000 },
                isha_angle: Angle { microdegrees: 18_000_000 },
                method_adjustments: TimeAdjustment { dhuhr: 1, ..TimeAdjustment::spec_zero() },
                ..base
            },
            Method::UmmAlQura => Parameters {
                method: self,
                fajr_angle: Angle { microdegrees: 18_500_000 },
                isha_angle: Angle { microdegrees: 0 },
                isha_interval: 90,
                ..base
            },
            Method::Dubai => Parameters {
                method: self,
                fajr_angle: Angle { microdegrees: 18_200_000 },
                isha_angle: Angle { microdegrees: 18_200_000 },
                method_adjustments: TimeAdjustment {
                    sunrise: -3i64,
                    dhuhr: 3,
                    asr: 3,
                    maghrib: 3,
                    ..TimeAdjustment::spec_zero()
                },
                ..base
            },
            Method::MoonsightingCommittee => Parameters {
                method: self,
                fajr_angle: Angle { microdegrees: 18_000_000 },
                isha_angle: Angle { microdegrees: 18_000_000 },
                method_adjustments: TimeAdjustment { dhuhr: 5, maghrib: 3, ..TimeAdjustment::spec_zero() },
                ..base
            },
            Method::NorthAmerica => Parameters {
                method: self,
                fajr_angle: Angle { microdegrees: 15_000_000 },
                isha_angle: Angle { microdegrees: 15_000_000 },
                method_adjustments: TimeAdjustment { dhuhr: 1, ..TimeAdjustment::spec_zero() },
                ..base
            },
            Method::Kuwait => Parameters {
                method: self,
                fajr_angle: Angle { microdegrees: 18_000_000 },
                isha_angle: Angle { microdegrees: 17_500_000 },
                ..base
            },
            Method::Qatar => Parameters {
                method: self,
                fajr_angle: Angle { microdegrees: 18_000_000 },
                isha_angle: Angle { microdegrees: 0 },
                isha_interval: 90,
                ..base
            },
            Method::Singapore => Parameters {
                method: self,
                fajr_angle: Angle { microdegrees: 20_000_000 },
                isha_angle: Angle { microdegrees: 18_000_000 },
                method_adjustments: TimeAdjustment { dhuhr: 1, ..TimeAdjustment::spec_zero() },
                rounding: Rounding::Up,
                ..base
            },
            Method::Tehran => Parameters {
                method: self,
                fajr_angle: Angle { microdegrees: 17_700_000 },
                maghrib_angle: Angle { microdegrees: 4_500_000 },
                isha_angle: Angle { microdegrees: 14_000_000 },
                ..base
            },
            Method::Turkey => Parameters {
                method: self,
                fajr_angle: Angle { microdegrees: 18_000_000 },
                isha_angle: Angle { microdegrees: 17_000_000 },
                method_adjustments: TimeAdjustment {
                    sunrise: -7i64,
                    dhuhr: 5,
                    asr: 4,
                    maghrib: 7,
                    ..TimeAdjustment::spec_zero()
                },
                ..base
            },
            Method::Other => Parameters { method: self, ..base },
        }
    }

    pub fn parameters(&self) -> (r: Parameters)
        ensures
            r == self.spec_parameters(),
            r.wf(),
    {
        match self {
            Self::MuslimWorldLeague => Configuration::new()
                .fajr_angle(Angle::new(18_000_000))
                .isha_angle(Angle::new(17_000_000))
                .method(*self)
                .method_adjustments(Adjustment::new().dhuhr(1).build())
                .build(),
            Self::Egyptian => Configuration::new()
                .fajr_angle(Angle::new(19_500_000))
                .isha_angle(Angle::new(17_500_000))
                .method(*self)
                .method_adjustments(Adjustment::new().dhuhr(1).build())
                .build(),
            Self::Karachi => Configuration::new()
                .fajr_angle(Angle::new(18_000_000))
                .isha_angle(Angle::new(18_000_000))
                .method(*self)
                .method_adjustments(Adjustment::new().dhuhr(1).build())
                .build(),
            Self::UmmAlQura => Configuration::new()
                .fajr_angle(Angle::new(18_500_000))
                .isha_angle(Angle::new(0))
                .method(*self)
                .isha_interval(90)
                .build(),
            Self::Dubai => Configuration::new()
                .fajr_angle(Angle::new(18_200_000))
                .isha_angle(Angle::new(18_200_000))
                .method(*self)
                .method_adjustments(Adjustment::new().sunrise(-3).dhuhr(3).asr(3).maghrib(3).build())
                .build(),
            Self::MoonsightingCommittee => Configuration::new()
                .fajr_angle(Angle::new(18_000_000))
                .isha_angle(Angle::new(18_000_000))
                .method(*self)
                .method_adjustments(Adjustment::new().dhuhr(5).maghrib(3).build())
                .build(),
            Self::NorthAmerica => Configuration::new()
                .fajr_angle(Angle::new(15_000_000))
                .isha_angle(Angle::new(15_000_000))
                .method(*self)
                .method_adjustments(Adjustment::new().dhuhr(1).build())
                .build(),
            Self::Kuwait => Configuration::new()
                .fajr_angle(Angle::new(18_000_000))
                .isha_angle(Angle::new(17_500_000))
                .method(*self)
                .build(),
            Self::Qatar => Configuration::new()
                .fajr_angle(Angle::new(18_000_000))
                .isha_angle(Angle::new(0))
                .method(*self)
                .isha_interval(90)
                .build(),
            Self::Singapore => Configuration::new()
                .fajr_angle(Angle::new(20_000_000))
                .isha_angle(Angle::new(18_000_000))
                .method(*self)
                .method_adjustments(Adjustment::new().dhuhr(1).build())
                .rounding(Rounding::Up)
                .build(),
            Self::Tehran => Configuration::new()
                .fajr_angle(Angle::new(17_700_000))
                .isha_angle(Angle::new(14_000_000))
                .method(*self)
                .maghrib_angle(Angle::new(4_500_000))
                .build(),
            Self::Turkey => Configuration::new()
                .fajr_angle(Angle::new(18_000_000))
                .isha_angle(Angle::new(17_000_000))
                .method(*self)
                .method_adjustments(Adjustment::new().sunrise(-7).dhuhr(5).asr(4).maghrib(7).build())
                .build(),
            Self::Other => Configuration::new()
                .fajr_angle(Angle::new(0))
                .isha_angle(Angle::new(0))
                .method(*self)
                .build(),
        }
    }
}

} // verus!
