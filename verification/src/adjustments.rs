//! Manual per-prayer time adjustments.

use vstd::prelude::*;

verus! {

/// Time adjustment for all prayer times.
///
/// Each value is in whole minutes and can be positive or negative.
#[derive(Clone, Copy, Debug, PartialEq, Eq, Structural)]
pub struct TimeAdjustment {
    pub fajr: i64,
    pub sunrise: i64,
    pub dhuhr: i64,
    pub asr: i64,
    pub maghrib: i64,
    pub isha: i64,
}

impl TimeAdjustment {
    pub fn new(fajr: i64, sunrise: i64, dhuhr: i64, asr: i64, maghrib: i64, isha: i64) -> (r: Self)
        ensures
            r == (TimeAdjustment { fajr, sunrise, dhuhr, asr, maghrib, isha }),
    {
        Self { fajr, sunrise, dhuhr, asr, maghrib, isha }
    }

    /// All six adjustments lie within a day's worth of minutes, so that
    /// applying them to an instant cannot overflow.
    pub open spec fn wf(self) -> bool {
        &&& -100_000 <= self.fajr <= 100_000
        &&& -100_000 <= self.sunrise <= 100_000
        &&& -100_000 <= self.dhuhr <= 100_000
        &&& -100_000 <= self.asr <= 100_000
        &&& -100_000 <= self.maghrib <= 100_000
        &&& -100_000 <= self.isha <= 100_000
    }

    /// No adjustment at all.
    pub open spec fn spec_zero() -> TimeAdjustment {
        TimeAdjustment { fajr: 0, sunrise: 0, dhuhr: 0, asr: 0, maghrib: 0, isha: 0 }
    }

    pub fn zero() -> (r: Self)
        ensures
            r == Self::spec_zero(),
    {
        Self { fajr: 0, sunrise: 0, dhuhr: 0, asr: 0, maghrib: 0, isha: 0 }
    }
}

impl Default for TimeAdjustment {
    fn default() -> (r: Self)
        ensures
            r == Self::spec_zero(),
    {
        Self::zero()
    }
}

/// A fluent builder for [`TimeAdjustment`]: unset fields stay zero.
#[derive(Clone, Copy, Debug, PartialEq, Eq, Structural)]
pub struct Adjustment {
    pub adjustment: TimeAdjustment,
}

impl Adjustment {
    pub fn new() -> (r: Self)
        ensures
            r.adjustment == TimeAdjustment::spec_zero(),
    {
        Self { adjustment: TimeAdjustment::zero() }
    }

    pub fn fajr(self, fajr: i64) -> (r: Self)
        ensures
            r.adjustment == (TimeAdjustment { fajr, ..self.adjustment }),
    {
        Self { adjustment: TimeAdjustment { fajr, ..self.adjustment } }
    }

    pub fn sunrise(self, sunrise: i64) -> (r: Self)
        ensures
            r.adjustment == (TimeAdjustment { sunrise, ..self.adjustment }),
    {
        Self { adjustment: TimeAdjustment { sunrise, ..self.adjustment } }
    }

    pub fn dhuhr(self, dhuhr: i64) -> (r: Self)
        ensures
            r.adjustment == (TimeAdjustment { dhuhr, ..self.adjustment }),
    {
        Self { adjustment: TimeAdjustment { dhuhr, ..self.adjustment } }
    }

    pub fn asr(self, asr: i64) -> (r: Self)
        ensures
            r.adjustment == (TimeAdjustment { asr, ..self.adjustment }),
    {
        Self { adjustment: TimeAdjustment { asr, ..self.adjustment } }
    }

    pub fn maghrib(self, maghrib: i64) -> (r: Self)
        ensures
            r.adjustment == (TimeAdjustment { maghrib, ..self.adjustment }),
    {
        Self { adjustment: TimeAdjustment { maghrib, ..self.adjustment } }
    }

    pub fn isha(self, isha: i64) -> (r: Self)
        ensures
            r.adjustment == (TimeAdjustment { isha, ..self.adjustment }),
    {
        Self { adjustment: TimeAdjustment { isha, ..self.adjustment } }
    }

    pub fn build(self) -> (r: TimeAdjustment)
        ensures
            r == self.adjustment,
    {
        self.adjustment
    }
}

impl Default for Adjustment {
    fn default() -> (r: Self)
        ensures
            r.adjustment == TimeAdjustment::spec_zero(),
    {
        Self::new()
    }
}

} // verus!
