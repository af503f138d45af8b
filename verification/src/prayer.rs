//! A single flat naming of prayers, sunrise, Qiyam, and the restricted
//! windows, kept alongside the tagged [`crate::event`] form.

use vstd::prelude::*;

verus! {

/// Names of all obligatory prayers, sunrise, and Qiyam.
#[derive(Clone, Copy, Debug, PartialEq, Eq, Structural)]
pub enum Prayer {
    Fajr,
    Sunrise,
    Dhuhr,
    Asr,
    Maghrib,
    Isha,
    Qiyam,
    Restricted(Reason),
}

/// Why a window is restricted: prayer is not performed during it.
#[derive(Clone, Copy, Debug, PartialEq, Eq, Structural)]
pub enum Reason {
    DuringSunrise,
    DuringSunset,
    AfterMidnight,
}

impl Prayer {
    /// The everyday name of this event; a restricted window is named by
    /// what it forbids.
    pub open spec fn spec_name(self) -> Seq<char> {
        match self {
            Prayer::Fajr => "Fajr"@,
            Prayer::Sunrise => "Sunrise"@,
            Prayer::Dhuhr => "Dhuhr"@,
            Prayer::Asr => "Asr"@,
            Prayer::Maghrib => "Maghrib"@,
            Prayer::Isha => "Isha"@,
            Prayer::Qiyam => "Qiyam"@,
            Prayer::Restricted(Reason::DuringSunrise) => "During Sunrise (Cannot perform Fajr)"@,
            Prayer::Restricted(Reason::DuringSunset) => "During Sunset (Cannot perform Asr)"@,
            Prayer::Restricted(Reason::AfterMidnight) => "After Midnight (Cannot perform Isha)"@,
        }
    }

    pub fn name(&self) -> (r: &'static str)
        ensures
            r@ == self.spec_name(),
    {
        match self {
            Self::Fajr => "Fajr",
            Self::Sunrise => "Sunrise",
            Self::Dhuhr => "Dhuhr",
            Self::Asr => "Asr",
            Self::Maghrib => "Maghrib",
            Self::Isha => "Isha",
            Self::Qiyam => "Qiyam",
            Self::Restricted(Reason::DuringSunrise) => "During Sunrise (Cannot perform Fajr)",
            Self::Restricted(Reason::DuringSunset) => "During Sunset (Cannot perform Asr)",
            Self::Restricted(Reason::AfterMidnight) => "After Midnight (Cannot perform Isha)",
        }
    }

    /// On Fridays the Dhuhr prayer is named Jumu'ah; every other event
    /// keeps its everyday name.
    pub fn friday_name(&self) -> (r: &'static str)
        ensures
            *self == Prayer::Dhuhr ==> r@ == "Jumu'ah"@,
            *self != Prayer::Dhuhr ==> r@ == self.spec_name(),
    {
        match self {
            Self::Dhuhr => "Jumu'ah",
            _ => self.name(),
        }
    }
}

} // verus!
