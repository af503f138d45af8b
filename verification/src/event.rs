//! Named daily events and the restricted windows between them.

use vstd::prelude::*;

verus! {

/// Names of all obligatory prayers, sunrise, and Qiyam.
#[derive(Clone, Copy, Debug, PartialEq, Eq, Structural)]
pub enum Event {
    Prayer(Prayer),
    Sunrise,
    Qiyam,
    Restricted(Reason),
}

/// The five obligatory prayers.
#[derive(Clone, Copy, Debug, PartialEq, Eq, Structural)]
pub enum Prayer {
    Fajr,
    Dhuhr,
    Asr,
    Maghrib,
    Isha,
}

/// Why a window is restricted: prayer is not performed during it.
#[derive(Clone, Copy, Debug, PartialEq, Eq, Structural)]
pub enum Reason {
    DuringSunrise,
    DuringSunset,
    AfterMidnight,
}

impl Prayer {
    /// The everyday name of this prayer.
    pub open spec fn spec_name(self) -> Seq<char> {
        match self {
            Prayer::Fajr => "Fajr"@,
            Prayer::Dhuhr => "Dhuhr"@,
            Prayer::Asr => "Asr"@,
            Prayer::Maghrib => "Maghrib"@,
            Prayer::Isha => "Isha"@,
        }
    }

    pub fn name(self) -> (r: &'static str)
        ensures
            r@ == self.spec_name(),
    {
        match self {
            Self::Fajr => "Fajr",
            Self::Dhuhr => "Dhuhr",
            Self::Asr => "Asr",
            Self::Maghrib => "Maghrib",
            Self::Isha => "Isha",
        }
    }

    /// On Fridays the Dhuhr prayer is named Jumu'ah; the other prayers
    /// keep their everyday name.
    pub fn friday_name(self) -> (r: &'static str)
        ensures
            self == Prayer::Dhuhr ==> r@ == "Jumu'ah"@,
            self != Prayer::Dhuhr ==> r@ == self.spec_name(),
    {
        if self == Self::Dhuhr {
            "Jumu'ah"
        } else {
            self.name()
        }
    }
}

impl Event {
    /// The everyday name of this event; a restricted window is named by
    /// what it forbids.
    pub open spec fn spec_name(self) -> Seq<char> {
        match self {
            Event::Prayer(p) => p.spec_name(),
            Event::Sunrise => "Sunrise"@,
            Event::Qiyam => "Qiyam"@,
            Event::Restricted(Reason::DuringSunrise) => "During Sunrise (Cannot perform Fajr)"@,
            Event::Restricted(Reason::DuringSunset) => "During Sunset (Cannot perform Asr)"@,
            Event::Restricted(Reason::AfterMidnight) => "After Midnight (Cannot perform Isha)"@,
        }
    }

    pub fn name(&self) -> (r: &'static str)
        ensures
            r@ == self.spec_name(),
    {
        match self {
            Self::Prayer(p) => p.name(),
            Self::Sunrise => "Sunrise",
            Self::Qiyam => "Qiyam",
            Self::Restricted(Reason::DuringSunrise) => "During Sunrise (Cannot perform Fajr)",
            Self::Restricted(Reason::DuringSunset) => "During Sunset (Cannot perform Asr)",
            Self::Restricted(Reason::AfterMidnight) => "After Midnight (Cannot perform Isha)",
        }
    }

    /// On Fridays the Dhuhr prayer is named Jumu'ah; every other event
    /// keeps its everyday name.
    pub fn friday_name(&self) -> (r: &'static str)
        ensures
            *self == Event::Prayer(Prayer::Dhuhr) ==> r@ == "Jumu'ah"@,
            *self != Event::Prayer(Prayer::Dhuhr) ==> r@ == self.spec_name(),
    {
        if let Self::Prayer(p) = self {
            p.friday_name()
        } else {
            self.name()
        }
    }

    /// Whether this event is one of the five daily prayers.
    pub fn is_daily(&self) -> (r: bool)
        ensures
            r == (self matches Event::Prayer(_)),
    {
        !matches!(self, Self::Sunrise | Self::Qiyam | Self::Restricted(_))
    }
}

} // verus!
