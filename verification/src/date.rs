//! Calendar dates and the arithmetic the schedule needs on them.

use vstd::prelude::*;

use crate::ops;

verus! {

/// A Gregorian calendar date.
#[derive(Clone, Copy, Debug, PartialEq, Eq, Structural)]
pub struct Date {
    pub year: i32,
    pub month: u8,
    pub day: u8,
}

/// The length of a month in the given year.
pub open spec fn spec_days_in_month(year: int, month: int) -> int {
    if month == 2 {
        if ops::spec_is_leap_year(year) {
            29
        } else {
            28
        }
    } else if month == 4 || month == 6 || month == 9 || month == 11 {
        30
    } else {
        31
    }
}

/// Days in the months before `month` in the given year.
pub open spec fn spec_days_before_month(year: int, month: int) -> int {
    let common: int = if month <= 1 {
        0
    } else if month == 2 {
        31
    } else if month == 3 {
        59
    } else if month == 4 {
        90
    } else if month == 5 {
        120
    } else if month == 6 {
        151
    } else if month == 7 {
        181
    } else if month == 8 {
        212
    } else if month == 9 {
        243
    } else if month == 10 {
        273
    } else if month == 11 {
        304
    } else {
        334
    };
    if month >= 3 && ops::spec_is_leap_year(year) {
        common + 1
    } else {
        common
    }
}

pub fn days_in_month(year: i32, month: u8) -> (r: u8)
    requires
        1 <= year,
    ensures
        r == spec_days_in_month(year as int, month as int),
{
    if month == 2 {
        if ops::is_leap_year(year as u32) {
            29
        } else {
            28
        }
    } else if month == 4 || month == 6 || month == 9 || month == 11 {
        30
    } else {
        31
    }
}

impl Date {
    pub fn new(year: i32, month: u8, day: u8) -> (r: Self)
        ensures
            r == (Date { year, month, day }),
    {
        Self { year, month, day }
    }

    /// A real calendar date within the supported span of years.
    pub open spec fn wf(self) -> bool {
        &&& 1 <= self.year <= 9999
        &&& 1 <= self.month <= 12
        &&& 1 <= self.day <= spec_days_in_month(self.year as int, self.month as int)
    }

    /// Checks `wf` at run time.
    pub fn is_valid(&self) -> (r: bool)
        ensures
            r == self.wf(),
    {
        1 <= self.year && self.year <= 9999 && 1 <= self.month && self.month <= 12 && 1 <= self.day
            && self.day <= days_in_month(self.year, self.month)
    }

    /// The day of the year this date falls on, counted from 1.
    pub open spec fn spec_ordinal(self) -> int {
        spec_days_before_month(self.year as int, self.month as int) + self.day
    }

    pub fn ordinal(&self) -> (r: u32)
        requires
            self.wf(),
        ensures
            r == self.spec_ordinal(),
            1 <= r <= 366,
    {
        let before: u32 = match self.month {
            1 => 0,
            2 => 31,
            3 => 59,
            4 => 90,
            5 => 120,
            6 => 151,
            7 => 181,
            8 => 212,
            9 => 243,
            10 => 273,
            11 => 304,
            _ => 334,
        };
        let leap_shift: u32 = if self.month >= 3 && ops::is_leap_year(self.year as u32) {
            1
        } else {
            0
        };
        before + leap_shift + self.day as u32
    }

    /// The date of the following day.
    pub open spec fn spec_tomorrow(self) -> Date {
        if self.day < spec_days_in_month(self.year as int, self.month as int) {
            Date { year: self.year, month: self.month, day: (self.day + 1) as u8 }
        } else if self.month < 12 {
            Date { year: self.year, month: (self.month + 1) as u8, day: 1 }
        } else {
            Date { year: (self.year + 1) as i32, month: 1, day: 1 }
        }
    }

    pub fn tomorrow(&self) -> (r: Self)
        requires
            self.wf(),
            self.year < 9999,
        ensures
            r == self.spec_tomorrow(),
            r.wf(),
    {
        if self.day < days_in_month(self.year, self.month) {
            Self { year: self.year, month: self.month, day: self.day + 1 }
        } else if self.month < 12 {
            Self { year: self.year, month: self.month + 1, day: 1 }
        } else {
            Self { year: self.year + 1, month: 1, day: 1 }
        }
    }

    /// The date of the preceding day.
    pub open spec fn spec_yesterday(self) -> Date {
        if self.day > 1 {
            Date { year: self.year, month: self.month, day: (self.day - 1) as u8 }
        } else if self.month > 1 {
            Date {
                year: self.year,
                month: (self.month - 1) as u8,
                day: spec_days_in_month(self.year as int, self.month - 1) as u8,
            }
        } else {
            Date { year: (self.year - 1) as i32, month: 12, day: 31 }
        }
    }

    pub fn yesterday(&self) -> (r: Self)
        requires
            self.wf(),
            self.year > 1,
        ensures
            r == self.spec_yesterday(),
            r.wf(),
    {
        if self.day > 1 {
            Self { year: self.year, month: self.month, day: self.day - 1 }
        } else if self.month > 1 {
            Self { year: self.year, month: self.month - 1, day: days_in_month(self.year, self.month - 1) }
        } else {
            Self { year: self.year - 1, month: 12, day: 31 }
        }
    }
}

/// Stepping a day forward and then back returns to the same date.
pub proof fn lemma_tomorrow_yesterday_round_trip(d: Date)
    requires
        d.wf(),
        d.year < 9999,
    ensures
        d.spec_tomorrow().spec_yesterday() == d,
{
}

} // verus!
