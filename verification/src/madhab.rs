//! Jurisprudential school, which sets the Asr shadow ratio.

use vstd::prelude::*;

verus! {

/// Setting for the time of the Asr prayer.
///
/// For the Hanafi madhab, Asr is roughly an hour later than for the
/// Shafi madhab.
#[derive(Clone, Copy, Debug, PartialEq, Eq, PartialOrd, Ord, Structural)]
pub enum Madhab {
    Shafi,
    Hanafi,
}

impl Madhab {
    /// The shadow-length multiple that defines Asr for this school.
    pub open spec fn spec_shadow(self) -> u8 {
        match self {
            Madhab::Shafi => 1,
            Madhab::Hanafi => 2,
        }
    }

    pub fn shadow(self) -> (r: u8)
        ensures
            r == self.spec_shadow(),
    {
        match self {
            Madhab::Shafi => 1,
            Madhab::Hanafi => 2,
        }
    }
}

} // verus!
