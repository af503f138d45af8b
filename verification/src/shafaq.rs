//! Twilight-glow categories used by the Moonsighting Committee method.

use vstd::prelude::*;

verus! {

/// Shafaq is the twilight in the sky. Different madhabs define the
/// appearance of twilight differently. These values are used by the
/// Moonsighting Committee method for the different ways to calculate Isha.
#[derive(Clone, Copy, Debug, PartialEq, Eq, Structural)]
pub enum Shafaq {
    /// General is a combination of Ahmer and Abyad.
    General,
    /// Ahmer means the twilight is the red glow in the sky.
    /// Used by the Shafi, Maliki, and Hanbali madhabs.
    Ahmer,
    /// Abyad means the twilight is the white glow in the sky.
    /// Used by the Hanafi madhab.
    Abyad,
}

} // verus!
