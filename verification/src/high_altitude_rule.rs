//! Rule for approximating Fajr and Isha at high latitudes.

use vstd::prelude::*;

use crate::angle::Coordinates;

verus! {

/// Rule for approximating Fajr and Isha at high latitudes.
#[derive(Clone, Copy, Debug, PartialEq, Eq, Structural)]
pub enum HighLatitudeRule {
    /// Fajr will never be earlier than the midpoint of the night and Isha
    /// will never be later than the midpoint of the night. This is the
    /// default value, preventing Fajr and Isha from crossing boundaries.
    MiddleOfTheNight,
    /// Fajr will never be earlier than the beginning of the last seventh
    /// of the night and Isha will never be later than the end of the
    /// first seventh of the night.
    ///
    /// Recommended for locations above 48 degrees of latitude to prevent
    /// prayer times that would be difficult to perform.
    SeventhOfTheNight,
    /// The night is divided into portions of roughly one third. The exact
    /// value is derived by dividing the Fajr and Isha angles by 60.
    TwilightAngle,
}

impl HighLatitudeRule {
    /// The rule suited to a position: the seventh-of-the-night bound
    /// above 48 degrees of latitude, the middle of the night otherwise.
    pub fn recommended(coordinates: &Coordinates) -> (r: Self)
        ensures
            r == (if coordinates.latitude > 48_000_000 {
                HighLatitudeRule::SeventhOfTheNight
            } else {
                HighLatitudeRule::MiddleOfTheNight
            }),
    {
        if coordinates.latitude > 48_000_000 {
            Self::SeventhOfTheNight
        } else {
            Self::MiddleOfTheNight
        }
    }
}

} // verus!
