//! Rounding policy applied to each computed prayer instant.

use vstd::prelude::*;

verus! {

/// How a computed instant is aligned to the minute.
#[derive(Clone, Copy, Debug, PartialEq, Eq, Structural)]
pub enum Rounding {
    /// Round to the nearest whole minute.
    Nearest,
    /// Round up to the next whole minute.
    Up,
    /// Keep the instant as computed.
    Unrounded,
}

} // verus!
