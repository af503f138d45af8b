//! Degree-based angle and geographic coordinate values.
//!
//! Angles are stored in integer microdegrees (one millionth of a degree),
//! so wraparound arithmetic is exact.

use vstd::prelude::*;

verus! {

/// Microdegrees in a full turn.
pub const FULL_TURN: i64 = 360_000_000;

/// Microdegrees in a half turn.
pub const HALF_TURN: i64 = 180_000_000;

/// An angle in integer microdegrees of arc.
#[derive(Clone, Copy, Debug, PartialEq, Eq, Structural)]
pub struct Angle {
    pub microdegrees: i64,
}

/// The representative of `v` in `[0, FULL_TURN)`, congruent to `v`
/// modulo a full turn.
pub open spec fn unwound_value(v: int) -> int {
    v % (FULL_TURN as int)
}

/// The representative of `v` in `[-HALF_TURN, HALF_TURN]`, congruent to
/// `v` modulo a full turn; a value already in that interval is kept, and
/// an exact half turn is resolved away from zero.
pub open spec fn quadrant_shifted_value(v: int) -> int {
    if -(HALF_TURN as int) <= v <= HALF_TURN as int {
        v
    } else {
        let u = unwound_value(v);
        if u < HALF_TURN as int {
            u
        } else if u > HALF_TURN as int {
            u - FULL_TURN as int
        } else if v >= 0 {
            -(HALF_TURN as int)
        } else {
            HALF_TURN as int
        }
    }
}

impl Angle {
    pub fn new(microdegrees: i64) -> (r: Self)
        ensures
            r.microdegrees == microdegrees,
    {
        Self { microdegrees }
    }

    /// Maps this angle into `[0, 360)` degrees.
    pub fn unwound(self) -> (r: Self)
        ensures
            r.microdegrees == unwound_value(self.microdegrees as int),
            0 <= r.microdegrees < FULL_TURN,
    {
        let rem = self.microdegrees.checked_rem_euclid(FULL_TURN);
        Self { microdegrees: rem.unwrap() }
    }

    /// Maps this angle into `[-180, 180]` degrees.
    pub fn quadrant_shifted(self) -> (r: Self)
        ensures
            r.microdegrees == quadrant_shifted_value(self.microdegrees as int),
            -HALF_TURN <= r.microdegrees <= HALF_TURN,
    {
        let v = self.microdegrees;
        if -HALF_TURN <= v && v <= HALF_TURN {
            self
        } else {
            let u = v.checked_rem_euclid(FULL_TURN).unwrap();
            if u < HALF_TURN {
                Self { microdegrees: u }
            } else if u > HALF_TURN {
                Self { microdegrees: u - FULL_TURN }
            } else if v >= 0 {
                Self { microdegrees: -HALF_TURN }
            } else {
                Self { microdegrees: HALF_TURN }
            }
        }
    }
}

/// Division truncated toward zero, defined for any nonzero divisor: the
/// quotient of machine division on signed values.
pub open spec fn truncated_div(a: int, b: int) -> int {
    let q = (if a >= 0 {
        a
    } else {
        -a
    }) / (if b >= 0 {
        b
    } else {
        -b
    });
    if (a >= 0) == (b >= 0) {
        q
    } else {
        -q
    }
}

proof fn lemma_truncated_div_bounded(a: int, b: int)
    requires
        b != 0,
    ensures
        truncated_div(a, b) <= (if a >= 0 { a } else { -a }),
        -(if a >= 0 { a } else { -(a) }) <= truncated_div(a, b),
{
    let abs_a = if a >= 0 {
        a
    } else {
        -a
    };
    let abs_b = if b >= 0 {
        b
    } else {
        -b
    };
    vstd::arithmetic::div_mod::lemma_div_pos_is_pos(abs_a, abs_b);
    vstd::arithmetic::div_mod::lemma_div_is_ordered_by_denominator(abs_a, 1, abs_b);
    vstd::arithmetic::div_mod::lemma_div_basics(abs_a);
}

impl Angle {
    /// Degree-wise sum of two angles.
    pub fn plus(self, rhs: Angle) -> (r: Angle)
        requires
            i64::MIN <= self.microdegrees + rhs.microdegrees <= i64::MAX,
        ensures
            r.microdegrees == self.microdegrees + rhs.microdegrees,
    {
        Angle { microdegrees: self.microdegrees + rhs.microdegrees }
    }

    /// Degree-wise difference of two angles.
    pub fn minus(self, rhs: Angle) -> (r: Angle)
        requires
            i64::MIN <= self.microdegrees - rhs.microdegrees <= i64::MAX,
        ensures
            r.microdegrees == self.microdegrees - rhs.microdegrees,
    {
        Angle { microdegrees: self.microdegrees - rhs.microdegrees }
    }

    /// Degree-wise product of two angles: multiplying by an angle of two
    /// degrees doubles the value. The result is truncated toward zero at
    /// the microdegree.
    pub fn times(self, rhs: Angle) -> (r: Angle)
        requires
            -3_000_000_000 <= self.microdegrees <= 3_000_000_000,
            -3_000_000_000 <= rhs.microdegrees <= 3_000_000_000,
        ensures
            r.microdegrees == truncated_div(self.microdegrees * rhs.microdegrees, 1_000_000),
    {
        proof {
            assert(-9_000_000_000_000_000_000 <= self.microdegrees * rhs.microdegrees
                <= 9_000_000_000_000_000_000) by (nonlinear_arith)
                requires
                    -3_000_000_000 <= self.microdegrees <= 3_000_000_000,
                    -3_000_000_000 <= rhs.microdegrees <= 3_000_000_000,
            {
            }
            lemma_truncated_div_bounded(self.microdegrees * rhs.microdegrees, 1_000_000);
        }
        let product = self.microdegrees.checked_mul(rhs.microdegrees).unwrap();
        Angle { microdegrees: product.checked_div(1_000_000).unwrap() }
    }

    /// Degree-wise quotient of two angles: a quarter turn divided by a
    /// half turn is half a degree. The result is truncated toward zero
    /// at the microdegree; a zero divisor is excluded.
    pub fn divided_by(self, rhs: Angle) -> (r: Angle)
        requires
            rhs.microdegrees != 0,
            -9_000_000_000_000 <= self.microdegrees <= 9_000_000_000_000,
        ensures
            r.microdegrees == truncated_div(self.microdegrees * 1_000_000, rhs.microdegrees as int),
    {
        proof {
            lemma_truncated_div_bounded(self.microdegrees * 1_000_000, rhs.microdegrees as int);
        }
        Angle { microdegrees: (self.microdegrees * 1_000_000).checked_div(rhs.microdegrees).unwrap() }
    }
}

/// Unwinding lands in `[0, 360)` degrees and is idempotent: unwinding an
/// already unwound value changes nothing.
pub proof fn lemma_unwound_idempotent(v: int)
    ensures
        0 <= unwound_value(v) < FULL_TURN as int,
        unwound_value(unwound_value(v)) == unwound_value(v),
{
}

/// Quadrant shifting lands in `[-180, 180]` degrees, keeps values that
/// are already there, and so is idempotent on its own output.
pub proof fn lemma_quadrant_shifted_idempotent(v: int)
    ensures
        -(HALF_TURN as int) <= quadrant_shifted_value(v) <= HALF_TURN as int,
        quadrant_shifted_value(quadrant_shifted_value(v)) == quadrant_shifted_value(v),
{
}

/// Both normalizations preserve the angle modulo a full turn.
pub proof fn lemma_normalization_congruent(v: int)
    ensures
        unwound_value(v) % (FULL_TURN as int) == v % (FULL_TURN as int),
        quadrant_shifted_value(v) % (FULL_TURN as int) == v % (FULL_TURN as int),
{
    vstd::arithmetic::div_mod::lemma_mod_twice(v, FULL_TURN as int);
    if !(-(HALF_TURN as int) <= v <= HALF_TURN as int) {
        let u = unwound_value(v);
        if u > HALF_TURN as int {
            vstd::arithmetic::div_mod::lemma_mod_sub_multiples_vanish(u, FULL_TURN as int);
        }
    } else {
        if v < 0 {
            vstd::arithmetic::div_mod::lemma_mod_add_multiples_vanish(v, FULL_TURN as int);
        }
    }
}

/// A latitude and longitude in integer microdegrees.
#[derive(Clone, Copy, Debug, PartialEq, Eq, Structural)]
pub struct Coordinates {
    pub latitude: i64,
    pub longitude: i64,
}

impl Coordinates {
    pub fn new(latitude: i64, longitude: i64) -> (r: Self)
        ensures
            r.latitude == latitude,
            r.longitude == longitude,
    {
        Self { latitude, longitude }
    }

    /// A position on the globe: latitude within a quarter turn of the
    /// equator, longitude within a half turn of the prime meridian.
    pub open spec fn wf(self) -> bool {
        &&& -90_000_000 <= self.latitude <= 90_000_000
        &&& -(HALF_TURN as int) <= self.longitude <= HALF_TURN as int
    }

    pub fn latitude_angle(&self) -> (r: Angle)
        ensures
            r.microdegrees == self.latitude,
    {
        Angle { microdegrees: self.latitude }
    }

    pub fn longitude_angle(&self) -> (r: Angle)
        ensures
            r.microdegrees == self.longitude,
    {
        Angle { microdegrees: self.longitude }
    }
}

} // verus!
