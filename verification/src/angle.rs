//! Angles held exactly as rational multiples of a full turn.

use vstd::prelude::*;

verus! {

/// An angle measured in turns (one turn is `2 * pi` radians), held exactly
/// as the rational number `num / den`.  Keeping the fraction instead of a
/// rounded scalar makes statements about spacing and equality of angles
/// exact.
#[derive(Clone, Copy, Debug, PartialEq, Eq, Structural)]
pub struct Turns {
    pub num: i128,
    pub den: i128,
}

impl Turns {
    /// A turn count is well formed when its denominator is positive.
    pub open spec fn wf(self) -> bool {
        self.den >= 1
    }

    /// The angle is an exact zero (as a rational).
    pub open spec fn is_zero(self) -> bool {
        self.num == 0
    }
}

/// Two turn counts name the same angle multiple exactly when they are equal
/// as rationals: `a.num / a.den == b.num / b.den`, cross-multiplied.
pub open spec fn turns_eq(a: Turns, b: Turns) -> bool {
    a.num * b.den == b.num * a.den
}

/// Numerator of the rational difference `a - b`; its denominator is
/// [`turns_diff_den`].
pub open spec fn turns_diff_num(a: Turns, b: Turns) -> int {
    a.num * b.den - b.num * a.den
}

/// Denominator of the rational difference `a - b`.
pub open spec fn turns_diff_den(a: Turns, b: Turns) -> int {
    a.den * b.den
}

} // verus!
