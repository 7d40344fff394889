//! Exact stand-ins for the fractional quantities of the clipmap.

use vstd::prelude::*;

verus! {

/// A position or offset on the grid, counted in half grid units: the grid
/// point `(1.5, -2)` is `Point { x: 3, y: -4 }`.
#[derive(Clone, Copy, Debug, PartialEq, Eq, Structural)]
pub struct Point {
    pub x: i64,
    pub y: i64,
}

/// The exact quotient `num / den`. A zero denominator stands for a value that
/// is not finite.
#[derive(Clone, Copy, Debug, PartialEq, Eq, Structural)]
pub struct Ratio {
    pub num: i64,
    pub den: i64,
}

/// One ratio per axis.
#[derive(Clone, Copy, Debug, PartialEq, Eq, Structural)]
pub struct RatioPair {
    pub x: Ratio,
    pub y: Ratio,
}

impl Ratio {
    /// The quotient is an ordinary number.
    pub open spec fn is_finite(self) -> bool {
        self.den != 0
    }

    /// The quotient is an ordinary number greater than zero.
    pub open spec fn is_positive(self) -> bool {
        (self.num > 0 && self.den > 0) || (self.num < 0 && self.den < 0)
    }
}

} // verus!
