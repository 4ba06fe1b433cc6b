//! Exact rational numbers, the carrier of every derived quantity.

use vstd::prelude::*;

verus! {

/// An exact rational number `num / den`. Well-formed values keep `den > 0`,
/// so the sign of the value is the sign of `num`.
#[derive(Clone, Copy, Debug, PartialEq, Eq, Structural)]
pub struct Rat {
    pub num: i128,
    pub den: i128,
}

impl Rat {
    /// The denominator is positive.
    pub open spec fn wf(self) -> bool {
        self.den > 0
    }
}

} // verus!
