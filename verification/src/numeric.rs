//! Exact rational results.
//!
//! The statistics functions divide integer sums by integer counts or weight
//! totals. Rather than round, they return the two sides of that division
//! unreduced, so every contract can pin the result exactly; a caller that
//! wants a floating-point reading divides outside the library.

use vstd::prelude::*;

verus! {

/// The quotient `num / den`, kept unevaluated. Every value the library
/// returns satisfies [`Ratio::well_formed`], so the division it denotes is
/// defined.
#[derive(Clone, Copy, Debug, PartialEq, Eq, Structural)]
pub struct Ratio {
    pub num: i128,
    pub den: i128,
}

impl Ratio {
    /// A ratio denotes a number only when its denominator is not zero.
    pub open spec fn well_formed(self) -> bool {
        self.den != 0
    }
}

} // verus!
