//! Fractions of counts.

use vstd::prelude::*;

verus! {

/// The fraction `numer / denom` of two counts.
#[derive(Clone, Copy, Debug, PartialEq, Eq, Structural)]
pub struct Ratio {
    /// The count above the bar.
    pub numer: usize,
    /// The count below the bar.
    pub denom: usize,
}

impl Ratio {
    /// A fraction between zero and one: the bar stands over a positive count
    /// that the numerator does not exceed.
    pub open spec fn is_share(self) -> bool {
        0 < self.denom && self.numer <= self.denom
    }

    /// Whether the fraction is one.
    pub open spec fn is_whole(self) -> bool {
        0 < self.denom && self.numer == self.denom
    }

    /// The fraction one.
    pub fn whole() -> (r: Ratio)
        ensures
            r == (Ratio { numer: 1, denom: 1 }),
    {
        Ratio { numer: 1, denom: 1 }
    }
}

} // verus!
