use vstd::prelude::*;

verus! {

/// A ratio of two machine integers, standing in for a download fraction.
/// A value of `num / den` models the share of the download that is done;
/// it is kept as a pair so that the library never touches floating point.
#[derive(Clone, Copy, Debug, PartialEq, Eq, Structural)]
pub struct Fraction {
    pub num: u64,
    pub den: u64,
}

impl Fraction {
    /// A fraction is meaningful only with a positive denominator.
    pub open spec fn wf(self) -> bool {
        self.den > 0
    }

    /// The fraction standing for zero.
    pub fn zero() -> (r: Fraction)
        ensures
            r == (Fraction { num: 0u64, den: 1u64 }),
    {
        Fraction { num: 0, den: 1 }
    }
}

} // verus!
