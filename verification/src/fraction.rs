//! A non-negative fraction of two integers.

use vstd::prelude::*;

verus! {

/// A non-negative fraction: a numerator over a denominator that is not zero.
#[derive(Debug, Clone, Copy, PartialEq, Eq, Structural)]
pub struct Fraction {
    numerator: u64,
    denominator: u64,
}

impl Fraction {
    #[verifier::type_invariant]
    spec fn well_formed(self) -> bool {
        self.denominator > 0
    }

    /// The numerator.
    pub closed spec fn spec_numerator(self) -> nat {
        self.numerator as nat
    }

    /// The denominator.
    pub closed spec fn spec_denominator(self) -> nat {
        self.denominator as nat
    }

    /// The fraction of `n`, rounded down to a whole number.
    pub open spec fn floor_of(self, n: nat) -> nat {
        (self.spec_numerator() * n) / self.spec_denominator()
    }

    /// The fraction `numerator / denominator`, or `None` for a denominator of
    /// zero.
    pub fn new(numerator: u64, denominator: u64) -> (result: Option<Fraction>)
        ensures
            result is Some <==> denominator != 0,
            result matches Some(f) ==> f.spec_numerator() == numerator && f.spec_denominator()
                == denominator,
    {
        if denominator == 0 {
            None
        } else {
            Some(Fraction { numerator, denominator })
        }
    }

    /// The numerator.
    pub fn numerator(&self) -> (n: u64)
        ensures
            n == self.spec_numerator(),
    {
        self.numerator
    }

    /// The denominator, which is not zero.
    pub fn denominator(&self) -> (d: u64)
        ensures
            d == self.spec_denominator(),
            d > 0,
    {
        proof {
            use_type_invariant(self);
        }
        self.denominator
    }

    /// The fraction of `n`, rounded down to a whole number.
    pub fn apply(&self, n: u64) -> (part: u128)
        ensures
            part == self.floor_of(n as nat),
    {
        proof {
            use_type_invariant(self);
            assert(self.numerator * n <= u64::MAX * u64::MAX) by (nonlinear_arith)
                requires
                    self.numerator <= u64::MAX,
                    n <= u64::MAX,
            ;
        }
        let product: u128 = (self.numerator as u128) * (n as u128);
        product / (self.denominator as u128)
    }
}

} // verus!
