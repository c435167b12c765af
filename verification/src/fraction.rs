//! Exact duty-cycle ratios, kept as integer numerator/denominator pairs so
//! that rendering stays free of rounding concerns.

use vstd::prelude::*;

verus! {

/// A ratio of two 16-bit integers, used for PWM duty cycles in `[0, 1]`.
#[derive(Clone, Copy, PartialEq, Eq, Structural, Debug)]
pub struct U16Fraction {
    pub numerator: u16,
    pub denominator: u16,
}

impl U16Fraction {
    /// Build the ratio `numerator / denominator`.
    pub fn new(numerator: u16, denominator: u16) -> (r: Self)
        ensures
            r.numerator == numerator,
            r.denominator == denominator,
    {
        U16Fraction {
            numerator,
            denominator,
        }
    }

    /// Multiply two ratios exactly: numerators and denominators multiply
    /// component-wise, with no rounding.
    pub fn mul(self, other: U16Fraction) -> (r: Self)
        requires
            self.numerator * other.numerator <= u16::MAX,
            self.denominator * other.denominator <= u16::MAX,
        ensures
            r.numerator == self.numerator * other.numerator,
            r.denominator == self.denominator * other.denominator,
    {
        U16Fraction {
            numerator: self.numerator * other.numerator,
            denominator: self.denominator * other.denominator,
        }
    }

    /// A ratio denotes zero duty exactly when its numerator is zero.
    pub open spec fn is_zero(self) -> bool {
        self.numerator == 0
    }
}

} // verus!
