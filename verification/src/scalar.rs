//! Real numbers as binary64 bit patterns.

use vstd::prelude::*;
use crate::ieee::{
    add_bits, div_bits, ieee_add, ieee_div, ieee_mul, ieee_sqrt, magnitude, mul_bits, sqrt_bits,
    zero_bits, INFINITY_BITS, SIGN_BIT,
};

verus! {

/// A binary64 value, held by its bits. Two scalars are the same value in a
/// contract when their bits are the same.
#[derive(Clone, Copy, Debug)]
pub struct Scalar {
    pub bits: u64,
}

/// The bits of `0.0`.
pub const ZERO_BITS: u64 = 0;

/// The bits of `1.0`.
pub const ONE_BITS: u64 = 0x3ff0_0000_0000_0000;

/// The bits of `2.0`.
pub const TWO_BITS: u64 = 0x4000_0000_0000_0000;

impl Scalar {
    /// Not a number: the magnitude lies beyond infinity.
    pub open spec fn spec_is_nan(self) -> bool {
        magnitude(self.bits) > INFINITY_BITS
    }

    /// Positive or negative zero.
    pub open spec fn spec_is_zero(self) -> bool {
        zero_bits(self.bits)
    }

    /// The sign bit is set.
    pub open spec fn spec_is_negative(self) -> bool {
        self.bits >= SIGN_BIT
    }

    /// Where the value stands among all values that are numbers: the
    /// magnitude, counted downwards for negative values. The two zeros share
    /// one place.
    pub open spec fn rank(self) -> int {
        if self.spec_is_negative() {
            -(magnitude(self.bits) as int)
        } else {
            magnitude(self.bits) as int
        }
    }

    /// `self < other`: both are numbers and `self` ranks lower.
    pub open spec fn spec_lt(self, other: Scalar) -> bool {
        !self.spec_is_nan() && !other.spec_is_nan() && self.rank() < other.rank()
    }

    /// `self > other`.
    pub open spec fn spec_gt(self, other: Scalar) -> bool {
        other.spec_lt(self)
    }

    /// The value with its sign flipped.
    pub open spec fn spec_neg(self) -> Scalar {
        Scalar {
            bits: if self.bits >= SIGN_BIT {
                (self.bits - SIGN_BIT) as u64
            } else {
                (self.bits + SIGN_BIT) as u64
            },
        }
    }

    /// The rounded sum.
    pub open spec fn spec_add(self, other: Scalar) -> Scalar {
        Scalar { bits: ieee_add(self.bits, other.bits) }
    }

    /// The rounded difference: the sum with the negated subtrahend.
    pub open spec fn spec_sub(self, other: Scalar) -> Scalar {
        self.spec_add(other.spec_neg())
    }

    /// The rounded product.
    pub open spec fn spec_mul(self, other: Scalar) -> Scalar {
        Scalar { bits: ieee_mul(self.bits, other.bits) }
    }

    /// The rounded quotient.
    pub open spec fn spec_div(self, other: Scalar) -> Scalar {
        Scalar { bits: ieee_div(self.bits, other.bits) }
    }

    /// The rounded square root.
    pub open spec fn spec_sqrt(self) -> Scalar {
        Scalar { bits: ieee_sqrt(self.bits) }
    }

    /// The larger of zero and `self`; zero where `self` is not a number.
    pub open spec fn spec_max_zero(self) -> Scalar {
        if Scalar::spec_zero().spec_lt(self) {
            self
        } else {
            Scalar::spec_zero()
        }
    }

    /// The smaller of one and `self`; one where `self` is not a number.
    pub open spec fn spec_min_one(self) -> Scalar {
        if self.spec_lt(Scalar::spec_one()) {
            self
        } else {
            Scalar::spec_one()
        }
    }

    /// Positive zero.
    pub open spec fn spec_zero() -> Scalar {
        Scalar { bits: ZERO_BITS }
    }

    /// One.
    pub open spec fn spec_one() -> Scalar {
        Scalar { bits: ONE_BITS }
    }

    /// Two.
    pub open spec fn spec_two() -> Scalar {
        Scalar { bits: TWO_BITS }
    }

    /// Positive infinity.
    pub open spec fn spec_infinity() -> Scalar {
        Scalar { bits: INFINITY_BITS }
    }

    /// `self * self * self`, multiplied from the left.
    pub open spec fn spec_cube(self) -> Scalar {
        self.spec_mul(self).spec_mul(self)
    }

    /// The value with the given bit pattern.
    pub fn from_bits(bits: u64) -> (r: Scalar)
        ensures
            r.bits == bits,
    {
        Scalar { bits }
    }

    /// The bit pattern of the value.
    pub fn to_bits(self) -> (r: u64)
        ensures
            r == self.bits,
    {
        self.bits
    }

    /// Positive zero.
    #[verifier::when_used_as_spec(spec_zero)]
    pub fn zero() -> (r: Scalar)
        ensures
            r == Scalar::spec_zero(),
    {
        Scalar { bits: ZERO_BITS }
    }

    /// One.
    #[verifier::when_used_as_spec(spec_one)]
    pub fn one() -> (r: Scalar)
        ensures
            r == Scalar::spec_one(),
    {
        Scalar { bits: ONE_BITS }
    }

    /// Two.
    #[verifier::when_used_as_spec(spec_two)]
    pub fn two() -> (r: Scalar)
        ensures
            r == Scalar::spec_two(),
    {
        Scalar { bits: TWO_BITS }
    }

    /// Positive infinity.
    #[verifier::when_used_as_spec(spec_infinity)]
    pub fn infinity() -> (r: Scalar)
        ensures
            r == Scalar::spec_infinity(),
    {
        Scalar { bits: INFINITY_BITS }
    }

    /// The third power.
    #[verifier::when_used_as_spec(spec_cube)]
    pub fn cube(self) -> (r: Scalar)
        ensures
            r == self.spec_cube(),
    {
        self.mul(self).mul(self)
    }

    fn magnitude_bits(self) -> (r: u64)
        ensures
            r == magnitude(self.bits),
    {
        if self.bits >= SIGN_BIT {
            self.bits - SIGN_BIT
        } else {
            self.bits
        }
    }

    /// Tests whether the value is not a number.
    #[verifier::when_used_as_spec(spec_is_nan)]
    pub fn is_nan(self) -> (r: bool)
        ensures
            r == self.spec_is_nan(),
    {
        self.magnitude_bits() > INFINITY_BITS
    }

    /// Tests whether the value is a zero of either sign.
    #[verifier::when_used_as_spec(spec_is_zero)]
    pub fn is_zero(self) -> (r: bool)
        ensures
            r == self.spec_is_zero(),
    {
        self.magnitude_bits() == 0
    }

    /// Tests whether the sign bit is set.
    #[verifier::when_used_as_spec(spec_is_negative)]
    pub fn is_negative(self) -> (r: bool)
        ensures
            r == self.spec_is_negative(),
    {
        self.bits >= SIGN_BIT
    }

    /// `self < other`. False where either is not a number; the two zeros are
    /// equal.
    #[verifier::when_used_as_spec(spec_lt)]
    pub fn lt(self, other: Scalar) -> (r: bool)
        ensures
            r == self.spec_lt(other),
    {
        if self.is_nan() || other.is_nan() {
            return false;
        }
        let a: u64 = self.magnitude_bits();
        let b: u64 = other.magnitude_bits();
        if self.is_negative() {
            if other.is_negative() {
                a > b
            } else {
                a > 0 || b > 0
            }
        } else {
            !other.is_negative() && a < b
        }
    }

    /// `self > other`. False where either is not a number.
    #[verifier::when_used_as_spec(spec_gt)]
    pub fn gt(self, other: Scalar) -> (r: bool)
        ensures
            r == self.spec_gt(other),
    {
        other.lt(self)
    }

    /// Flips the sign.
    #[verifier::when_used_as_spec(spec_neg)]
    pub fn neg(self) -> (r: Scalar)
        ensures
            r == self.spec_neg(),
    {
        if self.bits >= SIGN_BIT {
            Scalar { bits: self.bits - SIGN_BIT }
        } else {
            Scalar { bits: self.bits + SIGN_BIT }
        }
    }

    /// `self + other`, rounded to the nearest value.
    #[verifier::when_used_as_spec(spec_add)]
    pub fn add(self, other: Scalar) -> (r: Scalar)
        ensures
            r == self.spec_add(other),
            self.spec_is_zero() && other.spec_is_zero() ==> r.spec_is_zero(),
    {
        Scalar { bits: add_bits(self.bits, other.bits) }
    }

    /// `self - other`, rounded to the nearest value.
    #[verifier::when_used_as_spec(spec_sub)]
    pub fn sub(self, other: Scalar) -> (r: Scalar)
        ensures
            r == self.spec_sub(other),
    {
        self.add(other.neg())
    }

    /// `self * other`, rounded to the nearest value.
    #[verifier::when_used_as_spec(spec_mul)]
    pub fn mul(self, other: Scalar) -> (r: Scalar)
        ensures
            r == self.spec_mul(other),
            self.spec_is_zero() && other.spec_is_zero() ==> r.spec_is_zero(),
    {
        Scalar { bits: mul_bits(self.bits, other.bits) }
    }

    /// `self / other`, rounded to the nearest value. Dividing by zero gives
    /// an infinity or no number.
    #[verifier::when_used_as_spec(spec_div)]
    pub fn div(self, other: Scalar) -> (r: Scalar)
        ensures
            r == self.spec_div(other),
    {
        Scalar { bits: div_bits(self.bits, other.bits) }
    }

    /// The square root, rounded to the nearest value; no number for a
    /// negative value.
    #[verifier::when_used_as_spec(spec_sqrt)]
    pub fn sqrt(self) -> (r: Scalar)
        ensures
            r == self.spec_sqrt(),
    {
        Scalar { bits: sqrt_bits(self.bits) }
    }

    /// Clamps the value from below at zero.
    #[verifier::when_used_as_spec(spec_max_zero)]
    pub fn max_zero(self) -> (r: Scalar)
        ensures
            r == self.spec_max_zero(),
    {
        if Scalar::zero().lt(self) {
            self
        } else {
            Scalar::zero()
        }
    }

    /// Clamps the value from above at one.
    #[verifier::when_used_as_spec(spec_min_one)]
    pub fn min_one(self) -> (r: Scalar)
        ensures
            r == self.spec_min_one(),
    {
        if self.lt(Scalar::one()) {
            self
        } else {
            Scalar::one()
        }
    }
}

} // verus!
