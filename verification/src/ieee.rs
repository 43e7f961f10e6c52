//! The rounding operations of IEEE 754 binary64, on bit patterns.
//!
//! The four functions here are the only code of this crate that is not
//! verified. Each calls the `softfloat` crate and is believed to return the
//! same bits for the same arguments; the results themselves are named, not
//! described.

use vstd::prelude::*;

verus! {

/// The bit that holds the sign of a binary64 value.
pub const SIGN_BIT: u64 = 0x8000_0000_0000_0000;

/// The bits of positive infinity; every larger magnitude is a NaN.
pub const INFINITY_BITS: u64 = 0x7ff0_0000_0000_0000;

/// What is left of a bit pattern once the sign is cleared.
pub open spec fn magnitude(bits: u64) -> u64 {
    if bits >= SIGN_BIT {
        (bits - SIGN_BIT) as u64
    } else {
        bits
    }
}

/// A positive or negative zero.
pub open spec fn zero_bits(bits: u64) -> bool {
    magnitude(bits) == 0
}

/// The rounded sum of two binary64 values.
pub uninterp spec fn ieee_add(a: u64, b: u64) -> u64;

/// The rounded product of two binary64 values.
pub uninterp spec fn ieee_mul(a: u64, b: u64) -> u64;

/// The rounded quotient of two binary64 values.
pub uninterp spec fn ieee_div(a: u64, b: u64) -> u64;

/// The rounded square root of a binary64 value.
pub uninterp spec fn ieee_sqrt(a: u64) -> u64;

/// Calls `softfloat::F64::add`. Trusted: the result is a function of the two
/// bit patterns, and the sum of two zeros is a zero (the crate returns the
/// bitwise and of the two patterns in that case).
#[verifier::external_body]
pub(crate) fn add_bits(a: u64, b: u64) -> (r: u64)
    ensures
        r == ieee_add(a, b),
        zero_bits(a) && zero_bits(b) ==> zero_bits(r),
{
    softfloat::F64::from_bits(a).add(softfloat::F64::from_bits(b)).to_bits()
}

/// Calls `softfloat::F64::mul`. Trusted: the result is a function of the two
/// bit patterns, and the product of two zeros is a zero (the crate returns
/// the bare sign of the product in that case).
#[verifier::external_body]
pub(crate) fn mul_bits(a: u64, b: u64) -> (r: u64)
    ensures
        r == ieee_mul(a, b),
        zero_bits(a) && zero_bits(b) ==> zero_bits(r),
{
    softfloat::F64::from_bits(a).mul(softfloat::F64::from_bits(b)).to_bits()
}

/// Calls `softfloat::F64::div`. Trusted: the result is a function of the two
/// bit patterns. Division by zero returns an infinity or a NaN; it does not
/// fail.
#[verifier::external_body]
pub(crate) fn div_bits(a: u64, b: u64) -> (r: u64)
    ensures
        r == ieee_div(a, b),
{
    softfloat::F64::from_bits(a).div(softfloat::F64::from_bits(b)).to_bits()
}

/// Calls `softfloat::F64::sqrt`. Trusted: the result is a function of the bit
/// pattern. The root of a negative value is a NaN; it does not fail.
#[verifier::external_body]
pub(crate) fn sqrt_bits(a: u64) -> (r: u64)
    ensures
        r == ieee_sqrt(a),
{
    softfloat::F64::from_bits(a).sqrt().to_bits()
}

} // verus!
