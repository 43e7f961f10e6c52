//! Exact conversions between small integers and binary64 bit patterns.

use vstd::prelude::*;
use vstd::arithmetic::div_mod::{lemma_div_by_multiple, lemma_fundamental_div_mod_converse};
use vstd::arithmetic::power2::{
    lemma2_to64, lemma2_to64_rest, lemma_pow2_pos, lemma_pow2_strictly_increases,
    lemma_pow2_unfold, pow2,
};
use crate::ieee::magnitude;
use crate::scalar::Scalar;

verus! {

/// The weight of the exponent field: two to the power 52.
pub const FRACTION_UNIT: u64 = 0x10_0000_0000_0000;

/// The exponent field of a value whose last fraction bit counts for one.
pub const UNIT_EXPONENT: u64 = 1075;

/// The exponent field of the values from one up to two.
pub const ONE_EXPONENT: u64 = 1023;

/// The eleven bits that hold the exponent.
pub open spec fn exponent_field(bits: u64) -> int {
    magnitude(bits) as int / FRACTION_UNIT as int
}

/// The 52 bits that hold the fraction.
pub open spec fn fraction_field(bits: u64) -> int {
    magnitude(bits) as int % FRACTION_UNIT as int
}

/// The bits of the positive value `m * 2^(e - 1075)`, for a significand `m`
/// that is brought up to 53 bits by doubling while `e` is lowered.
pub open spec fn spec_scaled_up(m: nat, e: nat) -> u64
    decreases e,
{
    if m >= FRACTION_UNIT || e == 0 {
        (e * FRACTION_UNIT + (m - FRACTION_UNIT)) as u64
    } else {
        spec_scaled_up(2 * m, (e - 1) as nat)
    }
}

impl Scalar {
    /// The value is the natural number `n`, held exactly: positive zero for
    /// zero, else a positive normal number whose significand
    /// `2^52 + fraction`, weighed by its exponent, is `n`.
    pub open spec fn spec_holds(self, n: nat) -> bool {
        if n == 0 {
            self.bits == 0
        } else {
            &&& !self.is_negative()
            &&& ONE_EXPONENT <= exponent_field(self.bits) <= UNIT_EXPONENT
            &&& FRACTION_UNIT + fraction_field(self.bits) == n * pow2(
                (UNIT_EXPONENT - exponent_field(self.bits)) as nat,
            )
        }
    }

    /// The binary64 value of an unsigned integer.
    pub open spec fn spec_from_u32(n: u32) -> Scalar {
        if n == 0 {
            Scalar::zero()
        } else {
            Scalar { bits: spec_scaled_up(n as nat, UNIT_EXPONENT as nat) }
        }
    }

    /// The integer part of the value as a byte: zero for a value that is
    /// negative or not a number, 255 for a value of 256 or more.
    pub open spec fn spec_to_u8(self) -> u8 {
        let e = exponent_field(self.bits);
        if self.is_nan() || self.is_negative() || e < ONE_EXPONENT {
            0
        } else if e >= ONE_EXPONENT + 8 {
            255
        } else {
            ((FRACTION_UNIT + fraction_field(self.bits)) / pow2(
                (UNIT_EXPONENT - e) as nat,
            ) as int) as u8
        }
    }

    /// Converts an unsigned integer; every `u32` has an exact binary64 value.
    #[verifier::when_used_as_spec(spec_from_u32)]
    pub fn from_u32(n: u32) -> (r: Scalar)
        ensures
            r == Scalar::spec_from_u32(n),
            r.spec_holds(n as nat),
    {
        if n == 0 {
            return Scalar::zero();
        }
        let mut m: u64 = n as u64;
        let mut e: u64 = UNIT_EXPONENT;
        proof {
            lemma2_to64();
            assert(n * pow2(0) == n) by (nonlinear_arith)
                requires
                    pow2(0) == 1,
            ;
        }
        while m < FRACTION_UNIT
            invariant
                1 <= m < 2 * FRACTION_UNIT,
                ONE_EXPONENT <= e <= UNIT_EXPONENT,
                m == n * pow2((UNIT_EXPONENT - e) as nat),
                m < FRACTION_UNIT ==> e > ONE_EXPONENT,
                spec_scaled_up(m as nat, e as nat) == spec_scaled_up(
                    n as nat,
                    UNIT_EXPONENT as nat,
                ),
            decreases e,
        {
            proof {
                let k = (UNIT_EXPONENT - e) as nat;
                lemma_pow2_unfold(k + 1);
                assert(2 * (n * pow2(k)) == n * (2 * pow2(k))) by (nonlinear_arith);
                lemma_grows(n as nat, k + 1);
                lemma2_to64_rest();
            }
            m = 2 * m;
            e = e - 1;
        }
        proof {
            lemma_from_u32_exact(n);
        }
        Scalar { bits: e * FRACTION_UNIT + (m - FRACTION_UNIT) }
    }

    /// Truncates the value to a byte, as a saturating cast does.
    #[verifier::when_used_as_spec(spec_to_u8)]
    pub fn to_u8(self) -> (r: u8)
        ensures
            r == self.spec_to_u8(),
    {
        if self.is_nan() || self.is_negative() {
            return 0;
        }
        let e: u64 = self.bits / FRACTION_UNIT;
        let f: u64 = self.bits % FRACTION_UNIT;
        if e < ONE_EXPONENT {
            return 0;
        }
        if e >= ONE_EXPONENT + 8 {
            return 255;
        }
        let mut k: u64 = UNIT_EXPONENT - 7 - ONE_EXPONENT;
        let mut d: u64 = 0x2000_0000_0000;
        proof {
            lemma2_to64_rest();
        }
        while k < UNIT_EXPONENT - e
            invariant
                45 <= k <= UNIT_EXPONENT - e <= 52,
                d == pow2(k as nat),
                0x2000_0000_0000 <= d <= FRACTION_UNIT,
            decreases UNIT_EXPONENT - e - k,
        {
            proof {
                lemma_pow2_unfold((k + 1) as nat);
                lemma2_to64_rest();
                if k + 1 < 52 {
                    lemma_pow2_strictly_increases((k + 1) as nat, 52);
                }
            }
            d = 2 * d;
            k = k + 1;
        }
        let q: u64 = (FRACTION_UNIT + f) / d;
        assert(q < 256) by (nonlinear_arith)
            requires
                q == (FRACTION_UNIT + f) / (d as int),
                f < FRACTION_UNIT,
                d >= 0x2000_0000_0000,
                FRACTION_UNIT == 0x10_0000_0000_0000,
        ;
        q as u8
    }
}

/// With `n >= 1`, `n * 2^k` is at least `2^k`, so a product below `2^52`
/// has `k < 52`.
proof fn lemma_grows(n: nat, k: nat)
    requires
        n >= 1,
    ensures
        n * pow2(k) >= pow2(k),
        n * pow2(k) < FRACTION_UNIT ==> k < 52,
{
    assert(n * pow2(k) >= pow2(k)) by (nonlinear_arith)
        requires
            n >= 1,
    ;
    lemma2_to64_rest();
    if k > 52 {
        lemma_pow2_strictly_increases(52, k);
    }
}

/// The fields of `e * 2^52 + f` are `e` and `f`.
proof fn lemma_fields(e: int, f: int)
    requires
        0 <= e < 2048,
        0 <= f < FRACTION_UNIT,
    ensures
        (e * FRACTION_UNIT + f) / (FRACTION_UNIT as int) == e,
        (e * FRACTION_UNIT + f) % (FRACTION_UNIT as int) == f,
        magnitude((e * FRACTION_UNIT + f) as u64) == e * FRACTION_UNIT + f,
{
    lemma_fundamental_div_mod_converse(
        e * FRACTION_UNIT + f,
        FRACTION_UNIT as int,
        e,
        f,
    );
    assert(e * FRACTION_UNIT + f < 0x8000_0000_0000_0000) by (nonlinear_arith)
        requires
            0 <= e < 2048,
            0 <= f < FRACTION_UNIT,
            FRACTION_UNIT == 0x10_0000_0000_0000,
    ;
}

/// Doubling the significand while lowering the exponent keeps the value:
/// where `m` is `n * 2^(1075 - e)`, the bits made of `m` and `e` hold `n`.
proof fn lemma_scaled_up_holds(n: nat, m: nat, e: nat)
    requires
        n >= 1,
        m == n * pow2((UNIT_EXPONENT - e) as nat),
        m < 2 * FRACTION_UNIT,
        ONE_EXPONENT <= e <= UNIT_EXPONENT,
        m < FRACTION_UNIT ==> e > ONE_EXPONENT,
    ensures
        (Scalar { bits: spec_scaled_up(m, e) }).spec_holds(n),
    decreases e,
{
    if m >= FRACTION_UNIT {
        lemma_fields(e as int, m - FRACTION_UNIT);
    } else {
        let k = (UNIT_EXPONENT - e) as nat;
        lemma_pow2_unfold(k + 1);
        assert(2 * (n * pow2(k)) == n * (2 * pow2(k))) by (nonlinear_arith);
        lemma_grows(n, k + 1);
        lemma_scaled_up_holds(n, 2 * m, (e - 1) as nat);
    }
}

/// Every `u32` is converted exactly: the bits that `from_u32` gives hold the
/// integer itself.
pub proof fn lemma_from_u32_exact(n: u32)
    ensures
        Scalar::spec_from_u32(n).spec_holds(n as nat),
{
    if n != 0 {
        lemma2_to64();
        assert(n * pow2(0) == n) by (nonlinear_arith)
            requires
                pow2(0) == 1,
        ;
        lemma_scaled_up_holds(n as nat, n as nat, UNIT_EXPONENT as nat);
    }
}

/// An integer that goes to binary64 and back to a byte comes back as
/// itself, or as 255 where it does not fit.
pub proof fn lemma_byte_round_trip(n: u32)
    ensures
        Scalar::spec_from_u32(n).spec_to_u8() == if n < 256 {
            n as u8
        } else {
            255u8
        },
{
    let s = Scalar::spec_from_u32(n);
    lemma_from_u32_exact(n);
    if n != 0 {
        let e = exponent_field(s.bits);
        let f = fraction_field(s.bits);
        let k = (UNIT_EXPONENT - e) as nat;
        let d = pow2(k);
        lemma2_to64_rest();
        lemma_pow2_pos(k);
        vstd::arithmetic::div_mod::lemma_fundamental_div_mod(s.bits as int, FRACTION_UNIT as int);
        assert(!s.is_nan());
        if e >= ONE_EXPONENT + 8 {
            if k < 44 {
                lemma_pow2_strictly_increases(k, 44);
            }
            assert(n >= 256) by (nonlinear_arith)
                requires
                    n * d >= 0x10_0000_0000_0000,
                    0 < d <= 0x1000_0000_0000,
            ;
        } else {
            if k > 45 {
                lemma_pow2_strictly_increases(45, k);
            }
            assert(n < 256) by (nonlinear_arith)
                requires
                    n * d < 0x20_0000_0000_0000,
                    d >= 0x2000_0000_0000,
            ;
            lemma_div_by_multiple(n as int, d as int);
        }
    }
}

} // verus!
