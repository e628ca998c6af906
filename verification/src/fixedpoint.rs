//! Fixed-point arithmetic for the cycle-to-nanosecond conversion factor.
//!
//! The factor is a `u64` holding nanoseconds-per-count scaled by `2^32`,
//! so `FACTOR_ONE` stands for a factor of exactly one nanosecond per count
//! (the fallback-timer mode, where counts already are nanoseconds).

use vstd::prelude::*;

verus! {

/// The fixed-point scale: `2^32`. A stored factor `f` stands for the
/// rational `f / FACTOR_ONE` nanoseconds per count.
pub const FACTOR_ONE: u64 = 0x1_0000_0000;

/// Division rounding toward zero, the rounding that machine division of
/// signed integers performs (spec-level `/` on `int` rounds toward
/// negative infinity instead).
pub open spec fn div_trunc(num: int, den: int) -> int
    recommends
        den > 0,
{
    if num >= 0 {
        num / den
    } else {
        -((-num) / den)
    }
}

/// Machine division of `i128` values, shown to round toward zero.
pub fn i128_div_trunc(num: i128, den: i128) -> (r: i128)
    requires
        den > 0,
        num > i128::MIN,
    ensures
        r == div_trunc(num as int, den as int),
{
    if num >= 0 {
        let q: u128 = (num as u128) / (den as u128);
        proof {
            vstd::arithmetic::div_mod::lemma_div_is_ordered_by_denominator(num as int, 1, den as int);
            vstd::arithmetic::div_mod::lemma_div_basics(num as int);
        }
        q as i128
    } else {
        let m: u128 = (-num) as u128;
        let q: u128 = m / (den as u128);
        proof {
            vstd::arithmetic::div_mod::lemma_div_is_ordered_by_denominator(m as int, 1, den as int);
            vstd::arithmetic::div_mod::lemma_div_basics(m as int);
        }
        -(q as i128)
    }
}

/// Truncating division never grows a value's magnitude and keeps its sign.
pub proof fn lemma_div_trunc_bounds(num: int, den: int)
    requires
        den >= 1,
    ensures
        num >= 0 ==> 0 <= div_trunc(num, den) <= num,
        num < 0 ==> num <= div_trunc(num, den) <= 0,
{
    if num >= 0 {
        vstd::arithmetic::div_mod::lemma_div_is_ordered_by_denominator(num, 1, den);
        vstd::arithmetic::div_mod::lemma_div_basics(num);
        vstd::arithmetic::div_mod::lemma_div_pos_is_pos(num, den);
    } else {
        vstd::arithmetic::div_mod::lemma_div_is_ordered_by_denominator(-num, 1, den);
        vstd::arithmetic::div_mod::lemma_div_basics(-num);
        vstd::arithmetic::div_mod::lemma_div_pos_is_pos(-num, den);
    }
}

/// A value squeezed into the `i64` range.
pub open spec fn clamp_to_i64(v: int) -> int {
    if v > i64::MAX {
        i64::MAX as int
    } else if v < i64::MIN {
        i64::MIN as int
    } else {
        v
    }
}

/// Clamps an `i128` into the `i64` range.
pub fn i128_clamp_i64(v: i128) -> (r: i64)
    ensures
        r == clamp_to_i64(v as int),
{
    if v > i64::MAX as i128 {
        i64::MAX
    } else if v < i64::MIN as i128 {
        i64::MIN
    } else {
        v as i64
    }
}

/// A value squeezed into the range of valid conversion factors,
/// `1 ..= u64::MAX`: a factor must stay strictly positive.
pub open spec fn clamp_to_factor(v: int) -> int {
    if v < 1 {
        1
    } else if v > u64::MAX {
        u64::MAX as int
    } else {
        v
    }
}

/// Clamps an `i128` into the valid factor range.
pub fn i128_clamp_factor(v: i128) -> (r: u64)
    ensures
        r == clamp_to_factor(v as int),
        r >= 1,
{
    if v < 1 {
        1
    } else if v > u64::MAX as i128 {
        u64::MAX
    } else {
        v as u64
    }
}

/// A value saturated at `u64::MAX`.
pub open spec fn saturate_u64(v: int) -> int
    recommends
        v >= 0,
{
    if v > u64::MAX {
        u64::MAX as int
    } else {
        v
    }
}

/// Saturates a `u128` at `u64::MAX`.
pub fn u128_saturate_u64(v: u128) -> (r: u64)
    ensures
        r == saturate_u64(v as int),
{
    if v > u64::MAX as u128 {
        u64::MAX
    } else {
        v as u64
    }
}

/// Nanoseconds that `delta` counts stand for under factor `factor`:
/// the product scaled back down by the fixed-point unit, rounded down.
pub open spec fn scaled(delta: int, factor: int) -> int {
    (delta * factor) / (FACTOR_ONE as int)
}

/// Multiplies a counter delta by a fixed-point factor and scales the
/// product back down. The product of two `u64` values always fits `u128`.
pub fn mul_scale_down(delta: u64, factor: u64) -> (r: u128)
    ensures
        r == scaled(delta as int, factor as int),
        r <= delta as int * factor as int,
{
    proof {
        vstd::arithmetic::mul::lemma_mul_upper_bound(
            delta as int,
            u64::MAX as int,
            factor as int,
            u64::MAX as int,
        );
        vstd::arithmetic::mul::lemma_mul_nonnegative(delta as int, factor as int);
        vstd::arithmetic::div_mod::lemma_div_is_ordered_by_denominator(
            delta as int * factor as int,
            1,
            FACTOR_ONE as int,
        );
        vstd::arithmetic::div_mod::lemma_div_basics(delta as int * factor as int);
    }
    (delta as u128 * factor as u128) / (FACTOR_ONE as u128)
}

} // verus!
