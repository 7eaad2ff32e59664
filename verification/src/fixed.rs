//! Saturating signed fixed-point scalars.
//!
//! A scalar is an `i64` counting `SCALE`-ths of a world unit. Multiplication
//! and division rescale by `SCALE` so that the product or quotient of two
//! scalars is again a scalar. Every operation saturates at `i64::MIN` /
//! `i64::MAX` instead of overflowing; magnitudes are divided before the sign
//! is put back, so rounding is always toward zero.

use vstd::prelude::*;
use vstd::arithmetic::div_mod::lemma_div_pos_is_pos;

verus! {

/// Number of fixed-point sub-units in one world unit.
pub const SCALE: i64 = 1_000_000_000;

/// Clamp an unbounded integer into the `i64` range.
pub open spec fn sat_to_i64(x: int) -> i64 {
    if x > i64::MAX {
        i64::MAX
    } else if x < i64::MIN {
        i64::MIN
    } else {
        x as i64
    }
}

/// Absolute value of an unbounded integer.
pub open spec fn iabs(x: int) -> int {
    if x < 0 {
        -x
    } else {
        x
    }
}

/// Saturating fixed-point product: `a * b / SCALE`, computed on magnitudes
/// with the sign put back, clamped into the `i64` range.
pub open spec fn fmul(a: int, b: int) -> i64 {
    if (a < 0) == (b < 0) {
        sat_to_i64((iabs(a) * iabs(b)) / (SCALE as int))
    } else {
        sat_to_i64(-((iabs(a) * iabs(b)) / (SCALE as int)))
    }
}

/// Saturating fixed-point quotient: `a * SCALE / b` for a positive divisor,
/// computed on the magnitude of `a` with the sign put back.
pub open spec fn fdiv(a: int, b: int) -> i64
    recommends
        b > 0,
{
    if a < 0 {
        sat_to_i64(-((iabs(a) * (SCALE as int)) / b))
    } else {
        sat_to_i64((iabs(a) * (SCALE as int)) / b)
    }
}

/// Magnitude of an `i64` as a `u64` (total, also at `i64::MIN`).
fn abs_mag(x: i64) -> (r: u64)
    ensures
        r as int == iabs(x as int),
{
    if x < 0 {
        (-(x as i128)) as u64
    } else {
        x as u64
    }
}

/// Saturating addition of two scalars.
pub fn sat_add(a: i64, b: i64) -> (r: i64)
    ensures
        r == sat_to_i64(a as int + b as int),
{
    let s: i128 = a as i128 + b as i128;
    if s > i64::MAX as i128 {
        i64::MAX
    } else if s < i64::MIN as i128 {
        i64::MIN
    } else {
        s as i64
    }
}

/// Saturating subtraction of two scalars.
pub fn sat_sub(a: i64, b: i64) -> (r: i64)
    ensures
        r == sat_to_i64(a as int - b as int),
{
    let s: i128 = a as i128 - b as i128;
    if s > i64::MAX as i128 {
        i64::MAX
    } else if s < i64::MIN as i128 {
        i64::MIN
    } else {
        s as i64
    }
}

/// Saturating fixed-point multiplication.
pub fn fp_mul(a: i64, b: i64) -> (r: i64)
    ensures
        r == fmul(a as int, b as int),
{
    let am: u128 = abs_mag(a) as u128;
    let bm: u128 = abs_mag(b) as u128;
    assert(am * bm <= 0x8000_0000_0000_0000u128 * 0x8000_0000_0000_0000u128)
        by (nonlinear_arith)
        requires
            am <= 0x8000_0000_0000_0000u128,
            bm <= 0x8000_0000_0000_0000u128,
    ;
    let m: u128 = (am * bm) / (SCALE as u128);
    let neg: bool = (a < 0) != (b < 0);
    if neg {
        if m >= 0x8000_0000_0000_0000u128 {
            i64::MIN
        } else {
            -(m as i64)
        }
    } else {
        if m > i64::MAX as u128 {
            i64::MAX
        } else {
            m as i64
        }
    }
}

/// Saturating fixed-point division by a positive scalar.
pub fn fp_div(a: i64, b: i64) -> (r: i64)
    requires
        b > 0,
    ensures
        r == fdiv(a as int, b as int),
{
    let am: u128 = abs_mag(a) as u128;
    assert(am * (SCALE as u128) <= 0x8000_0000_0000_0000u128 * 0x4000_0000u128)
        by (nonlinear_arith)
        requires
            am <= 0x8000_0000_0000_0000u128,
    ;
    let m: u128 = (am * (SCALE as u128)) / (b as u128);
    if a < 0 {
        if m >= 0x8000_0000_0000_0000u128 {
            i64::MIN
        } else {
            -(m as i64)
        }
    } else {
        if m > i64::MAX as u128 {
            i64::MAX
        } else {
            m as i64
        }
    }
}

/// A fixed-point product with a zero factor is exactly zero.
pub proof fn lemma_fmul_zero(a: int)
    ensures
        fmul(a, 0) == 0,
        fmul(0, a) == 0,
{
    assert(iabs(0) == 0);
    assert(iabs(a) * 0 == 0);
    assert(0 * iabs(a) == 0);
}

/// A fixed-point product of two factors of the same sign is nonnegative;
/// in particular a square is.
pub proof fn lemma_fmul_nonneg(a: int, b: int)
    requires
        (a < 0) == (b < 0),
    ensures
        fmul(a, b) >= 0,
{
    assert(iabs(a) * iabs(b) >= 0) by (nonlinear_arith);
    lemma_div_pos_is_pos(iabs(a) * iabs(b), SCALE as int);
}

/// A fixed-point quotient of a nonnegative scalar by a positive one is
/// nonnegative.
pub proof fn lemma_fdiv_nonneg(a: int, b: int)
    requires
        a >= 0,
        b > 0,
    ensures
        fdiv(a, b) >= 0,
{
    assert(iabs(a) * (SCALE as int) >= 0) by (nonlinear_arith);
    lemma_div_pos_is_pos(iabs(a) * (SCALE as int), b);
}

} // verus!
