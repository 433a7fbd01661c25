//! Q32.32 fixed-point scalars.
//!
//! A scalar is an `i64` holding `value * 2^32`: 32 integer bits and
//! 32 fractional bits. Multiplication truncates the extra fractional bits
//! toward zero. Results that fall outside the representable range clamp
//! (saturate) at `i64::MIN` / `i64::MAX`, so out-of-range trajectories
//! degrade to pinned extreme values instead of aborting, and every
//! operation stays a total function.

use vstd::prelude::*;

verus! {

/// Number of fixed-point units per 1.0: 2^32.
pub const SCALE: i64 = 4294967296;

/// Clamp a mathematical integer into the `i64` range.
pub open spec fn sat_i64(v: int) -> int {
    if v > i64::MAX as int {
        i64::MAX as int
    } else if v < i64::MIN as int {
        i64::MIN as int
    } else {
        v
    }
}

/// Integer division truncating toward zero (the divisor must be positive).
pub open spec fn trunc_div(p: int, d: int) -> int
    recommends
        d > 0,
{
    if p >= 0 {
        p / d
    } else {
        -((-p) / d)
    }
}

/// Saturating fixed-point addition.
pub open spec fn spec_add(a: int, b: int) -> int {
    sat_i64(a + b)
}

/// Saturating fixed-point subtraction.
pub open spec fn spec_sub(a: int, b: int) -> int {
    sat_i64(a - b)
}

/// Saturating fixed-point multiplication: the double-width product is
/// rescaled by 2^32, truncating toward zero.
pub open spec fn spec_mul(a: int, b: int) -> int {
    sat_i64(trunc_div(a * b, SCALE as int))
}

/// Fixed-point division by a small positive integer, truncating toward
/// zero. The magnitude never grows, so no saturation is involved.
pub open spec fn spec_div(v: int, d: int) -> int
    recommends
        d > 0,
{
    trunc_div(v, d)
}

/// Multiplication by zero yields zero, whichever side the zero is on.
pub proof fn lemma_mul_zero(a: int)
    ensures
        spec_mul(a, 0) == 0,
        spec_mul(0, a) == 0,
{
    assert(a * 0 == 0) by (nonlinear_arith);
    assert(0 * a == 0) by (nonlinear_arith);
}

/// Add two fixed-point scalars, clamping at the representable extremes.
pub fn fx_add(a: i64, b: i64) -> (r: i64)
    ensures
        r as int == spec_add(a as int, b as int),
{
    let s: i128 = (a as i128) + (b as i128);
    if s > i64::MAX as i128 {
        i64::MAX
    } else if s < i64::MIN as i128 {
        i64::MIN
    } else {
        s as i64
    }
}

/// Subtract two fixed-point scalars, clamping at the representable extremes.
pub fn fx_sub(a: i64, b: i64) -> (r: i64)
    ensures
        r as int == spec_sub(a as int, b as int),
{
    let s: i128 = (a as i128) - (b as i128);
    if s > i64::MAX as i128 {
        i64::MAX
    } else if s < i64::MIN as i128 {
        i64::MIN
    } else {
        s as i64
    }
}

/// Multiply two fixed-point scalars, truncating the result toward zero and
/// clamping at the representable extremes.
pub fn fx_mul(a: i64, b: i64) -> (r: i64)
    ensures
        r as int == spec_mul(a as int, b as int),
{
    proof {
        assert(-0x40000000000000000000000000000000 <= (a as int) * (b as int)
            <= 0x40000000000000000000000000000000) by (nonlinear_arith)
            requires
                -0x8000000000000000 <= a as int <= 0x7fffffffffffffff,
                -0x8000000000000000 <= b as int <= 0x7fffffffffffffff,
        ;
    }
    let p: i128 = (a as i128) * (b as i128);
    if p >= 0 {
        let q: u128 = (p as u128) / (SCALE as u128);
        if q > i64::MAX as u128 {
            i64::MAX
        } else {
            q as i64
        }
    } else {
        let m: u128 = ((-p) as u128) / (SCALE as u128);
        if m > 9223372036854775808u128 {
            i64::MIN
        } else {
            (-(m as i128)) as i64
        }
    }
}

/// Divide a fixed-point scalar by a small positive integer, truncating
/// toward zero.
pub fn fx_div(v: i64, d: i64) -> (r: i64)
    requires
        d > 0,
    ensures
        r as int == spec_div(v as int, d as int),
{
    if v >= 0 {
        ((v as u64) / (d as u64)) as i64
    } else {
        let m: u128 = ((-(v as i128)) as u128) / (d as u128);
        (-(m as i128)) as i64
    }
}

} // verus!
