//! Saturating fixed-point arithmetic with six decimal places.
//!
//! A number `x` is represented by the `i64` value `x * SCALE`, kept within
//! `[-FX_MAX, FX_MAX]`.  Every operation clamps its mathematical result to
//! that range, so the representable domain behaves like a closed interval:
//! trajectories that would diverge simply pin at the boundary instead of
//! wrapping around.

use vstd::prelude::*;

verus! {

/// Number of fixed-point units per whole unit (six decimal places).
pub const SCALE: i64 = 1_000_000;

/// Largest representable fixed-point value (one quintillion units,
/// i.e. 10^12 whole units); the smallest is its negation.
pub const FX_MAX: i64 = 1_000_000_000_000_000_000;

/// Whether a mathematical value lies in the representable interval.
pub open spec fn in_range(x: int) -> bool {
    -(FX_MAX as int) <= x <= FX_MAX as int
}

/// Clamp a mathematical value to the representable interval.
pub open spec fn sat(x: int) -> int {
    if x > FX_MAX as int {
        FX_MAX as int
    } else if x < -(FX_MAX as int) {
        -(FX_MAX as int)
    } else {
        x
    }
}

/// Division of `a` by a positive `b`, truncating toward zero, as the
/// machine's signed division does.
pub open spec fn div_trunc(a: int, b: int) -> int
    recommends
        b > 0,
{
    if a >= 0 {
        a / b
    } else {
        -((-a) / b)
    }
}

/// Saturating fixed-point sum.
pub open spec fn fx_add(a: int, b: int) -> int {
    sat(a + b)
}

/// Saturating fixed-point difference.
pub open spec fn fx_sub(a: int, b: int) -> int {
    sat(a - b)
}

/// Saturating fixed-point product: the exact product rescaled by `SCALE`,
/// truncated toward zero, then clamped.
pub open spec fn fx_mul(a: int, b: int) -> int {
    sat(div_trunc(a * b, SCALE as int))
}

/// Clamp an arbitrary machine value into the representable interval.
pub fn clamp_fx(x: i64) -> (r: i64)
    ensures
        r as int == sat(x as int),
        in_range(r as int),
{
    if x > FX_MAX {
        FX_MAX
    } else if x < -FX_MAX {
        -FX_MAX
    } else {
        x
    }
}

/// Saturating addition of two in-range fixed-point values.
pub fn add_fx(a: i64, b: i64) -> (r: i64)
    requires
        in_range(a as int),
        in_range(b as int),
    ensures
        r as int == fx_add(a as int, b as int),
        in_range(r as int),
{
    let s: i128 = a as i128 + b as i128;
    if s > FX_MAX as i128 {
        FX_MAX
    } else if s < -(FX_MAX as i128) {
        -FX_MAX
    } else {
        s as i64
    }
}

/// Saturating subtraction of two in-range fixed-point values.
pub fn sub_fx(a: i64, b: i64) -> (r: i64)
    requires
        in_range(a as int),
        in_range(b as int),
    ensures
        r as int == fx_sub(a as int, b as int),
        in_range(r as int),
{
    let s: i128 = a as i128 - b as i128;
    if s > FX_MAX as i128 {
        FX_MAX
    } else if s < -(FX_MAX as i128) {
        -FX_MAX
    } else {
        s as i64
    }
}

/// Saturating rescaled multiplication of two in-range fixed-point values.
pub fn mul_fx(a: i64, b: i64) -> (r: i64)
    requires
        in_range(a as int),
        in_range(b as int),
    ensures
        r as int == fx_mul(a as int, b as int),
        in_range(r as int),
{
    proof {
        lemma_product_bound(a as int, b as int);
    }
    let p: i128 = (a as i128) * (b as i128);
    let neg: bool = p < 0;
    let mag: u128 = if neg {
        (-p) as u128
    } else {
        p as u128
    };
    let q: u128 = mag / (SCALE as u128);
    let qc: u128 = if q > FX_MAX as u128 {
        FX_MAX as u128
    } else {
        q
    };
    if neg {
        -(qc as i64)
    } else {
        qc as i64
    }
}

/// The product of two in-range values is bounded by `FX_MAX * FX_MAX`.
proof fn lemma_product_bound(a: int, b: int)
    requires
        in_range(a),
        in_range(b),
    ensures
        a * b <= (FX_MAX as int) * (FX_MAX as int),
        a * b >= -((FX_MAX as int) * (FX_MAX as int)),
{
    let m = FX_MAX as int;
    assert(-m <= a <= m && -m <= b <= m ==> a * b <= m * m && a * b >= -(m * m))
        by (nonlinear_arith);
}

} // verus!
