//! Fixed-point scalars for transform arithmetic.
//!
//! Positions, scales and rotations are held as signed 48.16 fixed-point
//! numbers (an `i64` counting 1/65536ths). Addition and multiplication
//! saturate at the `i64` range, and multiplication rounds toward zero,
//! so every operation is total and its exact value is stated in specs.

use vstd::prelude::*;

verus! {

/// The fixed-point representation of 1.
pub const FX_ONE: i64 = 65536;

/// Clamps a mathematical integer into the `i64` range.
pub open spec fn sat64(x: int) -> int {
    if x > i64::MAX {
        i64::MAX as int
    } else if x < i64::MIN {
        i64::MIN as int
    } else {
        x
    }
}

/// Division by 2^16 rounding toward zero.
pub open spec fn div_fx_to_zero(p: int) -> int {
    if p >= 0 {
        p / (FX_ONE as int)
    } else {
        -((-p) / (FX_ONE as int))
    }
}

/// The exact value of saturating fixed-point multiplication.
pub open spec fn fx_mul_spec(a: int, b: int) -> int {
    sat64(div_fx_to_zero(a * b))
}

/// The exact value of saturating addition.
pub open spec fn fx_add_spec(a: int, b: int) -> int {
    sat64(a + b)
}

/// Saturating fixed-point addition.
pub fn fx_add(a: i64, b: i64) -> (r: i64)
    ensures
        r as int == fx_add_spec(a as int, b as int),
{
    let wide: i128 = a as i128 + b as i128;
    if wide > i64::MAX as i128 {
        i64::MAX
    } else if wide < i64::MIN as i128 {
        i64::MIN
    } else {
        wide as i64
    }
}

/// Saturating fixed-point multiplication, rounding toward zero.
pub fn fx_mul(a: i64, b: i64) -> (r: i64)
    ensures
        r as int == fx_mul_spec(a as int, b as int),
{
    proof {
        let ia = a as int;
        let ib = b as int;
        assert(-(i128::MAX as int) < ia * ib < i128::MAX as int) by (nonlinear_arith)
            requires
                i64::MIN as int <= ia <= i64::MAX as int,
                i64::MIN as int <= ib <= i64::MAX as int,
        ;
    }
    let prod: i128 = a as i128 * b as i128;
    let neg: bool = prod < 0;
    let mag: i128 = if neg {
        -prod
    } else {
        prod
    };
    let q: i128 = mag / (FX_ONE as i128);
    assert(q == (if neg { -(prod as int) } else { prod as int }) / (FX_ONE as int));
    let signed: i128 = if neg {
        -q
    } else {
        q
    };
    assert(signed as int == div_fx_to_zero(a as int * b as int));
    if signed > i64::MAX as i128 {
        i64::MAX
    } else if signed < i64::MIN as i128 {
        i64::MIN
    } else {
        signed as i64
    }
}

} // verus!
