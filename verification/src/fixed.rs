//! Fixed-point scalar arithmetic.
//!
//! A coordinate is an `i64` holding its value scaled by 2^32, so one unit is
//! `FX_ONE`.  All operations are total: division by zero yields zero and
//! out-of-range results saturate to the `i64` limits, so every operation has
//! an exact specification over the mathematical integers.

use vstd::prelude::*;

verus! {

/// The fixed-point representation of 1.0: 2^32.
pub const FX_ONE: i64 = 4294967296;

/// Absolute value over the mathematical integers.
pub open spec fn abs_int(a: int) -> int {
    if a < 0 { -a } else { a }
}

/// Saturation to the `i64` range.
pub open spec fn sat64(x: int) -> int {
    if x > i64::MAX {
        i64::MAX as int
    } else if x < i64::MIN {
        i64::MIN as int
    } else {
        x
    }
}

/// Division rounding toward zero; 0 when the divisor is 0.
pub open spec fn sp_tdiv(a: int, b: int) -> int {
    if b == 0 {
        0
    } else if (a < 0) != (b < 0) {
        -(abs_int(a) / abs_int(b))
    } else {
        abs_int(a) / abs_int(b)
    }
}

/// Fixed-point sum.
pub open spec fn sp_add(a: int, b: int) -> int {
    sat64(a + b)
}

/// Fixed-point difference.
pub open spec fn sp_sub(a: int, b: int) -> int {
    sat64(a - b)
}

/// Fixed-point negation.
pub open spec fn sp_neg(a: int) -> int {
    sat64(-a)
}

/// Fixed-point product: the scaled product rounded toward zero.
pub open spec fn sp_mul(a: int, b: int) -> int {
    sat64(sp_tdiv(a * b, FX_ONE as int))
}

/// Fixed-point quotient: the scaled quotient rounded toward zero.
pub open spec fn sp_div(a: int, b: int) -> int {
    sat64(sp_tdiv(a * (FX_ONE as int), b))
}

/// Clamps a wide intermediate back into `i64`.
fn clamp_i128(x: i128) -> (r: i64)
    ensures
        r as int == sat64(x as int),
{
    if x > i64::MAX as i128 {
        i64::MAX
    } else if x < i64::MIN as i128 {
        i64::MIN
    } else {
        x as i64
    }
}

/// Division of wide intermediates rounding toward zero.
fn tdiv_i128(a: i128, b: i128) -> (r: i128)
    requires
        a > i128::MIN,
        b > i128::MIN,
    ensures
        r == sp_tdiv(a as int, b as int),
        abs_int(r as int) <= abs_int(a as int),
{
    if b == 0 {
        return 0;
    }
    let ua: u128 = if a < 0 {
        (-a) as u128
    } else {
        a as u128
    };
    let ub: u128 = if b < 0 {
        (-b) as u128
    } else {
        b as u128
    };
    let uq: u128 = ua / ub;
    proof {
        assert(ua as int == abs_int(a as int));
        assert(ub as int == abs_int(b as int));
        assert(uq as int <= ua as int) by (nonlinear_arith)
            requires
                ub >= 1,
                uq == ua as int / ub as int,
                ua >= 0,
        ;
    }
    if (a < 0) != (b < 0) {
        -(uq as i128)
    } else {
        uq as i128
    }
}

/// Truncating remainder: what is left after removing whole multiples of
/// the divisor, keeping the dividend's sign; 0 when the divisor is 0.
pub open spec fn sp_rem(a: int, b: int) -> int {
    a - b * sp_tdiv(a, b)
}

/// Absolute value, saturating for the smallest `i64`.
pub open spec fn sp_abs(a: int) -> int {
    sat64(abs_int(a))
}

/// The smaller of two values.
pub open spec fn sp_min(a: int, b: int) -> int {
    if a < b { a } else { b }
}

/// The larger of two values.
pub open spec fn sp_max(a: int, b: int) -> int {
    if a > b { a } else { b }
}

/// Truncating division of `i64` values by a positive divisor.
pub(crate) fn tdiv64(a: i64, b: i64) -> (r: i64)
    requires
        b > 0,
    ensures
        r as int == sp_tdiv(a as int, b as int),
        abs_int(r as int) <= abs_int(a as int),
{
    let q: i128 = tdiv_i128(a as i128, b as i128);
    q as i64
}

/// Saturating fixed-point sum.
pub fn fx_add(a: i64, b: i64) -> (r: i64)
    ensures
        r as int == sp_add(a as int, b as int),
{
    clamp_i128(a as i128 + b as i128)
}

/// Saturating fixed-point difference.
pub fn fx_sub(a: i64, b: i64) -> (r: i64)
    ensures
        r as int == sp_sub(a as int, b as int),
{
    clamp_i128(a as i128 - b as i128)
}

/// Saturating fixed-point negation.
pub fn fx_neg(a: i64) -> (r: i64)
    ensures
        r as int == sp_neg(a as int),
{
    clamp_i128(-(a as i128))
}

/// Saturating fixed-point product.
pub fn fx_mul(a: i64, b: i64) -> (r: i64)
    ensures
        r as int == sp_mul(a as int, b as int),
{
    proof {
        assert((a as int) * (b as int) <= i128::MAX && (a as int) * (b as int) > i128::MIN)
            by (nonlinear_arith)
            requires
                i64::MIN <= a <= i64::MAX,
                i64::MIN <= b <= i64::MAX,
        ;
    }
    let p: i128 = (a as i128) * (b as i128);
    let q: i128 = tdiv_i128(p, FX_ONE as i128);
    clamp_i128(q)
}

/// Saturating fixed-point quotient; 0 when the divisor is 0.
pub fn fx_div(a: i64, b: i64) -> (r: i64)
    ensures
        r as int == sp_div(a as int, b as int),
{
    proof {
        assert((a as int) * (FX_ONE as int) <= i128::MAX && (a as int) * (FX_ONE as int)
            > i128::MIN) by (nonlinear_arith)
            requires
                i64::MIN <= a <= i64::MAX,
        ;
    }
    let p: i128 = (a as i128) * (FX_ONE as i128);
    let q: i128 = tdiv_i128(p, b as i128);
    clamp_i128(q)
}

/// Truncating remainder; 0 when the divisor is 0.
pub fn fx_rem(a: i64, b: i64) -> (r: i64)
    ensures
        r as int == sp_rem(a as int, b as int),
{
    if b == 0 {
        return a;
    }
    let q: i128 = tdiv_i128(a as i128, b as i128);
    proof {
        assert((b as int) * (q as int) + (a as int) - (b as int) * (q as int) == a as int);
        assert(abs_int((b as int) * (q as int)) <= abs_int(a as int) && abs_int(
            (a as int) - (b as int) * (q as int),
        ) <= abs_int(a as int) && ((a as int) < 0 ==> (a as int) - (b as int) * (q as int) <= 0)
            && ((a as int) >= 0 ==> (a as int) - (b as int) * (q as int) >= 0))
            by (nonlinear_arith)
            requires
                b != 0,
                q == sp_tdiv(a as int, b as int),
                i64::MIN <= a <= i64::MAX,
                i64::MIN <= b <= i64::MAX,
        ;
    }
    let m: i128 = (b as i128) * (q as i128);
    (a as i128 - m) as i64
}

/// Saturating absolute value.
pub fn fx_abs(a: i64) -> (r: i64)
    ensures
        r as int == sp_abs(a as int),
{
    if a == i64::MIN {
        i64::MAX
    } else if a < 0 {
        -a
    } else {
        a
    }
}

/// The smaller of two values.
pub fn fx_min(a: i64, b: i64) -> (r: i64)
    ensures
        r as int == sp_min(a as int, b as int),
{
    if a < b { a } else { b }
}

/// The larger of two values.
pub fn fx_max(a: i64, b: i64) -> (r: i64)
    ensures
        r as int == sp_max(a as int, b as int),
{
    if a > b { a } else { b }
}

} // verus!
