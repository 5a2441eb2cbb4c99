//! Fixed-point circular functions: sine, cosine and the two-argument
//! arctangent, computed by CORDIC shift-and-add iterations.
//!
//! Angles are fixed-point radians.  The specifications are the exact
//! iteration recurrences, so every result is pinned to the integer.

use vstd::prelude::*;
use vstd::arithmetic::power2::pow2;
use vstd::arithmetic::power2::lemma2_to64;
use vstd::arithmetic::power2::lemma_pow2_strictly_increases;
use crate::fixed::sp_add;
use crate::fixed::sp_sub;
use crate::fixed::sp_neg;
use crate::fixed::sp_abs;
use crate::fixed::sp_tdiv;
use crate::fixed::sp_rem;
use crate::fixed::fx_add;
use crate::fixed::fx_sub;
use crate::fixed::fx_neg;
use crate::fixed::fx_abs;
use crate::fixed::fx_rem;
use crate::fixed::tdiv64;
use crate::elementary::pow2_u64;

verus! {

/// Pi in fixed-point radians.
pub const FX_PI: i64 = 13493037705;

/// Two pi in fixed-point radians.
pub const FX_TAU: i64 = 26986075409;

/// Half pi in fixed-point radians.
pub const FX_HALF_PI: i64 = 6746518852;

/// The CORDIC gain correction 1/K, scaled by 2^32.
pub const FX_CORDIC_K_INV: i64 = 2608131496;

/// The fixed-point arctangent of 2^-i, the CORDIC angle table.
pub open spec fn sp_atan_c(i: int) -> int {
    if i == 0 { 3373259426 }
    else if i == 1 { 1991351318 }
    else if i == 2 { 1052175346 }
    else if i == 3 { 534100635 }
    else if i == 4 { 268086748 }
    else if i == 5 { 134174063 }
    else if i == 6 { 67103403 }
    else if i == 7 { 33553749 }
    else if i == 8 { 16777131 }
    else if i == 9 { 8388597 }
    else if i == 10 { 4194303 }
    else if i == 11 { 2097152 }
    else if i == 12 { 1048576 }
    else if i == 13 { 524288 }
    else if i == 14 { 262144 }
    else if i == 15 { 131072 }
    else if i == 16 { 65536 }
    else if i == 17 { 32768 }
    else if i == 18 { 16384 }
    else if i == 19 { 8192 }
    else if i == 20 { 4096 }
    else if i == 21 { 2048 }
    else if i == 22 { 1024 }
    else if i == 23 { 512 }
    else if i == 24 { 256 }
    else if i == 25 { 128 }
    else if i == 26 { 64 }
    else if i == 27 { 32 }
    else if i == 28 { 16 }
    else if i == 29 { 8 }
    else if i == 30 { 4 }
    else { 2 }
}

fn atan_c(i: u64) -> (r: i64)
    requires
        i < 32,
    ensures
        r as int == sp_atan_c(i as int),
{
    if i == 0 { 3373259426 }
    else if i == 1 { 1991351318 }
    else if i == 2 { 1052175346 }
    else if i == 3 { 534100635 }
    else if i == 4 { 268086748 }
    else if i == 5 { 134174063 }
    else if i == 6 { 67103403 }
    else if i == 7 { 33553749 }
    else if i == 8 { 16777131 }
    else if i == 9 { 8388597 }
    else if i == 10 { 4194303 }
    else if i == 11 { 2097152 }
    else if i == 12 { 1048576 }
    else if i == 13 { 524288 }
    else if i == 14 { 262144 }
    else if i == 15 { 131072 }
    else if i == 16 { 65536 }
    else if i == 17 { 32768 }
    else if i == 18 { 16384 }
    else if i == 19 { 8192 }
    else if i == 20 { 4096 }
    else if i == 21 { 2048 }
    else if i == 22 { 1024 }
    else if i == 23 { 512 }
    else if i == 24 { 256 }
    else if i == 25 { 128 }
    else if i == 26 { 64 }
    else if i == 27 { 32 }
    else if i == 28 { 16 }
    else if i == 29 { 8 }
    else if i == 30 { 4 }
    else { 2 }
}

/// The CORDIC rotation recurrence, from step `i` to step 32.
pub open spec fn sp_cordic_rot(x: int, y: int, z: int, i: nat) -> (int, int, int)
    decreases 32 - i,
{
    if i >= 32 {
        (x, y, z)
    } else {
        let s = pow2(i) as int;
        if z >= 0 {
            sp_cordic_rot(
                sp_sub(x, sp_tdiv(y, s)),
                sp_add(y, sp_tdiv(x, s)),
                sp_sub(z, sp_atan_c(i as int)),
                i + 1,
            )
        } else {
            sp_cordic_rot(
                sp_add(x, sp_tdiv(y, s)),
                sp_sub(y, sp_tdiv(x, s)),
                sp_add(z, sp_atan_c(i as int)),
                i + 1,
            )
        }
    }
}

fn cordic_rot(x: i64, y: i64, z: i64, i: u64) -> (r: (i64, i64, i64))
    requires
        i <= 32,
    ensures
        (r.0 as int, r.1 as int, r.2 as int) == sp_cordic_rot(
            x as int,
            y as int,
            z as int,
            i as nat,
        ),
    decreases 32 - i,
{
    if i >= 32 {
        return (x, y, z);
    }
    let s64: u64 = pow2_u64(i);
    proof {
        lemma2_to64();
        if (i as nat) < 32 {
            lemma_pow2_strictly_increases(i as nat, 32);
        }
    }
    let s: i64 = s64 as i64;
    let xs: i64 = tdiv64(x, s);
    let ys: i64 = tdiv64(y, s);
    let a: i64 = atan_c(i);
    if z >= 0 {
        cordic_rot(fx_sub(x, ys), fx_add(y, xs), fx_sub(z, a), i + 1)
    } else {
        cordic_rot(fx_add(x, ys), fx_sub(y, xs), fx_add(z, a), i + 1)
    }
}

/// The CORDIC vectoring recurrence, from step `i` to step 32.
pub open spec fn sp_cordic_vec(x: int, y: int, z: int, i: nat) -> (int, int, int)
    decreases 32 - i,
{
    if i >= 32 {
        (x, y, z)
    } else {
        let s = pow2(i) as int;
        if y > 0 {
            sp_cordic_vec(
                sp_add(x, sp_tdiv(y, s)),
                sp_sub(y, sp_tdiv(x, s)),
                sp_add(z, sp_atan_c(i as int)),
                i + 1,
            )
        } else {
            sp_cordic_vec(
                sp_sub(x, sp_tdiv(y, s)),
                sp_add(y, sp_tdiv(x, s)),
                sp_sub(z, sp_atan_c(i as int)),
                i + 1,
            )
        }
    }
}

fn cordic_vec(x: i64, y: i64, z: i64, i: u64) -> (r: (i64, i64, i64))
    requires
        i <= 32,
    ensures
        (r.0 as int, r.1 as int, r.2 as int) == sp_cordic_vec(
            x as int,
            y as int,
            z as int,
            i as nat,
        ),
    decreases 32 - i,
{
    if i >= 32 {
        return (x, y, z);
    }
    let s64: u64 = pow2_u64(i);
    proof {
        lemma2_to64();
        if (i as nat) < 32 {
            lemma_pow2_strictly_increases(i as nat, 32);
        }
    }
    let s: i64 = s64 as i64;
    let xs: i64 = tdiv64(x, s);
    let ys: i64 = tdiv64(y, s);
    let a: i64 = atan_c(i);
    if y > 0 {
        cordic_vec(fx_add(x, ys), fx_sub(y, xs), fx_add(z, a), i + 1)
    } else {
        cordic_vec(fx_sub(x, ys), fx_add(y, xs), fx_sub(z, a), i + 1)
    }
}

/// Reduction of an angle into [-pi, pi].
pub open spec fn sp_reduce_pi(z: int) -> int {
    let m = sp_rem(z, FX_TAU as int);
    if m > FX_PI {
        sp_sub(m, FX_TAU as int)
    } else if m < -FX_PI {
        sp_add(m, FX_TAU as int)
    } else {
        m
    }
}

fn reduce_pi(z: i64) -> (r: i64)
    ensures
        r as int == sp_reduce_pi(z as int),
{
    let m: i64 = fx_rem(z, FX_TAU);
    if m > FX_PI {
        fx_sub(m, FX_TAU)
    } else if m < -FX_PI {
        fx_add(m, FX_TAU)
    } else {
        m
    }
}

/// The fixed-point sine and cosine of an angle in radians: the angle is
/// reduced into [-pi, pi], folded into [-pi/2, pi/2], and rotated by the
/// CORDIC recurrence.
pub open spec fn sp_sincos(z: int) -> (int, int) {
    let m = sp_reduce_pi(z);
    if m > FX_HALF_PI {
        let r = sp_cordic_rot(FX_CORDIC_K_INV as int, 0, sp_sub(FX_PI as int, m), 0);
        (r.1, sp_neg(r.0))
    } else if m < -FX_HALF_PI {
        let r = sp_cordic_rot(FX_CORDIC_K_INV as int, 0, sp_sub(-(FX_PI as int), m), 0);
        (r.1, sp_neg(r.0))
    } else {
        let r = sp_cordic_rot(FX_CORDIC_K_INV as int, 0, m, 0);
        (r.1, r.0)
    }
}

/// The fixed-point sine and cosine of an angle in radians.
pub fn fx_sincos(z: i64) -> (r: (i64, i64))
    ensures
        (r.0 as int, r.1 as int) == sp_sincos(z as int),
{
    let m: i64 = reduce_pi(z);
    if m > FX_HALF_PI {
        let t: (i64, i64, i64) = cordic_rot(FX_CORDIC_K_INV, 0, fx_sub(FX_PI, m), 0);
        (t.1, fx_neg(t.0))
    } else if m < -FX_HALF_PI {
        let t: (i64, i64, i64) = cordic_rot(FX_CORDIC_K_INV, 0, fx_sub(-FX_PI, m), 0);
        (t.1, fx_neg(t.0))
    } else {
        let t: (i64, i64, i64) = cordic_rot(FX_CORDIC_K_INV, 0, m, 0);
        (t.1, t.0)
    }
}

/// The fixed-point two-argument arctangent, in radians in [-pi, pi];
/// 0 when both arguments are 0.
pub open spec fn sp_atan2(y: int, x: int) -> int {
    if x == 0 && y == 0 {
        0
    } else {
        let a = sp_cordic_vec(sp_abs(x), sp_abs(y), 0, 0).2;
        if x >= 0 && y >= 0 {
            a
        } else if x >= 0 {
            sp_neg(a)
        } else if y >= 0 {
            sp_sub(FX_PI as int, a)
        } else {
            sp_sub(a, FX_PI as int)
        }
    }
}

/// The fixed-point two-argument arctangent.
pub fn fx_atan2(y: i64, x: i64) -> (r: i64)
    ensures
        r as int == sp_atan2(y as int, x as int),
{
    if x == 0 && y == 0 {
        return 0;
    }
    let t: (i64, i64, i64) = cordic_vec(fx_abs(x), fx_abs(y), 0, 0);
    let a: i64 = t.2;
    if x >= 0 && y >= 0 {
        a
    } else if x >= 0 {
        fx_neg(a)
    } else if y >= 0 {
        fx_sub(FX_PI, a)
    } else {
        fx_sub(a, FX_PI)
    }
}

} // verus!
