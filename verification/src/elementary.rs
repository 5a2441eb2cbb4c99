//! Elementary functions on fixed-point numbers: square root, cube root,
//! base-2 logarithm and exponential, and the power function built from them.
//!
//! Roots are specified exactly by integer bracketing: the result is the
//! unique integer whose square (cube) does not exceed the scaled operand
//! while the next integer's does.  The logarithm and exponential are
//! specified by the bit-recurrences that compute them.

use vstd::prelude::*;
use vstd::arithmetic::power2::pow2;
use vstd::arithmetic::power2::lemma_pow2_adds;
use vstd::arithmetic::power2::lemma_pow2_strictly_increases;
use vstd::arithmetic::power2::lemma2_to64;
use vstd::arithmetic::power2::lemma2_to64_rest;
use vstd::arithmetic::div_mod::lemma_fundamental_div_mod;
use vstd::arithmetic::div_mod::lemma_fundamental_div_mod_converse;
use vstd::arithmetic::div_mod::lemma_div_is_ordered;
use vstd::arithmetic::div_mod::lemma_div_multiples_vanish;
use vstd::arithmetic::mul::lemma_mul_inequality;
use crate::fixed::FX_ONE;
use crate::fixed::sat64;
use crate::fixed::sp_mul;

verus! {

/// `r` is the integer square root of `n`.
pub open spec fn is_isqrt(r: int, n: int) -> bool {
    0 <= r && r * r <= n && n < (r + 1) * (r + 1)
}

/// The integer square root of `n` (meaningful for `n >= 0`).
pub open spec fn isqrt(n: int) -> int {
    choose|r: int| is_isqrt(r, n)
}

/// Fixed-point square root; 0 for non-positive operands.
pub open spec fn sp_sqrt(x: int) -> int {
    if x <= 0 {
        0
    } else {
        isqrt(x * (FX_ONE as int))
    }
}

/// `r` is the integer cube root of `n` (for `n >= 0`).
pub open spec fn is_icbrt(r: int, n: int) -> bool {
    0 <= r && r * r * r <= n && n < (r + 1) * (r + 1) * (r + 1)
}

/// The integer cube root of `n` (meaningful for `n >= 0`).
pub open spec fn icbrt(n: int) -> int {
    choose|r: int| is_icbrt(r, n)
}

/// Fixed-point cube root; odd, so defined for negative operands as well.
pub open spec fn sp_cbrt(x: int) -> int {
    if x >= 0 {
        icbrt(x * (FX_ONE as int) * (FX_ONE as int))
    } else {
        -icbrt((-x) * (FX_ONE as int) * (FX_ONE as int))
    }
}

/// An integer square root bracket determines its root.
pub proof fn lemma_isqrt_is(r: int, n: int)
    requires
        is_isqrt(r, n),
    ensures
        isqrt(n) == r,
{
    assert(is_isqrt(isqrt(n), n)) by {
        assert(exists|q: int| is_isqrt(q, n)) by {
            assert(is_isqrt(r, n));
        }
    }
    assert(isqrt(n) == r) by (nonlinear_arith)
        requires
            is_isqrt(isqrt(n), n),
            is_isqrt(r, n),
    ;
}

/// An integer cube root bracket determines its root.
pub proof fn lemma_icbrt_is(r: int, n: int)
    requires
        is_icbrt(r, n),
    ensures
        icbrt(n) == r,
{
    assert(is_icbrt(icbrt(n), n)) by {
        assert(exists|q: int| is_icbrt(q, n)) by {
            assert(is_icbrt(r, n));
        }
    }
    assert(icbrt(n) == r) by (nonlinear_arith)
        requires
            is_icbrt(icbrt(n), n),
            is_icbrt(r, n),
    ;
}

/// Multiplying through a division: for positive `d`, `a * d <= n` exactly
/// when `a <= n / d`.
proof fn lemma_mul_div_le(a: int, n: int, d: int)
    requires
        d > 0,
        n >= 0,
        a >= 0,
    ensures
        a * d <= n <==> a <= n / d,
{
    if a * d <= n {
        lemma_div_is_ordered(a * d, n, d);
        lemma_div_multiples_vanish(a, d);
        assert(a * d / d == a);
    }
    if a <= n / d {
        lemma_fundamental_div_mod(n, d);
        lemma_mul_inequality(a, n / d, d);
        assert((n / d) * d <= n) by (nonlinear_arith)
            requires
                d > 0,
                n >= 0,
                n == d * (n / d) + n % d,
                n % d >= 0,
        ;
    }
}

/// Integer square root of `x * 2^32`, by bisection.
pub fn fx_sqrt(x: i64) -> (r: i64)
    ensures
        r as int == sp_sqrt(x as int),
        r >= 0,
{
    if x <= 0 {
        return 0;
    }
    proof {
        assert((x as int) * (FX_ONE as int) < 281474976710656int * 281474976710656int)
            by (nonlinear_arith)
            requires
                0 < x <= i64::MAX,
        ;
    }
    let n: u128 = (x as u128) * (FX_ONE as u128);
    let mut lo: u128 = 0;
    let mut hi: u128 = 281474976710656;  // 2^48
    while lo + 1 < hi
        invariant
            0 <= lo < hi <= 281474976710656,
            (lo as int) * (lo as int) <= n as int,
            (n as int) < (hi as int) * (hi as int),
        decreases hi - lo,
    {
        let mid: u128 = lo + (hi - lo) / 2;
        proof {
            assert(lo < mid < hi);
            assert((mid as int) * (mid as int) < u128::MAX) by (nonlinear_arith)
                requires
                    0 < mid <= 281474976710656,
            ;
        }
        if mid * mid <= n {
            lo = mid;
        } else {
            hi = mid;
        }
    }
    proof {
        assert(hi == lo + 1);
        assert(is_isqrt(lo as int, n as int));
        lemma_isqrt_is(lo as int, n as int);
        assert((lo as int) * (lo as int) <= n < 281474976710656int * 281474976710656int);
        assert(lo < 281474976710656) by (nonlinear_arith)
            requires
                (lo as int) * (lo as int) < 281474976710656int * 281474976710656int,
                lo >= 0,
        ;
    }
    lo as i64
}

/// Whether `m^3 <= n`, computed without forming the cube.
fn cube_le(m: u128, n: u128) -> (r: bool)
    requires
        m <= 281474976710656,
    ensures
        r <==> (m as int) * (m as int) * (m as int) <= n as int,
{
    if m == 0 {
        return true;
    }
    proof {
        assert((m as int) * (m as int) <= u128::MAX) by (nonlinear_arith)
            requires
                0 < m <= 281474976710656,
        ;
        lemma_mul_div_le((m as int) * (m as int), n as int, m as int);
    }
    m * m <= n / m
}

/// Integer cube root of `|x| * 2^64` with the sign of `x`, by bisection.
pub fn fx_cbrt(x: i64) -> (r: i64)
    ensures
        r as int == sp_cbrt(x as int),
{
    let neg: bool = x < 0;
    let ax: u128 = if x < 0 {
        (-(x as i128)) as u128
    } else {
        x as u128
    };
    if ax == 0 {
        proof {
            lemma_icbrt_is(0, 0);
        }
        return 0;
    }
    proof {
        assert((ax as int) * ((FX_ONE as int) * (FX_ONE as int)) <= u128::MAX)
            by (nonlinear_arith)
            requires
                0 < ax <= 9223372036854775808,
        ;
    }
    let n: u128 = ax * ((FX_ONE as u128) * (FX_ONE as u128));
    let mut lo: u128 = 0;
    let mut hi: u128 = 8796093022208;  // 2^43
    proof {
        assert((n as int) < 8796093022208int * 8796093022208int * 8796093022208int)
            by (nonlinear_arith)
            requires
                n as int == (ax as int) * ((FX_ONE as int) * (FX_ONE as int)),
                0 < ax <= 9223372036854775808,
        ;
    }
    while lo + 1 < hi
        invariant
            0 <= lo < hi <= 8796093022208,
            (lo as int) * (lo as int) * (lo as int) <= n as int,
            (n as int) < (hi as int) * (hi as int) * (hi as int),
        decreases hi - lo,
    {
        let mid: u128 = lo + (hi - lo) / 2;
        if cube_le(mid, n) {
            lo = mid;
        } else {
            hi = mid;
        }
    }
    proof {
        assert(is_icbrt(lo as int, n as int));
        lemma_icbrt_is(lo as int, n as int);
    }
    if neg {
        -(lo as i64)
    } else {
        lo as i64
    }
}

/// `k` is the position of the highest set bit of `n`.
pub open spec fn is_msb(k: int, n: int) -> bool {
    0 <= k && pow2(k as nat) <= n && n < pow2((k + 1) as nat)
}

/// The position of the highest set bit of `n` (meaningful for `n >= 1`).
pub open spec fn msb_of(n: int) -> int {
    choose|k: int| is_msb(k, n)
}

/// A highest-set-bit bracket determines the bit position.
pub proof fn lemma_msb_is(k: int, n: int)
    requires
        is_msb(k, n),
    ensures
        msb_of(n) == k,
{
    assert(is_msb(msb_of(n), n)) by {
        assert(exists|q: int| is_msb(q, n)) by {
            assert(is_msb(k, n));
        }
    }
    let k2 = msb_of(n);
    if k < k2 {
        if k + 1 < k2 {
            lemma_pow2_strictly_increases((k + 1) as nat, k2 as nat);
        }
        assert(false);
    }
    if k2 < k {
        if k2 + 1 < k {
            lemma_pow2_strictly_increases((k2 + 1) as nat, k as nat);
        }
        assert(false);
    }
}

/// 2^k as a `u64`.
pub fn pow2_u64(k: u64) -> (r: u64)
    requires
        k < 64,
    ensures
        r as nat == pow2(k as nat),
        r >= 1,
{
    let mut i: u64 = 0;
    let mut r: u64 = 1;
    proof {
        lemma2_to64();
    }
    while i < k
        invariant
            i <= k,
            k < 64,
            r as nat == pow2(i as nat),
        decreases k - i,
    {
        proof {
            lemma2_to64_rest();
            if (i as nat) < 63 {
                lemma_pow2_strictly_increases(i as nat, 63);
            }
            lemma_pow2_adds(i as nat, 1);
            lemma2_to64();
        }
        r = r * 2;
        i = i + 1;
    }
    proof {
        vstd::arithmetic::power2::lemma_pow2_pos(k as nat);
    }
    r
}

/// The position of the highest set bit.
pub fn msb64(n: u64) -> (k: u64)
    requires
        n >= 1,
    ensures
        is_msb(k as int, n as int),
        k == msb_of(n as int),
        k <= 63,
{
    let mut k: u64 = 0;
    let mut p: u64 = 1;
    proof {
        lemma2_to64();
    }
    while p <= n / 2
        invariant
            n >= 1,
            k <= 63,
            p as nat == pow2(k as nat),
            p <= n,
        decreases n - p,
    {
        proof {
            lemma2_to64_rest();
            if (k as nat) < 63 {
                lemma_pow2_strictly_increases(k as nat, 63);
            }
            assert(p <= n / 2);
            assert(2 * (n / 2) <= n) by {
                lemma_fundamental_div_mod(n as int, 2);
            }
            assert((k as nat) < 63) by {
                if k == 63 {
                    assert(p == 0x8000000000000000);
                    assert(2 * p <= n);
                    assert(false);
                }
            }
            lemma_pow2_adds(k as nat, 1);
            lemma2_to64();
        }
        p = p * 2;
        k = k + 1;
    }
    proof {
        assert(n / 2 < p);
        assert(n < 2 * p) by {
            lemma_fundamental_div_mod(n as int, 2);
        }
        lemma_pow2_adds(k as nat, 1);
        lemma2_to64();
        assert(is_msb(k as int, n as int));
        lemma_msb_is(k as int, n as int);
    }
    k
}

/// The fraction bits of the base-2 logarithm of a mantissa `m` scaled by
/// 2^62, extracted one bit per squaring, `i` bits in all.
pub open spec fn sp_log2_frac(m: int, i: nat) -> int
    decreases i,
{
    if i == 0 {
        0
    } else {
        let m2 = (m * m) / 4611686018427387904;
        if m2 >= 9223372036854775808 {
            pow2((i - 1) as nat) as int + sp_log2_frac(m2 / 2, (i - 1) as nat)
        } else {
            sp_log2_frac(m2, (i - 1) as nat)
        }
    }
}

fn log2_frac(m: u128, i: u64) -> (r: u64)
    requires
        i <= 32,
        4611686018427387904 <= m < 9223372036854775808,
    ensures
        r as int == sp_log2_frac(m as int, i as nat),
        (r as nat) < pow2(i as nat),
    decreases i,
{
    proof {
        lemma2_to64();
    }
    if i == 0 {
        return 0;
    }
    proof {
        assert((m as int) * (m as int) <= u128::MAX) by (nonlinear_arith)
            requires
                m < 9223372036854775808,
        ;
        assert((m as int) * (m as int) >= 4611686018427387904int * 4611686018427387904int)
            by (nonlinear_arith)
            requires
                m >= 4611686018427387904,
        ;
        assert(4611686018427387904int * 4611686018427387904int
            == 4611686018427387904int * 4611686018427387904int);
        lemma_div_is_ordered(
            4611686018427387904int * 4611686018427387904int,
            (m as int) * (m as int),
            4611686018427387904int,
        );
        lemma_div_multiples_vanish(4611686018427387904int, 4611686018427387904int);
    }
    let m2: u128 = (m * m) / 4611686018427387904;
    proof {
        assert(m2 >= 4611686018427387904);
        assert((m as int) * (m as int) < 9223372036854775808int * 9223372036854775808int)
            by (nonlinear_arith)
            requires
                m < 9223372036854775808,
        ;
        lemma_div_is_ordered(
            (m as int) * (m as int),
            9223372036854775808int * 9223372036854775808int - 1,
            4611686018427387904int,
        );
        assert((9223372036854775808int * 9223372036854775808int - 1) / 4611686018427387904int
            == 18446744073709551615int) by {
            lemma_fundamental_div_mod_converse(
                9223372036854775808int * 9223372036854775808int - 1,
                4611686018427387904int,
                18446744073709551615int,
                4611686018427387903int,
            );
        }
        assert(m2 <= 18446744073709551615);
    }
    if m2 >= 9223372036854775808 {
        let half: u128 = m2 / 2;
        let rest: u64 = log2_frac(half, i - 1);
        let b: u64 = pow2_u64(i - 1);
        proof {
            lemma_pow2_adds((i - 1) as nat, 1);
            lemma2_to64();
            assert((b as nat) + (rest as nat) < pow2(i as nat));
        }
        b + rest
    } else {
        log2_frac(m2, i - 1)
    }
}

/// Fixed-point base-2 logarithm; 0 for non-positive operands.
pub open spec fn sp_log2(x: int) -> int {
    if x <= 0 {
        0
    } else {
        let k = msb_of(x);
        (k - 32) * (FX_ONE as int) + sp_log2_frac(x * pow2((62 - k) as nat), 32)
    }
}

/// Fixed-point base-2 logarithm, 32 fraction bits by repeated squaring.
pub fn fx_log2(x: i64) -> (r: i64)
    ensures
        r as int == sp_log2(x as int),
{
    if x <= 0 {
        return 0;
    }
    let n: u64 = x as u64;
    let k: u64 = msb64(n);
    proof {
        lemma2_to64_rest();
        assert(k <= 62) by {
            if k == 63 {
                assert(pow2(63) <= n as nat);
                assert(false);
            }
        }
    }
    let p: u64 = pow2_u64(62 - k);
    proof {
        lemma_pow2_adds(k as nat, (62 - k) as nat);
        lemma_pow2_adds((k + 1) as nat, (62 - k) as nat);
        assert((n as int) * (p as int) >= pow2(k as nat) * (p as int)) by (nonlinear_arith)
            requires
                n as int >= pow2(k as nat),
                p as int >= 1,
        ;
        assert((n as int) * (p as int) < pow2((k + 1) as nat) * (p as int)) by (nonlinear_arith)
            requires
                (n as int) < pow2((k + 1) as nat),
                p as int >= 1,
        ;
        assert(pow2(k as nat) * pow2((62 - k) as nat) == pow2(62));
        assert(pow2((k + 1) as nat) * pow2((62 - k) as nat) == pow2(63));
    }
    let m: u128 = (n as u128) * (p as u128);
    let f: u64 = log2_frac(m, 32);
    let e: i64 = k as i64 - 32;
    proof {
        lemma2_to64();
        assert((f as nat) < pow2(32));
    }
    e * FX_ONE + f as i64
}

/// The constant 2^(2^(j - 32)) scaled by 2^62, for bit `j` of an exponent
/// fraction.
pub open spec fn sp_exp2_c(j: int) -> int {
    if j == 31 { 6521908912666391106 }
    else if j == 30 { 5484249825272419512 }
    else if j == 29 { 5029079263719320435 }
    else if j == 28 { 4815862801830788490 }
    else if j == 27 { 4712668792719003884 }
    else if j == 26 { 4661903986662671290 }
    else if j == 25 { 4636727017470743990 }
    else if j == 24 { 4624189567668517720 }
    else if j == 23 { 4617933561212708776 }
    else if j == 22 { 4614808732577250068 }
    else if j == 21 { 4613247111281068008 }
    else if j == 20 { 4612466498810092975 }
    else if j == 19 { 4612076242109103707 }
    else if j == 18 { 4611881126141011236 }
    else if j == 17 { 4611783571252412754 }
    else if j == 16 { 4611734794581956353 }
    else if j == 15 { 4611710406440186476 }
    else if j == 14 { 4611698212417665819 }
    else if j == 13 { 4611692115418496524 }
    else if j == 12 { 4611689066921934630 }
    else if j == 11 { 4611687542674409371 }
    else if j == 10 { 4611686780550835664 }
    else if j == 9 { 4611686399489096040 }
    else if j == 8 { 4611686208958238036 }
    else if j == 7 { 4611686113692811986 }
    else if j == 6 { 4611686066060099699 }
    else if j == 5 { 4611686042243743740 }
    else if j == 4 { 4611686030335565807 }
    else if j == 3 { 4611686024381476851 }
    else if j == 2 { 4611686021404432377 }
    else if j == 1 { 4611686019915910140 }
    else { 4611686019171649022 }
}

fn exp2_c(j: u64) -> (r: u64)
    requires
        j < 32,
    ensures
        r as int == sp_exp2_c(j as int),
        4611686018427387904 < r < 9223372036854775808,
{
    if j == 31 { 6521908912666391106 }
    else if j == 30 { 5484249825272419512 }
    else if j == 29 { 5029079263719320435 }
    else if j == 28 { 4815862801830788490 }
    else if j == 27 { 4712668792719003884 }
    else if j == 26 { 4661903986662671290 }
    else if j == 25 { 4636727017470743990 }
    else if j == 24 { 4624189567668517720 }
    else if j == 23 { 4617933561212708776 }
    else if j == 22 { 4614808732577250068 }
    else if j == 21 { 4613247111281068008 }
    else if j == 20 { 4612466498810092975 }
    else if j == 19 { 4612076242109103707 }
    else if j == 18 { 4611881126141011236 }
    else if j == 17 { 4611783571252412754 }
    else if j == 16 { 4611734794581956353 }
    else if j == 15 { 4611710406440186476 }
    else if j == 14 { 4611698212417665819 }
    else if j == 13 { 4611692115418496524 }
    else if j == 12 { 4611689066921934630 }
    else if j == 11 { 4611687542674409371 }
    else if j == 10 { 4611686780550835664 }
    else if j == 9 { 4611686399489096040 }
    else if j == 8 { 4611686208958238036 }
    else if j == 7 { 4611686113692811986 }
    else if j == 6 { 4611686066060099699 }
    else if j == 5 { 4611686042243743740 }
    else if j == 4 { 4611686030335565807 }
    else if j == 3 { 4611686024381476851 }
    else if j == 2 { 4611686021404432377 }
    else if j == 1 { 4611686019915910140 }
    else { 4611686019171649022 }
}

/// One multiplicative accumulation step per fraction bit of the exponent,
/// scaled by 2^62 and capped at 2^63.
pub open spec fn sp_exp2_frac(g: int, f: int, i: nat) -> int
    decreases i,
{
    if i == 0 {
        g
    } else {
        let j = (i - 1) as nat;
        let g2 = if (f / pow2(j) as int) % 2 == 1 {
            let t = (g * sp_exp2_c(j as int)) / 4611686018427387904;
            if t > 9223372036854775808 {
                9223372036854775808
            } else {
                t
            }
        } else {
            g
        };
        sp_exp2_frac(g2, f, j)
    }
}

fn exp2_frac(g: u128, f: u64, i: u64) -> (r: u128)
    requires
        i <= 32,
        f < 4294967296,
        4611686018427387904 <= g <= 9223372036854775808,
    ensures
        r as int == sp_exp2_frac(g as int, f as int, i as nat),
        4611686018427387904 <= r <= 9223372036854775808,
    decreases i,
{
    if i == 0 {
        return g;
    }
    let j: u64 = i - 1;
    let pj: u64 = pow2_u64(j);
    let g2: u128 = if (f / pj) % 2 == 1 {
        let c: u64 = exp2_c(j);
        proof {
            assert((g as int) * (c as int) <= u128::MAX) by (nonlinear_arith)
                requires
                    g <= 9223372036854775808,
                    c < 9223372036854775808,
            ;
            assert((g as int) * (c as int) >= (g as int) * 4611686018427387904int)
                by (nonlinear_arith)
                requires
                    c > 4611686018427387904,
                    g >= 0,
            ;
            lemma_div_is_ordered(
                (g as int) * 4611686018427387904int,
                (g as int) * (c as int),
                4611686018427387904int,
            );
            lemma_div_multiples_vanish(g as int, 4611686018427387904int);
        }
        let t: u128 = (g * (c as u128)) / 4611686018427387904;
        proof {
            assert(t >= g);
        }
        if t > 9223372036854775808 {
            9223372036854775808
        } else {
            t
        }
    } else {
        g
    };
    exp2_frac(g2, f, j)
}

/// Fixed-point base-2 exponential, saturating at the `i64` limits.
pub open spec fn sp_exp2(y: int) -> int {
    let k = y / (FX_ONE as int);
    let f = y % (FX_ONE as int);
    let g = sp_exp2_frac(4611686018427387904, f, 32);
    if k > 30 {
        sat64(g * pow2((k - 30) as nat))
    } else {
        sat64(g / pow2((30 - k) as nat) as int)
    }
}

/// Floor division and remainder of a fixed-point number by 1.0.
fn fx_floor_one(y: i64) -> (r: (i64, i64))
    ensures
        r.0 as int == (y as int) / (FX_ONE as int),
        r.1 as int == (y as int) % (FX_ONE as int),
        0 <= r.1 < FX_ONE,
{
    if y >= 0 {
        let uy: u64 = y as u64;
        let q: u64 = uy / 4294967296;
        let rem: u64 = uy % 4294967296;
        proof {
            lemma_fundamental_div_mod(uy as int, 4294967296int);
            lemma_fundamental_div_mod_converse(
                y as int,
                FX_ONE as int,
                q as int,
                rem as int,
            );
        }
        (q as i64, rem as i64)
    } else {
        let m: u128 = (-(y as i128)) as u128;
        let q: u128 = m / 4294967296;
        let rem: u128 = m % 4294967296;
        proof {
            lemma_fundamental_div_mod(m as int, 4294967296int);
        }
        if rem == 0 {
            proof {
                lemma_fundamental_div_mod_converse(
                    y as int,
                    FX_ONE as int,
                    -(q as int),
                    0,
                );
            }
            (-(q as i64), 0)
        } else {
            proof {
                lemma_fundamental_div_mod_converse(
                    y as int,
                    FX_ONE as int,
                    -(q as int) - 1,
                    FX_ONE as int - rem as int,
                );
            }
            (-(q as i64) - 1, FX_ONE - rem as i64)
        }
    }
}

/// Fixed-point base-2 exponential.
pub fn fx_exp2(y: i64) -> (r: i64)
    ensures
        r as int == sp_exp2(y as int),
        r >= 0,
{
    let (k, f) = fx_floor_one(y);
    let g: u128 = exp2_frac(4611686018427387904, f as u64, 32);
    proof {
        lemma2_to64();
        lemma2_to64_rest();
    }
    if k > 30 {
        proof {
            let e = ((k as int) - 30) as nat;
            if e > 1 {
                lemma_pow2_strictly_increases(1, e);
            }
            assert(pow2(e) >= 2);
            assert((g as int) * pow2(e) >= 9223372036854775808int) by (nonlinear_arith)
                requires
                    g >= 4611686018427387904,
                    pow2(e) >= 2,
            ;
        }
        i64::MAX
    } else if k < -33 {
        proof {
            let e = (30 - (k as int)) as nat;
            if e > 64 {
                lemma_pow2_strictly_increases(64, e);
            }
            assert(pow2(e) >= pow2(64));
            assert((g as int) / pow2(e) as int == 0) by {
                lemma_div_is_ordered(g as int, pow2(64) as int - 1, pow2(e) as int);
                vstd::arithmetic::div_mod::lemma_basic_div(
                    pow2(64) as int - 1,
                    pow2(e) as int,
                );
            }
        }
        0
    } else {
        let e: u64 = (30 - k) as u64;
        let d: u64 = pow2_u64(e);
        let q: u128 = g / (d as u128);
        proof {
            vstd::arithmetic::div_mod::lemma_div_nonincreasing(g as int, d as int);
        }
        if q > 9223372036854775807 {
            i64::MAX
        } else {
            q as i64
        }
    }
}

/// Fixed-point power function: `x^y` as `exp2(y * log2 x)`; 0 for
/// non-positive bases.
pub open spec fn sp_pow(x: int, y: int) -> int {
    if x <= 0 {
        0
    } else {
        sp_exp2(sp_mul(y, sp_log2(x)))
    }
}

/// Fixed-point power function.
pub fn fx_pow(x: i64, y: i64) -> (r: i64)
    ensures
        r as int == sp_pow(x as int, y as int),
        r >= 0,
{
    if x <= 0 {
        0
    } else {
        fx_exp2(crate::fixed::fx_mul(y, fx_log2(x)))
    }
}

/// The natural logarithm of 2, scaled by 2^32.
pub const FX_LN_2: i64 = 2977044472;

/// The base-2 logarithm of e, scaled by 2^32.
pub const FX_LOG2_E: i64 = 6196328019;

/// Fixed-point natural logarithm: `ln 2 * log2 x`; 0 for non-positive
/// operands.
pub open spec fn sp_ln(x: int) -> int {
    sp_mul(FX_LN_2 as int, sp_log2(x))
}

/// Fixed-point natural logarithm.
pub fn fx_ln(x: i64) -> (r: i64)
    ensures
        r as int == sp_ln(x as int),
{
    crate::fixed::fx_mul(FX_LN_2, fx_log2(x))
}

/// Fixed-point natural exponential: `exp2(x * log2 e)`.
pub open spec fn sp_exp(x: int) -> int {
    sp_exp2(sp_mul(FX_LOG2_E as int, x))
}

/// Fixed-point natural exponential.
pub fn fx_exp(x: i64) -> (r: i64)
    ensures
        r as int == sp_exp(x as int),
        r >= 0,
{
    fx_exp2(crate::fixed::fx_mul(FX_LOG2_E, x))
}

} // verus!
