//! Scalar fixed-point arithmetic: raw `i64` values denote multiples of
//! `1 / SCALE`. All operations saturate into `[-SCALAR_MAX, SCALAR_MAX]`,
//! and quotients truncate toward zero, so every scalar function is total
//! and deterministic.

use vstd::prelude::*;

verus! {

/// Number of raw units per 1.0: raw value `v` denotes the real `v / SCALE`.
pub const SCALE: i64 = 65536;

/// The single process-wide zero threshold (raw units) that governs every
/// degeneracy check in this crate.
pub const ZERO_TRESHOLD: i64 = 64;

/// Largest raw magnitude a scalar may take; results saturate here.
pub const SCALAR_MAX: i64 = 140737488355328;

/// Absolute value over `int`.
pub open spec fn abs_i(a: int) -> int {
    if a >= 0 {
        a
    } else {
        -a
    }
}

/// Scalar range invariant: every stored scalar stays within it.
pub open spec fn in_range(a: int) -> bool {
    -(SCALAR_MAX as int) <= a <= SCALAR_MAX as int
}

/// Saturate an unbounded integer into the scalar range.
pub open spec fn clamp_s(a: int) -> int {
    if a > SCALAR_MAX as int {
        SCALAR_MAX as int
    } else if a < -(SCALAR_MAX as int) {
        -(SCALAR_MAX as int)
    } else {
        a
    }
}

/// Quotient truncated toward zero (the semantics of Rust's `/`).
pub open spec fn tdiv(a: int, b: int) -> int
    recommends
        b != 0,
{
    if (a >= 0) == (b >= 0) {
        abs_i(a) / abs_i(b)
    } else {
        -(abs_i(a) / abs_i(b))
    }
}

/// Fixed-point product of two raw scalars.
pub open spec fn fxmul(a: int, b: int) -> int {
    clamp_s(tdiv(a * b, SCALE as int))
}

/// Fixed-point quotient of two raw scalars; a zero divisor saturates by the
/// dividend's sign (degenerate geometry never panics).
pub open spec fn fxdiv(a: int, b: int) -> int {
    if b == 0 {
        if a > 0 {
            SCALAR_MAX as int
        } else if a < 0 {
            -(SCALAR_MAX as int)
        } else {
            0
        }
    } else {
        clamp_s(tdiv(a * (SCALE as int), b))
    }
}

/// `r` is the integer square root of `n` (truncating).
pub open spec fn is_sqrt(n: int, r: int) -> bool {
    0 <= r && r * r <= n && n < (r + 1) * (r + 1)
}

/// The integer square root, as a function; unique by `lemma_sqrt_unique`.
pub open spec fn sqrt_i(n: int) -> int {
    choose|r: int| is_sqrt(n, r)
}

/// Two integer square roots of the same value coincide.
pub proof fn lemma_sqrt_unique(n: int, r1: int, r2: int)
    requires
        is_sqrt(n, r1),
        is_sqrt(n, r2),
    ensures
        r1 == r2,
{
    if r1 < r2 {
        assert((r1 + 1) * (r1 + 1) <= r2 * r2) by (nonlinear_arith)
            requires
                0 <= r1,
                r1 < r2,
        ;
    }
    if r2 < r1 {
        assert((r2 + 1) * (r2 + 1) <= r1 * r1) by (nonlinear_arith)
            requires
                0 <= r2,
                r2 < r1,
        ;
    }
}

/// A witness pins `sqrt_i` down.
pub proof fn lemma_sqrt_of(n: int, r: int)
    requires
        is_sqrt(n, r),
    ensures
        sqrt_i(n) == r,
        is_sqrt(n, sqrt_i(n)),
{
    assert(is_sqrt(n, sqrt_i(n))) by {
        assert(exists|q: int| is_sqrt(n, q)) by {
            assert(is_sqrt(n, r));
        }
    }
    lemma_sqrt_unique(n, r, sqrt_i(n));
}

/// Bound on a product from bounds on its factors.
pub proof fn lemma_abs_mul_le(a: int, b: int, m: int)
    requires
        abs_i(a) <= m,
        abs_i(b) <= m,
        0 <= m,
    ensures
        abs_i(a * b) <= m * m,
{
    assert(abs_i(a * b) <= m * m) by (nonlinear_arith)
        requires
            abs_i(a) <= m,
            abs_i(b) <= m,
            0 <= m,
    ;
}

/// Exact widening product of two raw scalars.
pub fn mul_wide(a: i64, b: i64) -> (r: i128)
    ensures
        r as int == (a as int) * (b as int),
        i128::MIN < r,
{
    proof {
        assert((a as int) * (b as int) < i128::MAX && (a as int) * (b as int) > i128::MIN)
            by (nonlinear_arith)
            requires
                i64::MIN <= a <= i64::MAX,
                i64::MIN <= b <= i64::MAX,
        ;
    }
    (a as i128) * (b as i128)
}

/// Fixed-point product, as executable code.
pub fn fx_mul(a: i64, b: i64) -> (r: i64)
    ensures
        r as int == fxmul(a as int, b as int),
{
    let p: i128 = mul_wide(a, b);
    clamp_i128(div_trunc(p, SCALE as i128))
}

/// Fixed-point quotient, as executable code.
pub fn fx_div(a: i64, b: i64) -> (r: i64)
    ensures
        r as int == fxdiv(a as int, b as int),
{
    if b == 0 {
        if a > 0 {
            SCALAR_MAX
        } else if a < 0 {
            -SCALAR_MAX
        } else {
            0
        }
    } else {
        let p: i128 = mul_wide(a, SCALE);
        clamp_i128(div_trunc(p, b as i128))
    }
}

/// Saturation into range, as executable code on a wide intermediate.
pub fn clamp_i128(a: i128) -> (r: i64)
    ensures
        r as int == clamp_s(a as int),
{
    if a > SCALAR_MAX as i128 {
        SCALAR_MAX
    } else if a < -(SCALAR_MAX as i128) {
        -SCALAR_MAX
    } else {
        a as i64
    }
}

/// Truncating division on wide intermediates, computed by sign splitting.
pub fn div_trunc(a: i128, b: i128) -> (r: i128)
    requires
        b != 0,
        a != i128::MIN,
        b != i128::MIN,
    ensures
        r as int == tdiv(a as int, b as int),
{
    let ua: u128 = if a >= 0 {
        a as u128
    } else {
        (-a) as u128
    };
    let ub: u128 = if b >= 0 {
        b as u128
    } else {
        (-b) as u128
    };
    assert(ua as int == abs_i(a as int));
    assert(ub as int == abs_i(b as int));
    let q: u128 = ua / ub;
    assert(q <= ua) by (nonlinear_arith)
        requires
            ub >= 1,
            q == ua / ub,
    ;
    if (a >= 0) == (b >= 0) {
        q as i128
    } else {
        -(q as i128)
    }
}

/// Integer square root by bisection.
pub fn isqrt(n: u128) -> (r: u128)
    ensures
        is_sqrt(n as int, r as int),
{
    let mut lo: u128 = 0;
    let mut hi: u128 = 18446744073709551616;
    assert((hi as int) * (hi as int) > n as int) by (nonlinear_arith)
        requires
            hi == 18446744073709551616u128,
            n <= 340282366920938463463374607431768211455u128,
    ;
    while lo + 1 < hi
        invariant
            lo < hi,
            hi <= 18446744073709551616,
            (lo as int) * (lo as int) <= n as int,
            (n as int) < (hi as int) * (hi as int),
        decreases hi - lo,
    {
        let mid: u128 = lo + (hi - lo) / 2;
        assert(lo < mid && mid < hi);
        assert((mid as int) * (mid as int) < 340282366920938463463374607431768211455int)
            by (nonlinear_arith)
            requires
                mid < 18446744073709551616u128,
        ;
        if mid * mid <= n {
            lo = mid;
        } else {
            hi = mid;
        }
    }
    lo
}

} // verus!
