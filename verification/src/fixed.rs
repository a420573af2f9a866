//! Fixed-point arithmetic on micro-units.
//!
//! A value `v: i64` stands for the real number `v / 1_000_000`. Products are
//! formed in `i128` and divided back down by the scale with truncation toward
//! zero, the same rounding that hardware division applies; quotients are
//! rescaled the opposite way. An exact integer square root supports vector
//! lengths.

use vstd::arithmetic::div_mod::lemma_div_is_ordered;
use vstd::arithmetic::div_mod::lemma_div_multiples_vanish;
use vstd::prelude::*;

verus! {

/// Number of micro-units in one whole unit.
pub const SCALE: i64 = 1_000_000;

/// Quotient of `a / b` rounded toward zero (the semantics of hardware
/// division), written over the mathematical integers.
pub open spec fn trunc_div(a: int, b: int) -> int {
    if a >= 0 {
        a / b
    } else {
        -((-a) / b)
    }
}

/// The value of a fixed-point product: `(a * b) / SCALE`, rounded toward zero.
pub open spec fn fx_mul_val(a: int, b: int) -> int {
    trunc_div(a * b, SCALE as int)
}

/// The value of a fixed-point quotient: `(a * SCALE) / b`, rounded toward zero.
pub open spec fn fx_div_val(a: int, b: int) -> int {
    trunc_div(a * SCALE, b)
}

/// `x` forced into `[lo, hi]`.
pub open spec fn clamp_val(x: int, lo: int, hi: int) -> int {
    if x < lo {
        lo
    } else if x > hi {
        hi
    } else {
        x
    }
}

/// Truncating division shrinks magnitudes: a bound on the dividend gives the
/// divided bound on the quotient.
pub proof fn lemma_trunc_div_bounds(p: int, d: int, m: int)
    requires
        d > 0,
        0 <= m,
        -m <= p <= m,
    ensures
        -(m / d) <= trunc_div(p, d) <= m / d,
{
    if p >= 0 {
        lemma_div_is_ordered(p, m, d);
        lemma_div_is_ordered(0, p, d);
    } else {
        lemma_div_is_ordered(-p, m, d);
        lemma_div_is_ordered(0, -p, d);
    }
}

/// If the dividend is at most `q` multiples of the divisor, the truncated
/// quotient is at most `q`.
pub proof fn lemma_trunc_div_le_factor(p: int, d: int, q: int)
    requires
        d > 0,
        0 <= q,
        -(q * d) <= p <= q * d,
    ensures
        -q <= trunc_div(p, d) <= q,
{
    lemma_div_multiples_vanish(q, d);
    assert(q * d == d * q);
    lemma_trunc_div_bounds(p, d, q * d);
}

/// A fixed-point product of factors bounded in magnitude stays within the
/// scaled product of the bounds.
pub proof fn lemma_fx_mul_val_bounds(a: int, b: int, ma: int, mb: int)
    requires
        -ma <= a <= ma,
        -mb <= b <= mb,
    ensures
        -((ma * mb) / (SCALE as int)) <= fx_mul_val(a, b) <= (ma * mb) / (SCALE as int),
{
    assert(-(ma * mb) <= a * b <= ma * mb && 0 <= ma * mb) by (nonlinear_arith)
        requires
            -ma <= a <= ma,
            -mb <= b <= mb,
    ;
    lemma_trunc_div_bounds(a * b, SCALE as int, ma * mb);
}

/// Unsigned division helper: quotient on `u128`, which is already truncating.
fn udiv128(a: u128, b: u128) -> (q: u128)
    requires
        b > 0,
    ensures
        q == a as int / b as int,
{
    a / b
}

/// Truncating division of a signed 128-bit value by a positive divisor,
/// carried out on magnitudes so the rounding is explicit.
fn tdiv128(p: i128, d: i128) -> (q: i128)
    requires
        d > 0,
        p > i128::MIN,
    ensures
        q == trunc_div(p as int, d as int),
{
    if p >= 0 {
        let q: u128 = udiv128(p as u128, d as u128);
        proof {
            lemma_div_is_ordered(p as int, i128::MAX as int, d as int);
            lemma_div_is_ordered(0, p as int, d as int);
        }
        q as i128
    } else {
        let q: u128 = udiv128((-p) as u128, d as u128);
        proof {
            lemma_div_is_ordered(-(p as int), i128::MAX as int, d as int);
            lemma_div_is_ordered(0, -(p as int), d as int);
        }
        -(q as i128)
    }
}

/// Fixed-point multiplication. The product is formed exactly in `i128`
/// and scaled back down, so no intermediate overflow can occur as long as
/// the final quotient fits an `i64`.
pub fn fx_mul(a: i64, b: i64) -> (r: i64)
    requires
        i64::MIN < fx_mul_val(a as int, b as int) <= i64::MAX,
    ensures
        r == fx_mul_val(a as int, b as int),
{
    let p: i128 = (a as i128) * (b as i128);
    let q: i128 = tdiv128(p, SCALE as i128);
    q as i64
}

/// Fixed-point division by a positive divisor: `(a * SCALE) / b`, truncated.
pub fn fx_div(a: i64, b: i64) -> (r: i64)
    requires
        b > 0,
        i64::MIN < fx_div_val(a as int, b as int) <= i64::MAX,
    ensures
        r == fx_div_val(a as int, b as int),
{
    let p: i128 = (a as i128) * (SCALE as i128);
    let q: i128 = tdiv128(p, b as i128);
    q as i64
}

/// Division of a nonnegative value by a positive one, carried out unsigned.
pub fn div_pos(a: i64, d: i64) -> (q: i64)
    requires
        a >= 0,
        d > 0,
    ensures
        q == a as int / d as int,
        0 <= q <= a,
{
    let q: u64 = (a as u64) / (d as u64);
    proof {
        lemma_div_is_ordered(0, a as int, d as int);
        vstd::arithmetic::div_mod::lemma_div_nonincreasing(a as int, d as int);
    }
    q as i64
}

/// `x` forced into `[lo, hi]`.
pub fn clamp_fx(x: i64, lo: i64, hi: i64) -> (r: i64)
    requires
        lo <= hi,
    ensures
        r == clamp_val(x as int, lo as int, hi as int),
        lo <= r <= hi,
{
    if x < lo {
        lo
    } else if x > hi {
        hi
    } else {
        x
    }
}

/// The integer square root, as a recurrence: it steps up by one exactly when
/// the next square still fits.
pub open spec fn isqrt_val(n: nat) -> nat
    decreases n,
{
    if n == 0 {
        0
    } else {
        let r = isqrt_val((n - 1) as nat);
        if (r + 1) * (r + 1) <= n {
            r + 1
        } else {
            r
        }
    }
}

/// `isqrt_val(n)` is the floor of the square root of `n`.
pub proof fn lemma_isqrt_val_bounds(n: nat)
    ensures
        isqrt_val(n) * isqrt_val(n) <= n < (isqrt_val(n) + 1) * (isqrt_val(n) + 1),
    decreases n,
{
    if n == 0 {
        let s = isqrt_val(n);
        assert(s == 0);
        assert(s * s <= n) by (nonlinear_arith)
            requires
                s == 0,
        ;
        assert(n < (s + 1) * (s + 1)) by (nonlinear_arith)
            requires
                s == 0,
                n == 0,
        ;
    } else {
        lemma_isqrt_val_bounds((n - 1) as nat);
        let r = isqrt_val((n - 1) as nat);
        if (r + 1) * (r + 1) <= n {
            assert(isqrt_val(n) == r + 1);
            assert(n == (r + 1) * (r + 1));
            assert((r + 1) * (r + 1) < (r + 2) * (r + 2)) by (nonlinear_arith);
            assert(isqrt_val(n) * isqrt_val(n) <= n < (isqrt_val(n) + 1) * (isqrt_val(n) + 1));
        } else {
            assert(isqrt_val(n) == r);
            assert(r * r <= n - 1);
            assert(isqrt_val(n) * isqrt_val(n) <= n < (isqrt_val(n) + 1) * (isqrt_val(n) + 1));
        }
    }
}

/// The floor of the square root is the only number whose square brackets `n`.
pub proof fn lemma_isqrt_unique(n: nat, r: nat)
    requires
        r * r <= n < (r + 1) * (r + 1),
    ensures
        r == isqrt_val(n),
{
    let s = isqrt_val(n);
    lemma_isqrt_val_bounds(n);
    if r < s {
        assert((r + 1) * (r + 1) <= s * s) by (nonlinear_arith)
            requires
                r + 1 <= s,
        ;
    }
    if s < r {
        assert((s + 1) * (s + 1) <= r * r) by (nonlinear_arith)
            requires
                s + 1 <= r,
        ;
    }
}

/// Integer square root by binary search on the root.
pub fn isqrt_u128(n: u128) -> (r: u64)
    ensures
        r * r <= n < (r + 1) * (r + 1),
        r == isqrt_val(n as nat),
{
    let mut lo: u128 = 0;
    let mut hi: u128 = 0xffff_ffff_ffff_ffff;
    proof {
        assert((hi + 1) * (hi + 1) > u128::MAX) by (nonlinear_arith)
            requires
                hi == 0xffff_ffff_ffff_ffffu128,
        ;
    }
    while lo < hi
        invariant
            lo <= hi <= 0xffff_ffff_ffff_ffff,
            lo * lo <= n,
            n < (hi + 1) * (hi + 1),
        decreases hi - lo,
    {
        let mid: u128 = lo + (hi - lo + 1) / 2;
        proof {
            assert(mid * mid <= u128::MAX) by (nonlinear_arith)
                requires
                    mid <= 0xffff_ffff_ffff_ffffu128,
            ;
        }
        if mid * mid <= n {
            lo = mid;
        } else {
            hi = mid - 1;
        }
    }
    proof {
        lemma_isqrt_unique(n as nat, lo as nat);
    }
    lo as u64
}

} // verus!
