//! Fixed-point scalar arithmetic.
//!
//! Every coordinate in this crate is a signed 64-bit fixed-point number with
//! 16 fractional bits: the stored integer `v` stands for the real number
//! `v / SCALE`.  All operations round toward zero, and each executable
//! operation is specified exactly by the spec functions below.

use vstd::prelude::*;
use vstd::arithmetic::div_mod::{
    lemma_div_is_ordered, lemma_div_nonincreasing, lemma_div_pos_is_pos,
};

verus! {

/// One fixed-point unit: the representation of the real number 1.0.
pub const SCALE: i64 = 65536;

/// Absolute value of a mathematical integer.
pub open spec fn sabs(x: int) -> int {
    if x < 0 {
        -x
    } else {
        x
    }
}

/// Integer division truncating toward zero: the rounding used by `/` on
/// Rust's machine integers.
pub open spec fn tdiv(p: int, q: int) -> int {
    if (p < 0) == (q < 0) {
        sabs(p) / sabs(q)
    } else {
        -(sabs(p) / sabs(q))
    }
}

/// Product of two fixed-point scalars.
pub open spec fn fxmul(a: int, b: int) -> int {
    tdiv(a * b, SCALE as int)
}

/// Quotient of two fixed-point scalars.
pub open spec fn fxdiv(p: int, q: int) -> int {
    tdiv(p * (SCALE as int), q)
}

/// Floor of the square root of a natural number.
pub open spec fn isqrt(n: nat) -> nat
    decreases n,
{
    if n == 0 {
        0
    } else {
        let r = 2 * isqrt(n / 4);
        if (r + 1) * (r + 1) <= n {
            r + 1
        } else {
            r
        }
    }
}

/// Square root of a nonnegative fixed-point scalar.
pub open spec fn fxsqrt(v: int) -> int {
    isqrt((v * (SCALE as int)) as nat) as int
}

/// Whether a mathematical integer is representable as an `i64`.
pub open spec fn fits64(x: int) -> bool {
    i64::MIN <= x && x <= i64::MAX
}

/// `isqrt` returns exactly the floor of the square root.
pub proof fn lemma_isqrt(n: nat)
    ensures
        isqrt(n) * isqrt(n) <= n,
        n < (isqrt(n) + 1) * (isqrt(n) + 1),
    decreases n,
{
    if n == 0 {
        assert(n < (isqrt(n) + 1) * (isqrt(n) + 1)) by (nonlinear_arith)
            requires
                n == 0,
                isqrt(n) == 0,
        ;
    } else {
        let s = isqrt(n / 4);
        lemma_isqrt(n / 4);
        let r = 2 * s;
        assert(n == 4 * (n / 4) + n % 4);
        assert(0 <= n % 4 < 4);
        if (r + 1) * (r + 1) <= n {
            assert(isqrt(n) == r + 1);
            assert(isqrt(n) * isqrt(n) <= n) by (nonlinear_arith)
                requires
                    isqrt(n) == r + 1,
                    (r + 1) * (r + 1) <= n,
            ;
            assert(n < (isqrt(n) + 1) * (isqrt(n) + 1)) by (nonlinear_arith)
                requires
                    isqrt(n) == r + 1,
                    r == 2 * s,
                    n / 4 < (s + 1) * (s + 1),
                    n <= 4 * (n / 4) + 3,
                    0 <= n / 4,
                    0 <= s,
            ;
        } else {
            assert(isqrt(n) == r);
            assert(isqrt(n) * isqrt(n) <= n) by (nonlinear_arith)
                requires
                    isqrt(n) == r,
                    r == 2 * s,
                    s * s <= n / 4,
                    4 * (n / 4) <= n,
                    0 <= s,
            ;
            assert(n < (isqrt(n) + 1) * (isqrt(n) + 1)) by (nonlinear_arith)
                requires
                    isqrt(n) == r,
                    n < (r + 1) * (r + 1),
            ;
        }
    }
}

/// The floor of the square root is the only `r` with `r^2 <= n < (r+1)^2`.
pub proof fn lemma_isqrt_unique(n: nat, r: nat)
    requires
        r * r <= n,
        n < (r + 1) * (r + 1),
    ensures
        r == isqrt(n),
{
    let s = isqrt(n);
    lemma_isqrt(n);
    if r < s {
        assert((r + 1) * (r + 1) <= s * s) by (nonlinear_arith)
            requires
                r + 1 <= s,
                0 <= r,
        ;
    }
    if s < r {
        assert((s + 1) * (s + 1) <= r * r) by (nonlinear_arith)
            requires
                s + 1 <= r,
                0 <= s,
        ;
    }
}

/// Magnitude of a truncating quotient: the quotient of the magnitudes.
pub proof fn lemma_tdiv_abs(p: int, q: int)
    requires
        q != 0,
    ensures
        sabs(tdiv(p, q)) == sabs(p) / sabs(q),
        sabs(tdiv(p, q)) <= sabs(p),
{
    lemma_div_pos_is_pos(sabs(p), sabs(q));
    lemma_div_nonincreasing(sabs(p), sabs(q));
}

/// A bound on both factors bounds a fixed-point product.
pub proof fn lemma_fxmul_bound(a: int, b: int, ba: int, bb: int)
    requires
        sabs(a) <= ba,
        sabs(b) <= bb,
    ensures
        sabs(fxmul(a, b)) <= (ba * bb) / (SCALE as int),
{
    assert(sabs(a * b) <= ba * bb) by (nonlinear_arith)
        requires
            sabs(a) <= ba,
            sabs(b) <= bb,
    ;
    lemma_tdiv_abs(a * b, SCALE as int);
    lemma_div_is_ordered(sabs(a * b), ba * bb, SCALE as int);
}

/// Dividing an exact multiple truncates nothing.
pub proof fn lemma_tdiv_exact(k: int, q: int)
    requires
        q > 0,
    ensures
        tdiv(k * q, q) == k,
{
    lemma_sabs_mul(k, q);
    vstd::arithmetic::div_mod::lemma_div_multiples_vanish(sabs(k), q);
    assert(sabs(k) * q == q * sabs(k)) by (nonlinear_arith);
    assert((k * q < 0) == (k < 0)) by (nonlinear_arith)
        requires
            q > 0,
    ;
}

/// A common positive factor of numerator and denominator cancels.
pub proof fn lemma_tdiv_cancel(k: int, p: int, q: int)
    requires
        k > 0,
        q != 0,
    ensures
        tdiv(k * p, k * q) == tdiv(p, q),
{
    lemma_sabs_mul(k, p);
    lemma_sabs_mul(k, q);
    vstd::arithmetic::div_mod::lemma_div_denominator(k * sabs(p), k, sabs(q));
    vstd::arithmetic::div_mod::lemma_div_multiples_vanish(sabs(p), k);
    assert(k * sabs(p) / k == sabs(p));
    assert((k * p < 0) == (p < 0) && (k * q < 0) == (q < 0)) by (nonlinear_arith)
        requires
            k > 0,
            q != 0,
    ;
}

/// Truncating division by a positive divisor is monotone in the numerator.
pub proof fn lemma_tdiv_ordered(p1: int, p2: int, q: int)
    requires
        p1 <= p2,
        q > 0,
    ensures
        tdiv(p1, q) <= tdiv(p2, q),
{
    if 0 <= p1 {
        lemma_div_is_ordered(p1, p2, q);
    } else if p2 < 0 {
        lemma_div_is_ordered(-p2, -p1, q);
    } else {
        lemma_div_pos_is_pos(-p1, q);
        lemma_div_pos_is_pos(p2, q);
    }
}

/// An exact divisor splits off without truncation.
pub proof fn lemma_tdiv_divides(x: int, p: int)
    requires
        p > 0,
        x % p == 0,
    ensures
        x == tdiv(x, p) * p,
{
    vstd::arithmetic::div_mod::lemma_fundamental_div_mod(x, p);
    if x >= 0 {
        assert(tdiv(x, p) == x / p);
        assert(p * (x / p) == (x / p) * p) by (nonlinear_arith);
    } else {
        assert((-x) == p * (-(x / p))) by (nonlinear_arith)
            requires
                x == p * (x / p),
        ;
        vstd::arithmetic::div_mod::lemma_div_multiples_vanish(-(x / p), p);
        assert(tdiv(x, p) == -((-x) / p));
        assert(p * (x / p) == (x / p) * p) by (nonlinear_arith);
    }
}

/// Multiplying a whole number of units by any scalar is exact.
pub proof fn lemma_fxmul_whole(k: int, b: int)
    ensures
        fxmul(k * (SCALE as int), b) == k * b,
{
    assert(k * (SCALE as int) * b == (k * b) * (SCALE as int)) by (nonlinear_arith);
    lemma_tdiv_exact(k * b, SCALE as int);
}

/// The magnitude of a product is the product of the magnitudes.
pub proof fn lemma_sabs_mul(a: int, b: int)
    ensures
        sabs(a * b) == sabs(a) * sabs(b),
{
    assert(sabs(a * b) == sabs(a) * sabs(b)) by (nonlinear_arith);
}

/// A fixed-point square is never negative.
pub proof fn lemma_fxmul_self_nonneg(x: int)
    ensures
        0 <= fxmul(x, x),
{
    assert(0 <= x * x) by (nonlinear_arith);
    lemma_div_pos_is_pos(x * x, SCALE as int);
}

/// Division truncating toward zero, on wide signed integers.
pub fn tdiv_i128(p: i128, q: i128) -> (r: i128)
    requires
        q != 0,
        p > i128::MIN,
        q > i128::MIN,
    ensures
        r as int == tdiv(p as int, q as int),
        sabs(r as int) <= sabs(p as int),
{
    let pneg: bool = p < 0;
    let qneg: bool = q < 0;
    let pm: u128 = if pneg {
        (-p) as u128
    } else {
        p as u128
    };
    let qm: u128 = if qneg {
        (-q) as u128
    } else {
        q as u128
    };
    let d: u128 = pm / qm;
    proof {
        lemma_div_nonincreasing(pm as int, qm as int);
    }
    if pneg == qneg {
        d as i128
    } else {
        -(d as i128)
    }
}

/// Fixed-point product, exact in a wide integer.
pub fn fx_mul_wide(a: i64, b: i64) -> (r: i128)
    ensures
        r as int == fxmul(a as int, b as int),
        sabs(r as int) <= sabs((a as int) * (b as int)),
{
    proof {
        assert(sabs((a as int) * (b as int)) < 0x8000_0000_0000_0000_0000_0000_0000_0000)
            by (nonlinear_arith)
            requires
                -0x8000_0000_0000_0000 <= (a as int) && (a as int) <= 0x7fff_ffff_ffff_ffff,
                -0x8000_0000_0000_0000 <= (b as int) && (b as int) <= 0x7fff_ffff_ffff_ffff,
        ;
    }
    let p: i128 = (a as i128) * (b as i128);
    tdiv_i128(p, 65536)
}

/// Fixed-point product, narrowed to an `i64`.
pub fn fx_mul(a: i64, b: i64) -> (r: i64)
    requires
        fits64(fxmul(a as int, b as int)),
    ensures
        r as int == fxmul(a as int, b as int),
{
    let w = fx_mul_wide(a, b);
    w as i64
}

/// Fixed-point quotient of a wide numerator; `None` when the result does not
/// fit in an `i64`.
pub fn fx_div_wide(p: i128, q: i128) -> (r: Option<i64>)
    requires
        q != 0,
        q > i128::MIN,
        sabs(p as int) <= 0x4000_0000_0000_0000_0000_0000_0000,
    ensures
        r is Some <==> fits64(fxdiv(p as int, q as int)),
        r matches Some(v) ==> v as int == fxdiv(p as int, q as int),
{
    let num: i128 = p * 65536;
    let w: i128 = tdiv_i128(num, q);
    if -0x8000_0000_0000_0000i128 <= w && w <= 0x7fff_ffff_ffff_ffffi128 {
        Some(w as i64)
    } else {
        None
    }
}

/// Fixed-point quotient of two scalars; `None` when the result does not fit.
pub fn fx_div(p: i64, q: i64) -> (r: Option<i64>)
    requires
        q != 0,
    ensures
        r is Some <==> fits64(fxdiv(p as int, q as int)),
        r matches Some(v) ==> v as int == fxdiv(p as int, q as int),
{
    fx_div_wide(p as i128, q as i128)
}

/// Fixed-point quotient that is known to fit in an `i64`.
pub fn fx_div_exact(p: i64, q: i64) -> (r: i64)
    requires
        q != 0,
        fits64(fxdiv(p as int, q as int)),
    ensures
        r as int == fxdiv(p as int, q as int),
{
    match fx_div(p, q) {
        Some(v) => v,
        None => {
            proof {
                assert(false);
            }
            0
        },
    }
}

/// Floor of the square root, by bisection.
pub fn isqrt_u128(n: u128) -> (r: u128)
    ensures
        r as nat == isqrt(n as nat),
        (r as int) * (r as int) <= n as int,
        (n as int) < ((r as int) + 1) * ((r as int) + 1),
{
    let mut lo: u128 = 0;
    let mut hi: u128 = 0x1_0000_0000_0000_0000;
    assert((n as int) < (hi as int) * (hi as int)) by (nonlinear_arith)
        requires
            (hi as int) == 0x1_0000_0000_0000_0000,
            (n as int) <= 0xffff_ffff_ffff_ffff_ffff_ffff_ffff_ffff,
    ;
    while lo + 1 < hi
        invariant
            lo < hi <= 0x1_0000_0000_0000_0000,
            (lo as int) * (lo as int) <= n as int,
            (n as int) < (hi as int) * (hi as int),
        decreases hi - lo,
    {
        let mid: u128 = lo + (hi - lo) / 2;
        assert((mid as int) * (mid as int) < 0x1_0000_0000_0000_0000_0000_0000_0000_0000)
            by (nonlinear_arith)
            requires
                0 <= (mid as int) && (mid as int) <= 0xffff_ffff_ffff_ffff,
        ;
        if mid * mid <= n {
            lo = mid;
        } else {
            hi = mid;
        }
    }
    proof {
        lemma_isqrt_unique(n as nat, lo as nat);
    }
    lo
}

/// Square root of a nonnegative fixed-point scalar.
pub fn fx_sqrt(v: i64) -> (r: i64)
    requires
        v >= 0,
    ensures
        r as int == fxsqrt(v as int),
        0 <= r,
        (r as int) * (r as int) <= (v as int) * (SCALE as int),
{
    let n: u128 = (v as u128) * 65536;
    let s = isqrt_u128(n);
    proof {
        assert((s as int) < 0x100_0000_0000) by (nonlinear_arith)
            requires
                (s as int) * (s as int) <= n as int,
                (n as int) < 0x8000_0000_0000_0000_0000,
                0 <= (s as int),
        ;
    }
    s as i64
}

} // verus!
