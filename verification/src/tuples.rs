//! Homogeneous tuples: points and vectors.
//!
//! A tuple holds four fixed-point components `(x, y, z, w)`; `w == SCALE`
//! marks a point and `w == 0` marks a vector.

use vstd::prelude::*;
use crate::fixed::{
    fits64, fx_div_exact, fx_mul, fx_mul_wide, fx_sqrt, fxdiv, fxmul, fxsqrt, lemma_fxmul_bound, tdiv,
    lemma_fxmul_self_nonneg, lemma_sabs_mul, lemma_tdiv_abs, sabs, SCALE,
};
use crate::MathError;

verus! {

/// Tolerance of the approximate comparisons, in fixed-point units.
pub const EPSILON: i64 = 2;

/// Largest component magnitude accepted by the product-forming operations:
/// with components this small no intermediate value can leave `i64`.
pub const MUL_LIMIT: i64 = 0x40_0000_0000;

#[derive(Debug, Clone, Copy, PartialEq, Eq, Structural)]
pub struct Tuple {
    pub x: i64,
    pub y: i64,
    pub z: i64,
    pub w: i64,
}

/// All four components have magnitude at most `b`.
pub open spec fn tuple_bounded(t: Tuple, b: int) -> bool {
    sabs(t.x as int) <= b && sabs(t.y as int) <= b && sabs(t.z as int) <= b && sabs(t.w as int)
        <= b
}

/// The fixed-point dot product of two tuples, all four components included.
pub open spec fn dot_spec(a: Tuple, b: Tuple) -> int {
    fxmul(a.x as int, b.x as int) + fxmul(a.y as int, b.y as int) + fxmul(a.z as int, b.z as int)
        + fxmul(a.w as int, b.w as int)
}

/// The fixed-point magnitude of a tuple.
pub open spec fn mag_spec(t: Tuple) -> int {
    fxsqrt(dot_spec(t, t))
}

/// Componentwise equality within `EPSILON`.
pub open spec fn tuples_near(a: Tuple, b: Tuple) -> bool {
    sabs(a.x - b.x) <= EPSILON as int && sabs(a.y - b.y) <= EPSILON as int && sabs(a.z - b.z)
        <= EPSILON as int && sabs(a.w - b.w) <= EPSILON as int
}

/// Bounds on the components bound the dot product.
pub proof fn lemma_dot_bound(a: Tuple, b: Tuple, ba: int, bb: int)
    requires
        tuple_bounded(a, ba),
        tuple_bounded(b, bb),
    ensures
        sabs(dot_spec(a, b)) <= 4 * ((ba * bb) / (SCALE as int)),
{
    lemma_fxmul_bound(a.x as int, b.x as int, ba, bb);
    lemma_fxmul_bound(a.y as int, b.y as int, ba, bb);
    lemma_fxmul_bound(a.z as int, b.z as int, ba, bb);
    lemma_fxmul_bound(a.w as int, b.w as int, ba, bb);
}

/// Approximate equality of two scalars, within `EPSILON`.
pub fn float_equal(a: i64, b: i64) -> (r: bool)
    requires
        fits64(a - b),
        fits64(b - a),
    ensures
        r == (sabs(a - b) <= EPSILON as int),
{
    let d: i64 = if a >= b {
        a - b
    } else {
        b - a
    };
    d <= EPSILON
}

/// A point: a tuple whose `w` component is one.
pub fn point(a: i64, b: i64, c: i64) -> (r: Tuple)
    ensures
        r == (Tuple { x: a, y: b, z: c, w: SCALE }),
{
    Tuple { x: a, y: b, z: c, w: SCALE }
}

/// A vector: a tuple whose `w` component is zero.
pub fn vector(a: i64, b: i64, c: i64) -> (r: Tuple)
    ensures
        r == (Tuple { x: a, y: b, z: c, w: 0i64 }),
{
    Tuple { x: a, y: b, z: c, w: 0 }
}

/// Componentwise approximate equality.
pub fn equal_tuples(tup1: Tuple, tup2: Tuple) -> (r: bool)
    requires
        fits64(tup1.x - tup2.x) && fits64(tup2.x - tup1.x),
        fits64(tup1.y - tup2.y) && fits64(tup2.y - tup1.y),
        fits64(tup1.z - tup2.z) && fits64(tup2.z - tup1.z),
        fits64(tup1.w - tup2.w) && fits64(tup2.w - tup1.w),
    ensures
        r == tuples_near(tup1, tup2),
{
    float_equal(tup1.x, tup2.x) && float_equal(tup1.y, tup2.y) && float_equal(tup1.z, tup2.z)
        && float_equal(tup1.w, tup2.w)
}

/// Componentwise sum.
pub fn add(tup1: Tuple, tup2: Tuple) -> (r: Tuple)
    requires
        fits64(tup1.x + tup2.x),
        fits64(tup1.y + tup2.y),
        fits64(tup1.z + tup2.z),
        fits64(tup1.w + tup2.w),
    ensures
        r.x == tup1.x + tup2.x,
        r.y == tup1.y + tup2.y,
        r.z == tup1.z + tup2.z,
        r.w == tup1.w + tup2.w,
{
    Tuple { x: tup1.x + tup2.x, y: tup1.y + tup2.y, z: tup1.z + tup2.z, w: tup1.w + tup2.w }
}

/// Componentwise difference.
pub fn subtract(tup1: Tuple, tup2: Tuple) -> (r: Tuple)
    requires
        fits64(tup1.x - tup2.x),
        fits64(tup1.y - tup2.y),
        fits64(tup1.z - tup2.z),
        fits64(tup1.w - tup2.w),
    ensures
        r.x == tup1.x - tup2.x,
        r.y == tup1.y - tup2.y,
        r.z == tup1.z - tup2.z,
        r.w == tup1.w - tup2.w,
{
    Tuple { x: tup1.x - tup2.x, y: tup1.y - tup2.y, z: tup1.z - tup2.z, w: tup1.w - tup2.w }
}

/// Componentwise negation.
pub fn negate(tup1: Tuple) -> (r: Tuple)
    requires
        fits64(-tup1.x),
        fits64(-tup1.y),
        fits64(-tup1.z),
        fits64(-tup1.w),
    ensures
        r.x == -tup1.x,
        r.y == -tup1.y,
        r.z == -tup1.z,
        r.w == -tup1.w,
{
    Tuple { x: -tup1.x, y: -tup1.y, z: -tup1.z, w: -tup1.w }
}

/// Componentwise product with a scalar.
pub fn multiply(scalar: i64, tup1: Tuple) -> (r: Tuple)
    requires
        sabs(scalar as int) <= MUL_LIMIT as int,
        tuple_bounded(tup1, MUL_LIMIT as int),
    ensures
        r.x == fxmul(scalar as int, tup1.x as int),
        r.y == fxmul(scalar as int, tup1.y as int),
        r.z == fxmul(scalar as int, tup1.z as int),
        r.w == fxmul(scalar as int, tup1.w as int),
{
    proof {
        lemma_fxmul_bound(scalar as int, tup1.x as int, MUL_LIMIT as int, MUL_LIMIT as int);
        lemma_fxmul_bound(scalar as int, tup1.y as int, MUL_LIMIT as int, MUL_LIMIT as int);
        lemma_fxmul_bound(scalar as int, tup1.z as int, MUL_LIMIT as int, MUL_LIMIT as int);
        lemma_fxmul_bound(scalar as int, tup1.w as int, MUL_LIMIT as int, MUL_LIMIT as int);
    }
    Tuple {
        x: fx_mul(scalar, tup1.x),
        y: fx_mul(scalar, tup1.y),
        z: fx_mul(scalar, tup1.z),
        w: fx_mul(scalar, tup1.w),
    }
}

/// Dot product over all four components.
pub fn dot_product(vec1: Tuple, vec2: Tuple) -> (r: i64)
    requires
        tuple_bounded(vec1, MUL_LIMIT as int),
        tuple_bounded(vec2, MUL_LIMIT as int),
    ensures
        r == dot_spec(vec1, vec2),
        sabs(r as int) <= 0x4000_0000_0000_0000,
{
    proof {
        lemma_fxmul_bound(vec1.x as int, vec2.x as int, MUL_LIMIT as int, MUL_LIMIT as int);
        lemma_fxmul_bound(vec1.y as int, vec2.y as int, MUL_LIMIT as int, MUL_LIMIT as int);
        lemma_fxmul_bound(vec1.z as int, vec2.z as int, MUL_LIMIT as int, MUL_LIMIT as int);
        lemma_fxmul_bound(vec1.w as int, vec2.w as int, MUL_LIMIT as int, MUL_LIMIT as int);
    }
    let px = fx_mul_wide(vec1.x, vec2.x);
    let py = fx_mul_wide(vec1.y, vec2.y);
    let pz = fx_mul_wide(vec1.z, vec2.z);
    let pw = fx_mul_wide(vec1.w, vec2.w);
    (px + py + pz + pw) as i64
}

/// Fixed-point magnitude: the square root of the dot product with itself.
pub fn magnitude(tup1: Tuple) -> (r: i64)
    requires
        tuple_bounded(tup1, MUL_LIMIT as int),
    ensures
        r == mag_spec(tup1),
        0 <= r,
{
    proof {
        lemma_fxmul_self_nonneg(tup1.x as int);
        lemma_fxmul_self_nonneg(tup1.y as int);
        lemma_fxmul_self_nonneg(tup1.z as int);
        lemma_fxmul_self_nonneg(tup1.w as int);
    }
    let d = dot_product(tup1, tup1);
    fx_sqrt(d)
}

/// Direction of a tuple: each component divided by the magnitude.  A tuple
/// whose fixed-point magnitude is zero has no direction and is rejected.
pub fn normalize(tup1: Tuple) -> (r: Result<Tuple, MathError>)
    requires
        tuple_bounded(tup1, MUL_LIMIT as int),
    ensures
        r is Ok <==> mag_spec(tup1) != 0,
        r matches Ok(v) ==> v.x == fxdiv(tup1.x as int, mag_spec(tup1)) && v.y == fxdiv(
            tup1.y as int,
            mag_spec(tup1),
        ) && v.z == fxdiv(tup1.z as int, mag_spec(tup1)) && v.w == fxdiv(
            tup1.w as int,
            mag_spec(tup1),
        ),
        r is Err ==> r == Err::<Tuple, MathError>(MathError::ZeroMagnitude),
{
    let m = magnitude(tup1);
    if m == 0 {
        Err(MathError::ZeroMagnitude)
    } else {
        proof {
            lemma_normalize_component_fits(tup1.x as int, m as int);
            lemma_normalize_component_fits(tup1.y as int, m as int);
            lemma_normalize_component_fits(tup1.z as int, m as int);
            lemma_normalize_component_fits(tup1.w as int, m as int);
        }
        Ok(
            Tuple {
                x: fx_div_exact(tup1.x, m),
                y: fx_div_exact(tup1.y, m),
                z: fx_div_exact(tup1.z, m),
                w: fx_div_exact(tup1.w, m),
            },
        )
    }
}

/// Dividing a bounded component by a nonzero magnitude stays within `i64`.
proof fn lemma_normalize_component_fits(c: int, m: int)
    requires
        m != 0,
        sabs(c) <= MUL_LIMIT as int,
    ensures
        fits64(fxdiv(c, m)),
{
    lemma_tdiv_abs(c * (SCALE as int), m);
    lemma_sabs_mul(c, SCALE as int);
}

/// A tuple whose squared length is `p*p` units has fixed-point magnitude
/// exactly `p` units.
proof fn lemma_mag_of_square(t: Tuple, p: int)
    requires
        p >= 0,
        dot_spec(t, t) == p * p * (SCALE as int),
    ensures
        mag_spec(t) == p * (SCALE as int),
{
    let s = SCALE as int;
    let n0 = dot_spec(t, t) * s;
    assert((p * s) * (p * s) == (p * p * s) * s) by (nonlinear_arith);
    assert(n0 < (p * s + 1) * (p * s + 1)) by (nonlinear_arith)
        requires
            n0 == (p * s) * (p * s),
            p * s >= 0,
    ;
    crate::fixed::lemma_isqrt_unique(n0 as nat, (p * s) as nat);
}

/// Normalizing is invariant under scaling by a positive whole number of
/// units: for a vector of whole units whose squared length is a perfect
/// square of units, the scaled vector normalizes to exactly the same
/// components.  `w` is the vector scaled by `k` units, as `multiply`
/// computes it.
pub proof fn lemma_normalize_scale_invariant(v: Tuple, w: Tuple, k: int, p: int)
    requires
        k > 0,
        p > 0,
        (v.x as int) % (SCALE as int) == 0,
        (v.y as int) % (SCALE as int) == 0,
        (v.z as int) % (SCALE as int) == 0,
        (v.w as int) % (SCALE as int) == 0,
        dot_spec(v, v) == p * p * (SCALE as int),
        w.x as int == fxmul(k * (SCALE as int), v.x as int),
        w.y as int == fxmul(k * (SCALE as int), v.y as int),
        w.z as int == fxmul(k * (SCALE as int), v.z as int),
        w.w as int == fxmul(k * (SCALE as int), v.w as int),
    ensures
        mag_spec(v) == p * (SCALE as int),
        mag_spec(w) == k * p * (SCALE as int),
        fxdiv(w.x as int, mag_spec(w)) == fxdiv(v.x as int, mag_spec(v)),
        fxdiv(w.y as int, mag_spec(w)) == fxdiv(v.y as int, mag_spec(v)),
        fxdiv(w.z as int, mag_spec(w)) == fxdiv(v.z as int, mag_spec(v)),
        fxdiv(w.w as int, mag_spec(w)) == fxdiv(v.w as int, mag_spec(v)),
{
    let s = SCALE as int;
    crate::fixed::lemma_fxmul_whole(k, v.x as int);
    crate::fixed::lemma_fxmul_whole(k, v.y as int);
    crate::fixed::lemma_fxmul_whole(k, v.z as int);
    crate::fixed::lemma_fxmul_whole(k, v.w as int);
    lemma_square_of_scaled(v.x as int, w.x as int, k, s);
    lemma_square_of_scaled(v.y as int, w.y as int, k, s);
    lemma_square_of_scaled(v.z as int, w.z as int, k, s);
    lemma_square_of_scaled(v.w as int, w.w as int, k, s);
    assert((k * k) * fxmul(v.x as int, v.x as int) + (k * k) * fxmul(v.y as int, v.y as int) + (k
        * k) * fxmul(v.z as int, v.z as int) + (k * k) * fxmul(v.w as int, v.w as int) == (k * k)
        * dot_spec(v, v)) by (nonlinear_arith)
        requires
            dot_spec(v, v) == fxmul(v.x as int, v.x as int) + fxmul(v.y as int, v.y as int) + fxmul(
                v.z as int,
                v.z as int,
            ) + fxmul(v.w as int, v.w as int),
    ;
    assert((k * k) * (p * p * s) == (k * p) * (k * p) * s) by (nonlinear_arith);
    lemma_mag_of_square(v, p);
    lemma_mag_of_square(w, k * p);
    assert(k * p > 0) by (nonlinear_arith)
        requires
            k > 0,
            p > 0,
    ;
    lemma_scaled_quotient(v.x as int, w.x as int, k, p, s);
    lemma_scaled_quotient(v.y as int, w.y as int, k, p, s);
    lemma_scaled_quotient(v.z as int, w.z as int, k, p, s);
    lemma_scaled_quotient(v.w as int, w.w as int, k, p, s);
}

/// The fixed-point square of a component scaled by `k` units is `k*k`
/// times the fixed-point square of the component.
proof fn lemma_square_of_scaled(vc: int, wc: int, k: int, s: int)
    requires
        s == SCALE as int,
        vc % s == 0,
        wc == k * vc,
    ensures
        fxmul(wc, wc) == (k * k) * fxmul(vc, vc),
{
    let u = vc / s;
    vstd::arithmetic::div_mod::lemma_fundamental_div_mod(vc, s);
    assert(s * u == u * s) by (nonlinear_arith);
    crate::fixed::lemma_fxmul_whole(u, vc);
    assert(wc == (k * u) * s) by (nonlinear_arith)
        requires
            wc == k * vc,
            vc == u * s,
    ;
    crate::fixed::lemma_fxmul_whole(k * u, wc);
    assert((k * u) * wc == (k * k) * (u * vc)) by (nonlinear_arith)
        requires
            wc == k * vc,
    ;
}

/// Dividing the scaled component by the scaled magnitude cancels the
/// scale factor.
proof fn lemma_scaled_quotient(vc: int, wc: int, k: int, p: int, s: int)
    requires
        s == SCALE as int,
        k > 0,
        p > 0,
        wc == k * vc,
    ensures
        fxdiv(wc, k * p * s) == fxdiv(vc, p * s),
{
    assert(wc * s == k * (vc * s)) by (nonlinear_arith)
        requires
            wc == k * vc,
    ;
    assert(k * p * s == k * (p * s)) by (nonlinear_arith);
    crate::fixed::lemma_tdiv_cancel(k, vc * s, p * s);
}

/// Normalizing a vector of whole units gives a vector of fixed-point
/// magnitude exactly one, when the normalized components are themselves
/// exact: the squared length is `p*p` units, `p` divides each component,
/// and each quotient's square is a whole number of units.  `n` is the
/// normalized vector, as `normalize` computes it.
pub proof fn lemma_normalize_unit_magnitude(v: Tuple, n: Tuple, p: int)
    requires
        p > 0,
        dot_spec(v, v) == p * p * (SCALE as int),
        (v.x as int) % p == 0 && (((v.x as int) / p) * ((v.x as int) / p)) % (SCALE as int) == 0,
        (v.y as int) % p == 0 && (((v.y as int) / p) * ((v.y as int) / p)) % (SCALE as int) == 0,
        (v.z as int) % p == 0 && (((v.z as int) / p) * ((v.z as int) / p)) % (SCALE as int) == 0,
        (v.w as int) % p == 0 && (((v.w as int) / p) * ((v.w as int) / p)) % (SCALE as int) == 0,
        n.x as int == fxdiv(v.x as int, mag_spec(v)),
        n.y as int == fxdiv(v.y as int, mag_spec(v)),
        n.z as int == fxdiv(v.z as int, mag_spec(v)),
        n.w as int == fxdiv(v.w as int, mag_spec(v)),
    ensures
        mag_spec(v) == p * (SCALE as int),
        mag_spec(n) == SCALE as int,
{
    let s = SCALE as int;
    lemma_mag_of_square(v, p);
    lemma_unit_component(v.x as int, n.x as int, p, s);
    lemma_unit_component(v.y as int, n.y as int, p, s);
    lemma_unit_component(v.z as int, n.z as int, p, s);
    lemma_unit_component(v.w as int, n.w as int, p, s);
    let qx = n.x as int;
    let qy = n.y as int;
    let qz = n.z as int;
    let qw = n.w as int;
    assert(dot_spec(v, v) == (fxmul(qx, qx) + fxmul(qy, qy) + fxmul(qz, qz) + fxmul(qw, qw)) * (p
        * p)) by (nonlinear_arith)
        requires
            dot_spec(v, v) == fxmul(v.x as int, v.x as int) + fxmul(v.y as int, v.y as int) + fxmul(
                v.z as int,
                v.z as int,
            ) + fxmul(v.w as int, v.w as int),
            fxmul(v.x as int, v.x as int) == fxmul(qx, qx) * (p * p),
            fxmul(v.y as int, v.y as int) == fxmul(qy, qy) * (p * p),
            fxmul(v.z as int, v.z as int) == fxmul(qz, qz) * (p * p),
            fxmul(v.w as int, v.w as int) == fxmul(qw, qw) * (p * p),
    ;
    assert(fxmul(qx, qx) + fxmul(qy, qy) + fxmul(qz, qz) + fxmul(qw, qw) == s) by (nonlinear_arith)
        requires
            (fxmul(qx, qx) + fxmul(qy, qy) + fxmul(qz, qz) + fxmul(qw, qw)) * (p * p) == p * p * s,
            p > 0,
    ;
    assert(dot_spec(n, n) == 1 * 1 * s);
    lemma_mag_of_square(n, 1);
}

/// One normalized component: the quotient is exact and its fixed-point
/// square truncates nothing.
proof fn lemma_unit_component(vc: int, nc: int, p: int, s: int)
    requires
        s == SCALE as int,
        p > 0,
        vc % p == 0,
        ((vc / p) * (vc / p)) % s == 0,
        nc == fxdiv(vc, p * s),
    ensures
        nc * p == vc,
        fxmul(nc, nc) * s == nc * nc,
        fxmul(vc, vc) == fxmul(nc, nc) * (p * p),
{
    assert(vc * s == s * vc) by (nonlinear_arith);
    assert(p * s == s * p) by (nonlinear_arith);
    crate::fixed::lemma_tdiv_cancel(s, vc, p);
    assert(nc == tdiv(vc, p));
    crate::fixed::lemma_tdiv_divides(vc, p);
    vstd::arithmetic::div_mod::lemma_fundamental_div_mod(vc, p);
    assert(nc == vc / p) by (nonlinear_arith)
        requires
            vc == tdiv(vc, p) * p,
            nc == tdiv(vc, p),
            vc == p * (vc / p),
            p > 0,
    ;
    crate::fixed::lemma_tdiv_divides(nc * nc, s);
    assert(fxmul(nc, nc) == tdiv(nc * nc, s));
    assert(fxmul(nc, nc) * s == nc * nc) by (nonlinear_arith)
        requires
            nc * nc == tdiv(nc * nc, s) * s,
            fxmul(nc, nc) == tdiv(nc * nc, s),
    ;
    let r = fxmul(nc, nc);
    assert(vc * vc == (r * (p * p)) * s) by (nonlinear_arith)
        requires
            vc == nc * p,
            r * s == nc * nc,
    ;
    crate::fixed::lemma_tdiv_exact(r * (p * p), s);
    assert(fxmul(vc, vc) == tdiv(vc * vc, s));
}

/// Cross product of two vectors; the `w` components are ignored and the
/// result is a vector.
pub fn cross_product(vec1: Tuple, vec2: Tuple) -> (r: Tuple)
    requires
        tuple_bounded(vec1, MUL_LIMIT as int),
        tuple_bounded(vec2, MUL_LIMIT as int),
    ensures
        r.x == fxmul(vec1.y as int, vec2.z as int) - fxmul(vec1.z as int, vec2.y as int),
        r.y == fxmul(vec1.z as int, vec2.x as int) - fxmul(vec1.x as int, vec2.z as int),
        r.z == fxmul(vec1.x as int, vec2.y as int) - fxmul(vec1.y as int, vec2.x as int),
        r.w == 0,
{
    proof {
        lemma_fxmul_bound(vec1.y as int, vec2.z as int, MUL_LIMIT as int, MUL_LIMIT as int);
        lemma_fxmul_bound(vec1.z as int, vec2.y as int, MUL_LIMIT as int, MUL_LIMIT as int);
        lemma_fxmul_bound(vec1.z as int, vec2.x as int, MUL_LIMIT as int, MUL_LIMIT as int);
        lemma_fxmul_bound(vec1.x as int, vec2.z as int, MUL_LIMIT as int, MUL_LIMIT as int);
        lemma_fxmul_bound(vec1.x as int, vec2.y as int, MUL_LIMIT as int, MUL_LIMIT as int);
        lemma_fxmul_bound(vec1.y as int, vec2.x as int, MUL_LIMIT as int, MUL_LIMIT as int);
    }
    let cx = (fx_mul_wide(vec1.y, vec2.z) - fx_mul_wide(vec1.z, vec2.y)) as i64;
    let cy = (fx_mul_wide(vec1.z, vec2.x) - fx_mul_wide(vec1.x, vec2.z)) as i64;
    let cz = (fx_mul_wide(vec1.x, vec2.y) - fx_mul_wide(vec1.y, vec2.x)) as i64;
    vector(cx, cy, cz)
}

} // verus!
