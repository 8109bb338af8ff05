//! Rays, unit spheres with an attached transform, and ray-sphere
//! intersection with nearest-positive-hit selection.
//!
//! A ray is intersected with a sphere by re-expressing it in the sphere's
//! object space through the inverse of the sphere's transform, and then
//! solving the canonical unit-sphere quadratic.

use vstd::prelude::*;
use crate::fixed::{
    fits64, fx_div_wide, fx_mul_wide, fxdiv, fxmul, fxsqrt, isqrt_u128, lemma_fxmul_bound,
    lemma_fxmul_self_nonneg, lemma_tdiv_ordered, sabs, SCALE,
};
use crate::matrix::{
    det4_spec, inv_entry, invert, is_identity, lemma_row_dot_bound, mat_bounded, row_dot,
    multiply_matrix_tup, Matrix, DET_LIMIT,
};
use crate::tuples;
use crate::tuples::{lemma_dot_bound, tuple_bounded, Tuple, MUL_LIMIT};
use crate::MathError;

verus! {

/// Largest entry magnitude allowed in an inverse transform before a ray is
/// pushed through it.
pub const INV_LIMIT: i64 = 0x200_0000;

/// A parametric line: all points `origin + t * direction`.
#[derive(Debug, Clone, Copy, PartialEq)]
pub struct Ray {
    pub origin: Tuple,
    pub direction: Tuple,
}

/// The unit sphere, carried from its local frame into the scene by its
/// transform.
#[derive(Debug, Clone, Copy, PartialEq)]
pub struct Sphere {
    pub transform: Matrix,
}

/// A ray meeting a sphere at parameter `t`.
#[derive(Debug, Clone, Copy, PartialEq)]
pub struct Intersection {
    pub t: i64,
    pub object: Sphere,
}

/// The point a ray reaches at parameter `t`.
pub fn position(ray: Ray, t: i64) -> (r: Tuple)
    requires
        sabs(t as int) <= MUL_LIMIT as int,
        tuple_bounded(ray.direction, MUL_LIMIT as int),
        fits64(ray.origin.x + fxmul(t as int, ray.direction.x as int)),
        fits64(ray.origin.y + fxmul(t as int, ray.direction.y as int)),
        fits64(ray.origin.z + fxmul(t as int, ray.direction.z as int)),
        fits64(ray.origin.w + fxmul(t as int, ray.direction.w as int)),
    ensures
        r.x == ray.origin.x + fxmul(t as int, ray.direction.x as int),
        r.y == ray.origin.y + fxmul(t as int, ray.direction.y as int),
        r.z == ray.origin.z + fxmul(t as int, ray.direction.z as int),
        r.w == ray.origin.w + fxmul(t as int, ray.direction.w as int),
{
    tuples::add(ray.origin, tuples::multiply(t, ray.direction))
}

/// A unit sphere in its own frame: the identity transform.
pub fn sphere() -> (s: Sphere)
    ensures
        is_identity(s.transform),
{
    Sphere {
        transform: Matrix(
            [
                [SCALE, 0, 0, 0],
                [0, SCALE, 0, 0],
                [0, 0, SCALE, 0],
                [0, 0, 0, SCALE],
            ],
        ),
    }
}

/// The same sphere with its transform replaced.
pub fn set_transform(s: Sphere, t: Matrix) -> (r: Sphere)
    ensures
        r.transform == t,
{
    let _ = s;
    Sphere { transform: t }
}

/// A ray carried through a transform: both origin and direction are
/// multiplied by the matrix.
pub fn transform_ray(ray: Ray, transform: Matrix) -> (r: Ray)
    requires
        mat_bounded(transform, MUL_LIMIT as int),
        tuple_bounded(ray.origin, MUL_LIMIT as int),
        tuple_bounded(ray.direction, MUL_LIMIT as int),
    ensures
        r.origin.x == row_dot(transform, 0, ray.origin),
        r.origin.y == row_dot(transform, 1, ray.origin),
        r.origin.z == row_dot(transform, 2, ray.origin),
        r.origin.w == row_dot(transform, 3, ray.origin),
        r.direction.x == row_dot(transform, 0, ray.direction),
        r.direction.y == row_dot(transform, 1, ray.direction),
        r.direction.z == row_dot(transform, 2, ray.direction),
        r.direction.w == row_dot(transform, 3, ray.direction),
{
    Ray {
        origin: multiply_matrix_tup(transform, ray.origin),
        direction: multiply_matrix_tup(transform, ray.direction),
    }
}

/// Component `i` of a tuple taken through the inverse of `m`.
pub open spec fn inv_row_dot(m: Matrix, i: int, t: Tuple) -> int {
    fxmul(inv_entry(m, i, 0), t.x as int) + fxmul(inv_entry(m, i, 1), t.y as int) + fxmul(
        inv_entry(m, i, 2),
        t.z as int,
    ) + fxmul(inv_entry(m, i, 3), t.w as int)
}

/// Component `i` of the ray direction in the sphere's object space.
pub open spec fn sdir(s: Sphere, r: Ray, i: int) -> int {
    inv_row_dot(s.transform, i, r.direction)
}

/// Component `i` of the vector from the sphere's centre to the ray origin,
/// in the sphere's object space.
pub open spec fn sstr(s: Sphere, r: Ray, i: int) -> int {
    if i == 3 {
        inv_row_dot(s.transform, 3, r.origin) - SCALE
    } else {
        inv_row_dot(s.transform, i, r.origin)
    }
}

/// Quadratic coefficient `a`: the direction dotted with itself.
pub open spec fn a_spec(s: Sphere, r: Ray) -> int {
    fxmul(sdir(s, r, 0), sdir(s, r, 0)) + fxmul(sdir(s, r, 1), sdir(s, r, 1)) + fxmul(
        sdir(s, r, 2),
        sdir(s, r, 2),
    ) + fxmul(sdir(s, r, 3), sdir(s, r, 3))
}

/// Quadratic coefficient `b`.
pub open spec fn b_spec(s: Sphere, r: Ray) -> int {
    2 * (fxmul(sdir(s, r, 0), sstr(s, r, 0)) + fxmul(sdir(s, r, 1), sstr(s, r, 1)) + fxmul(
        sdir(s, r, 2),
        sstr(s, r, 2),
    ) + fxmul(sdir(s, r, 3), sstr(s, r, 3)))
}

/// Quadratic coefficient `c`.
pub open spec fn c_spec(s: Sphere, r: Ray) -> int {
    fxmul(sstr(s, r, 0), sstr(s, r, 0)) + fxmul(sstr(s, r, 1), sstr(s, r, 1)) + fxmul(
        sstr(s, r, 2),
        sstr(s, r, 2),
    ) + fxmul(sstr(s, r, 3), sstr(s, r, 3)) - SCALE
}

/// The discriminant `b^2 - 4ac`.
pub open spec fn disc_spec(s: Sphere, r: Ray) -> int {
    fxmul(b_spec(s, r), b_spec(s, r)) - 4 * fxmul(a_spec(s, r), c_spec(s, r))
}

/// The smaller intersection parameter.
pub open spec fn t1_spec(s: Sphere, r: Ray) -> int {
    fxdiv(-b_spec(s, r) - fxsqrt(disc_spec(s, r)), 2 * a_spec(s, r))
}

/// The larger intersection parameter.
pub open spec fn t2_spec(s: Sphere, r: Ray) -> int {
    fxdiv(-b_spec(s, r) + fxsqrt(disc_spec(s, r)), 2 * a_spec(s, r))
}

/// The transform has an inverse and every entry of it fits in a scalar.
pub open spec fn inv_ok(m: Matrix) -> bool {
    det4_spec(m) != 0 && (forall|i: int, j: int|
        0 <= i < 4 && 0 <= j < 4 ==> fits64(#[trigger] inv_entry(m, i, j)))
}

/// Every entry of the inverse is small enough to push a ray through.
pub open spec fn inv_small(m: Matrix) -> bool {
    forall|i: int, j: int|
        0 <= i < 4 && 0 <= j < 4 ==> sabs(#[trigger] inv_entry(m, i, j)) <= INV_LIMIT as int
}

/// What `intersect` returns: either the sorted pair of intersection
/// parameters, the empty sequence for a miss, or the reason none could be
/// computed.
pub open spec fn intersect_spec(s: Sphere, r: Ray) -> Result<Seq<Intersection>, MathError> {
    if det4_spec(s.transform) == 0 {
        Err(MathError::NotInvertible)
    } else if !inv_ok(s.transform) || !inv_small(s.transform) {
        Err(MathError::OutOfRange)
    } else if disc_spec(s, r) < 0 {
        Ok(Seq::empty())
    } else if a_spec(s, r) == 0 {
        Err(MathError::Degenerate)
    } else if !fits64(t1_spec(s, r)) || !fits64(t2_spec(s, r)) {
        Err(MathError::OutOfRange)
    } else {
        Ok(
            seq![
                Intersection { t: t1_spec(s, r) as i64, object: s },
                Intersection { t: t2_spec(s, r) as i64, object: s },
            ],
        )
    }
}

/// A `Result` of intersections, seen through the vector's view.
pub open spec fn res_view(r: Result<Vec<Intersection>, MathError>) -> Result<
    Seq<Intersection>,
    MathError,
> {
    match r {
        Ok(v) => Ok(v@),
        Err(e) => Err(e),
    }
}

/// Whether every entry of the matrix is within `lim`.
fn mat_within(m: &Matrix, lim: i64) -> (res: bool)
    requires
        0 <= lim,
    ensures
        res <==> mat_bounded(*m, lim as int),
{
    for i in 0..4usize
        invariant
            0 <= lim,
            forall|p: int, q: int|
                0 <= p < i && 0 <= q < 4 ==> sabs((#[trigger] m.0[p][q]) as int) <= lim as int,
    {
        for j in 0..4usize
            invariant
                i < 4,
                0 <= lim,
                forall|p: int, q: int|
                    0 <= p < i && 0 <= q < 4 ==> sabs((#[trigger] m.0[p][q]) as int) <= lim as int,
                forall|q: int|
                    0 <= q < j ==> sabs((#[trigger] m.0[i as int][q]) as int) <= lim as int,
        {
            let v = m.0[i][j];
            if v > lim || v < -lim {
                return false;
            }
        }
    }
    true
}

/// Where a ray meets a sphere: the ray is taken into the sphere's object
/// space through the inverse transform, and the unit-sphere quadratic is
/// solved there.  A miss is the empty vector; two parameters come back
/// sorted, the tangent case as two equal values.
pub fn intersect(s: Sphere, r: Ray) -> (res: Result<Vec<Intersection>, MathError>)
    requires
        mat_bounded(s.transform, DET_LIMIT as int),
        tuple_bounded(r.origin, DET_LIMIT as int),
        tuple_bounded(r.direction, DET_LIMIT as int),
    ensures
        res_view(res) == intersect_spec(s, r),
        res matches Ok(v) ==> (v@.len() == 2 ==> v@[0].t <= v@[1].t),
{
    let inv = match invert(s.transform) {
        Ok(m) => m,
        Err(e) => {
            return Err(e);
        },
    };
    if !mat_within(&inv, INV_LIMIT) {
        proof {
            if inv_small(s.transform) {
                assert forall|i: int, j: int| 0 <= i < 4 && 0 <= j < 4 implies sabs(
                    (#[trigger] inv.0[i][j]) as int,
                ) <= INV_LIMIT as int by {
                    assert(inv.0[i][j] as int == inv_entry(s.transform, i, j));
                }
                assert(false);
            }
        }
        return Err(MathError::OutOfRange);
    }
    proof {
        assert forall|i: int, j: int| 0 <= i < 4 && 0 <= j < 4 implies fits64(
            #[trigger] inv_entry(s.transform, i, j),
        ) && sabs(inv_entry(s.transform, i, j)) <= INV_LIMIT as int by {
            assert(inv.0[i][j] as int == inv_entry(s.transform, i, j));
            assert(sabs((inv.0[i][j]) as int) <= INV_LIMIT as int);
        }
        assert(inv_ok(s.transform));
        assert(inv_small(s.transform));
        assert forall|i: int| 0 <= i < 4 implies sabs(#[trigger] row_dot(inv, i, r.direction))
            <= 0x20_0000_0000 && sabs(#[trigger] row_dot(inv, i, r.origin)) <= 0x20_0000_0000
            && row_dot(inv, i, r.direction) == inv_row_dot(s.transform, i, r.direction) && row_dot(
            inv,
            i,
            r.origin,
        ) == inv_row_dot(s.transform, i, r.origin) by {
            assert(inv.0[i][0] as int == inv_entry(s.transform, i, 0));
            assert(inv.0[i][1] as int == inv_entry(s.transform, i, 1));
            assert(inv.0[i][2] as int == inv_entry(s.transform, i, 2));
            assert(inv.0[i][3] as int == inv_entry(s.transform, i, 3));
            lemma_row_dot_bound(inv, i, r.direction, INV_LIMIT as int, DET_LIMIT as int);
            lemma_row_dot_bound(inv, i, r.origin, INV_LIMIT as int, DET_LIMIT as int);
        }
    }
    let r2 = transform_ray(r, inv);
    let sphere_to_ray = tuples::subtract(r2.origin, tuples::point(0, 0, 0));
    proof {
        assert(tuple_bounded(r2.direction, 0x20_0000_0000));
        assert(tuple_bounded(sphere_to_ray, 0x40_0000_0000));
        lemma_dot_bound(r2.direction, sphere_to_ray, 0x20_0000_0000, 0x40_0000_0000);
        lemma_dot_bound(r2.direction, r2.direction, 0x20_0000_0000, 0x20_0000_0000);
        lemma_dot_bound(sphere_to_ray, sphere_to_ray, 0x40_0000_0000, 0x40_0000_0000);
    }
    let a = tuples::dot_product(r2.direction, r2.direction);
    let bd = tuples::dot_product(r2.direction, sphere_to_ray);
    let b: i64 = 2 * bd;
    let c: i64 = tuples::dot_product(sphere_to_ray, sphere_to_ray) - SCALE;
    proof {
        assert(r2.direction.x as int == sdir(s, r, 0));
        assert(r2.direction.y as int == sdir(s, r, 1));
        assert(r2.direction.z as int == sdir(s, r, 2));
        assert(r2.direction.w as int == sdir(s, r, 3));
        assert(sphere_to_ray.x as int == sstr(s, r, 0));
        assert(sphere_to_ray.y as int == sstr(s, r, 1));
        assert(sphere_to_ray.z as int == sstr(s, r, 2));
        assert(sphere_to_ray.w as int == sstr(s, r, 3));
        assert(a as int == a_spec(s, r));
        assert(b as int == b_spec(s, r));
        assert(c as int == c_spec(s, r));
        lemma_fxmul_bound(b as int, b as int, 0x4000_0000_0000_0000, 0x4000_0000_0000_0000);
        lemma_fxmul_bound(a as int, c as int, 0x1000_0000_0000_0000, 0x4000_0001_0000_0000);
    }
    let pb: i128 = fx_mul_wide(b, b);
    let pac: i128 = fx_mul_wide(a, c);
    let d: i128 = pb - 4 * pac;
    proof {
        assert(d as int == disc_spec(s, r));
    }
    if d < 0 {
        let out: Vec<Intersection> = vec![];
        proof {
            assert(out@ =~= Seq::<Intersection>::empty());
        }
        return Ok(out);
    }
    if a == 0 {
        return Err(MathError::Degenerate);
    }
    let nd: u128 = (d as u128) * 65536;
    let sqv: u128 = isqrt_u128(nd);
    proof {
        assert((sqv as int) < 0x1_0000_0000_0000_0000) by (nonlinear_arith)
            requires
                (sqv as int) * (sqv as int) <= nd as int,
                (nd as int) < 0x1_0000_0000_0000_0000_0000_0000_0000_0000,
                0 <= (sqv as int),
        ;
        assert(sqv as int == fxsqrt(disc_spec(s, r)));
    }
    let negb: i128 = -(b as i128);
    let sq_i: i128 = sqv as i128;
    let qa: i128 = 2 * (a as i128);
    let ta = fx_div_wide(negb - sq_i, qa);
    let tb = fx_div_wide(negb + sq_i, qa);
    proof {
        assert((negb - sq_i) as int == -b_spec(s, r) - fxsqrt(disc_spec(s, r)));
        assert((negb + sq_i) as int == -b_spec(s, r) + fxsqrt(disc_spec(s, r)));
        assert(qa as int == 2 * a_spec(s, r));
    }
    proof {
        lemma_fxmul_self_nonneg(sdir(s, r, 0));
        lemma_fxmul_self_nonneg(sdir(s, r, 1));
        lemma_fxmul_self_nonneg(sdir(s, r, 2));
        lemma_fxmul_self_nonneg(sdir(s, r, 3));
        lemma_tdiv_ordered(
            (-b_spec(s, r) - fxsqrt(disc_spec(s, r))) * (SCALE as int),
            (-b_spec(s, r) + fxsqrt(disc_spec(s, r))) * (SCALE as int),
            2 * a_spec(s, r),
        );
    }
    match (ta, tb) {
        (Some(t1), Some(t2)) => {
            let out: Vec<Intersection> = vec![
                Intersection { t: t1, object: s },
                Intersection { t: t2, object: s },
            ];
            proof {
                assert(out@ =~= seq![
                    Intersection { t: t1_spec(s, r) as i64, object: s },
                    Intersection { t: t2_spec(s, r) as i64, object: s },
                ]);
            }
            Ok(out)
        },
        _ => Err(MathError::OutOfRange),
    }
}

/// The visible hit: among the intersections with strictly positive `t`,
/// the first one with the smallest `t`; the empty vector when every
/// intersection lies behind or at the ray origin.
pub fn hit(xs: Vec<Intersection>) -> (res: Vec<Intersection>)
    ensures
        (exists|i: int| 0 <= i < xs@.len() && (#[trigger] xs@[i]).t > 0) <==> res@.len() == 1,
        res@.len() <= 1,
        res@.len() == 1 ==> exists|i: int|
            0 <= i < xs@.len() && res@[0] == #[trigger] xs@[i] && xs@[i].t > 0 && (forall|j: int|
                0 <= j < xs@.len() && (#[trigger] xs@[j]).t > 0 ==> res@[0].t <= xs@[j].t) && (
            forall|j: int| 0 <= j < i && (#[trigger] xs@[j]).t > 0 ==> res@[0].t < xs@[j].t),
{
    let mut best: usize = 0;
    let mut found: bool = false;
    for k in 0..xs.len()
        invariant
            found ==> best < k && xs@[best as int].t > 0 && (forall|j: int|
                0 <= j < k && (#[trigger] xs@[j]).t > 0 ==> xs@[best as int].t <= xs@[j].t) && (
            forall|j: int|
                0 <= j < best && (#[trigger] xs@[j]).t > 0 ==> xs@[best as int].t < xs@[j].t),
            !found ==> (forall|j: int| 0 <= j < k ==> (#[trigger] xs@[j]).t <= 0),
            k <= xs@.len(),
    {
        if xs[k].t > 0 && (!found || xs[k].t < xs[best].t) {
            best = k;
            found = true;
        }
    }
    if found {
        let mut hit_value: Vec<Intersection> = Vec::new();
        hit_value.push(xs[best]);
        proof {
            assert(hit_value@[0] == xs@[best as int]);
        }
        hit_value
    } else {
        Vec::new()
    }
}

} // verus!
