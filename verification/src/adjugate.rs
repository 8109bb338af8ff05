//! The adjugate identity: a matrix times its cofactor-built inverse gives
//! the identity.  The polynomial identities behind it are proved monomial
//! by monomial over the whole-unit entry values.

use vstd::prelude::*;
use crate::fixed::{lemma_fxmul_whole, SCALE};
use crate::matrix::{
    cof_spec, det4_spec, idet3, idet4, inv_entry, isub, lemma_det4_whole, lemma_subdet_whole,
    lemma_whole_entry, mat_whole, mul_entry, we, Matrix,
};

verus! {

/// Integer cofactor: the minor's integer determinant with the
/// checkerboard sign, over the whole-unit entries.
pub open spec fn icof(m: Matrix, r: int, c: int) -> int {
    if (r + c) % 2 == 0 {
        isub(m, r, c)
    } else {
        -isub(m, r, c)
    }
}

/// A negated factor pulls the sign out of the product.
proof fn lemma_neg_factor(x: int, y: int, z: int)
    requires
        y == -z,
    ensures
        x * y == -(x * z),
{
    assert(x * y == -(x * z)) by (nonlinear_arith)
        requires
            y == -z,
    ;
}

/// A factor distributes over a four-part sum.
proof fn lemma_dist_four(t: int, x0: int, x1: int, x2: int, x3: int, d: int)
    requires
        t == x0 + x1 + x2 + x3,
    ensures
        t * d == x0 * d + x1 * d + x2 * d + x3 * d,
{
    assert((x0 + x1) * d == x0 * d + x1 * d) by (nonlinear_arith);
    assert((x2 + x3) * d == x2 * d + x3 * d) by (nonlinear_arith);
    assert(t * d == (x0 + x1) * d + (x2 + x3) * d) by (nonlinear_arith)
        requires
            t == (x0 + x1) + (x2 + x3),
    ;
}

/// A nonzero common factor cancels from an equality of products.
proof fn lemma_cancel_factor(x: int, y: int, d: int)
    requires
        x * d == y * d,
        d != 0,
    ensures
        x == y,
{
    assert(x == y) by (nonlinear_arith)
        requires
            x * d == y * d,
            d != 0,
    ;
}

/// Row 0 against the cofactors of row 1 sums to zero.
proof fn lemma_adj_0_1(
    a00: int,
    a01: int,
    a02: int,
    a03: int,
    a10: int,
    a11: int,
    a12: int,
    a13: int,
    a20: int,
    a21: int,
    a22: int,
    a23: int,
    a30: int,
    a31: int,
    a32: int,
    a33: int,
)
    ensures
        -(a00 * idet3(a01, a02, a03, a21, a22, a23, a31, a32, a33)) + a01 * idet3(a00, a02, a03, a20, a22, a23, a30, a32, a33) - a02 * idet3(a00, a01, a03, a20, a21, a23, a30, a31, a33) + a03 * idet3(a00, a01, a02, a20, a21, a22, a30, a31, a32) == 0,
{
    let d_p0 = idet3(a01, a02, a03, a21, a22, a23, a31, a32, a33);
    assert(a01 * (a22 * a33 - a23 * a32) == a01 * (a22 * a33) - a01 * (a23 * a32)) by (nonlinear_arith);
    assert(a02 * (a21 * a33 - a23 * a31) == a02 * (a21 * a33) - a02 * (a23 * a31)) by (nonlinear_arith);
    assert(a03 * (a21 * a32 - a22 * a31) == a03 * (a21 * a32) - a03 * (a22 * a31)) by (nonlinear_arith);
    let dh1_p0 = a01 * (a22 * a33) - a01 * (a23 * a32) - a02 * (a21 * a33);
    let dh2_p0 = a02 * (a23 * a31) + a03 * (a21 * a32) - a03 * (a22 * a31);
    assert(d_p0 == dh1_p0 + dh2_p0);
    assert(a00 * d_p0 == a00 * dh1_p0 + a00 * dh2_p0) by (nonlinear_arith)
        requires d_p0 == dh1_p0 + dh2_p0;
    assert(a00 * dh1_p0 == a00 * (a01 * (a22 * a33)) - a00 * (a01 * (a23 * a32)) - a00 * (a02 * (a21 * a33))) by (nonlinear_arith)
        requires dh1_p0 == a01 * (a22 * a33) - a01 * (a23 * a32) - a02 * (a21 * a33);
    assert(a00 * dh2_p0 == a00 * (a02 * (a23 * a31)) + a00 * (a03 * (a21 * a32)) - a00 * (a03 * (a22 * a31))) by (nonlinear_arith)
        requires dh2_p0 == a02 * (a23 * a31) + a03 * (a21 * a32) - a03 * (a22 * a31);
    let d_p1 = idet3(a00, a02, a03, a20, a22, a23, a30, a32, a33);
    assert(a00 * (a22 * a33 - a23 * a32) == a00 * (a22 * a33) - a00 * (a23 * a32)) by (nonlinear_arith);
    assert(a02 * (a20 * a33 - a23 * a30) == a02 * (a20 * a33) - a02 * (a23 * a30)) by (nonlinear_arith);
    assert(a03 * (a20 * a32 - a22 * a30) == a03 * (a20 * a32) - a03 * (a22 * a30)) by (nonlinear_arith);
    let dh1_p1 = a00 * (a22 * a33) - a00 * (a23 * a32) - a02 * (a20 * a33);
    let dh2_p1 = a02 * (a23 * a30) + a03 * (a20 * a32) - a03 * (a22 * a30);
    assert(d_p1 == dh1_p1 + dh2_p1);
    assert(a01 * d_p1 == a01 * dh1_p1 + a01 * dh2_p1) by (nonlinear_arith)
        requires d_p1 == dh1_p1 + dh2_p1;
    assert(a01 * dh1_p1 == a01 * (a00 * (a22 * a33)) - a01 * (a00 * (a23 * a32)) - a01 * (a02 * (a20 * a33))) by (nonlinear_arith)
        requires dh1_p1 == a00 * (a22 * a33) - a00 * (a23 * a32) - a02 * (a20 * a33);
    assert(a01 * dh2_p1 == a01 * (a02 * (a23 * a30)) + a01 * (a03 * (a20 * a32)) - a01 * (a03 * (a22 * a30))) by (nonlinear_arith)
        requires dh2_p1 == a02 * (a23 * a30) + a03 * (a20 * a32) - a03 * (a22 * a30);
    assert(a01 * (a00 * (a22 * a33)) == a00 * (a01 * (a22 * a33))) by (nonlinear_arith);
    assert(a01 * (a00 * (a23 * a32)) == a00 * (a01 * (a23 * a32))) by (nonlinear_arith);
    let d_p2 = idet3(a00, a01, a03, a20, a21, a23, a30, a31, a33);
    assert(a00 * (a21 * a33 - a23 * a31) == a00 * (a21 * a33) - a00 * (a23 * a31)) by (nonlinear_arith);
    assert(a01 * (a20 * a33 - a23 * a30) == a01 * (a20 * a33) - a01 * (a23 * a30)) by (nonlinear_arith);
    assert(a03 * (a20 * a31 - a21 * a30) == a03 * (a20 * a31) - a03 * (a21 * a30)) by (nonlinear_arith);
    let dh1_p2 = a00 * (a21 * a33) - a00 * (a23 * a31) - a01 * (a20 * a33);
    let dh2_p2 = a01 * (a23 * a30) + a03 * (a20 * a31) - a03 * (a21 * a30);
    assert(d_p2 == dh1_p2 + dh2_p2);
    assert(a02 * d_p2 == a02 * dh1_p2 + a02 * dh2_p2) by (nonlinear_arith)
        requires d_p2 == dh1_p2 + dh2_p2;
    assert(a02 * dh1_p2 == a02 * (a00 * (a21 * a33)) - a02 * (a00 * (a23 * a31)) - a02 * (a01 * (a20 * a33))) by (nonlinear_arith)
        requires dh1_p2 == a00 * (a21 * a33) - a00 * (a23 * a31) - a01 * (a20 * a33);
    assert(a02 * dh2_p2 == a02 * (a01 * (a23 * a30)) + a02 * (a03 * (a20 * a31)) - a02 * (a03 * (a21 * a30))) by (nonlinear_arith)
        requires dh2_p2 == a01 * (a23 * a30) + a03 * (a20 * a31) - a03 * (a21 * a30);
    assert(a02 * (a00 * (a21 * a33)) == a00 * (a02 * (a21 * a33))) by (nonlinear_arith);
    assert(a02 * (a00 * (a23 * a31)) == a00 * (a02 * (a23 * a31))) by (nonlinear_arith);
    assert(a02 * (a01 * (a20 * a33)) == a01 * (a02 * (a20 * a33))) by (nonlinear_arith);
    assert(a02 * (a01 * (a23 * a30)) == a01 * (a02 * (a23 * a30))) by (nonlinear_arith);
    let d_p3 = idet3(a00, a01, a02, a20, a21, a22, a30, a31, a32);
    assert(a00 * (a21 * a32 - a22 * a31) == a00 * (a21 * a32) - a00 * (a22 * a31)) by (nonlinear_arith);
    assert(a01 * (a20 * a32 - a22 * a30) == a01 * (a20 * a32) - a01 * (a22 * a30)) by (nonlinear_arith);
    assert(a02 * (a20 * a31 - a21 * a30) == a02 * (a20 * a31) - a02 * (a21 * a30)) by (nonlinear_arith);
    let dh1_p3 = a00 * (a21 * a32) - a00 * (a22 * a31) - a01 * (a20 * a32);
    let dh2_p3 = a01 * (a22 * a30) + a02 * (a20 * a31) - a02 * (a21 * a30);
    assert(d_p3 == dh1_p3 + dh2_p3);
    assert(a03 * d_p3 == a03 * dh1_p3 + a03 * dh2_p3) by (nonlinear_arith)
        requires d_p3 == dh1_p3 + dh2_p3;
    assert(a03 * dh1_p3 == a03 * (a00 * (a21 * a32)) - a03 * (a00 * (a22 * a31)) - a03 * (a01 * (a20 * a32))) by (nonlinear_arith)
        requires dh1_p3 == a00 * (a21 * a32) - a00 * (a22 * a31) - a01 * (a20 * a32);
    assert(a03 * dh2_p3 == a03 * (a01 * (a22 * a30)) + a03 * (a02 * (a20 * a31)) - a03 * (a02 * (a21 * a30))) by (nonlinear_arith)
        requires dh2_p3 == a01 * (a22 * a30) + a02 * (a20 * a31) - a02 * (a21 * a30);
    assert(a03 * (a00 * (a21 * a32)) == a00 * (a03 * (a21 * a32))) by (nonlinear_arith);
    assert(a03 * (a00 * (a22 * a31)) == a00 * (a03 * (a22 * a31))) by (nonlinear_arith);
    assert(a03 * (a01 * (a20 * a32)) == a01 * (a03 * (a20 * a32))) by (nonlinear_arith);
    assert(a03 * (a01 * (a22 * a30)) == a01 * (a03 * (a22 * a30))) by (nonlinear_arith);
    assert(a03 * (a02 * (a20 * a31)) == a02 * (a03 * (a20 * a31))) by (nonlinear_arith);
    assert(a03 * (a02 * (a21 * a30)) == a02 * (a03 * (a21 * a30))) by (nonlinear_arith);
}

/// Row 0 against the cofactors of row 2 sums to zero.
proof fn lemma_adj_0_2(
    a00: int,
    a01: int,
    a02: int,
    a03: int,
    a10: int,
    a11: int,
    a12: int,
    a13: int,
    a20: int,
    a21: int,
    a22: int,
    a23: int,
    a30: int,
    a31: int,
    a32: int,
    a33: int,
)
    ensures
        a00 * idet3(a01, a02, a03, a11, a12, a13, a31, a32, a33) - a01 * idet3(a00, a02, a03, a10, a12, a13, a30, a32, a33) + a02 * idet3(a00, a01, a03, a10, a11, a13, a30, a31, a33) - a03 * idet3(a00, a01, a02, a10, a11, a12, a30, a31, a32) == 0,
{
    let d_p0 = idet3(a01, a02, a03, a11, a12, a13, a31, a32, a33);
    assert(a01 * (a12 * a33 - a13 * a32) == a01 * (a12 * a33) - a01 * (a13 * a32)) by (nonlinear_arith);
    assert(a02 * (a11 * a33 - a13 * a31) == a02 * (a11 * a33) - a02 * (a13 * a31)) by (nonlinear_arith);
    assert(a03 * (a11 * a32 - a12 * a31) == a03 * (a11 * a32) - a03 * (a12 * a31)) by (nonlinear_arith);
    let dh1_p0 = a01 * (a12 * a33) - a01 * (a13 * a32) - a02 * (a11 * a33);
    let dh2_p0 = a02 * (a13 * a31) + a03 * (a11 * a32) - a03 * (a12 * a31);
    assert(d_p0 == dh1_p0 + dh2_p0);
    assert(a00 * d_p0 == a00 * dh1_p0 + a00 * dh2_p0) by (nonlinear_arith)
        requires d_p0 == dh1_p0 + dh2_p0;
    assert(a00 * dh1_p0 == a00 * (a01 * (a12 * a33)) - a00 * (a01 * (a13 * a32)) - a00 * (a02 * (a11 * a33))) by (nonlinear_arith)
        requires dh1_p0 == a01 * (a12 * a33) - a01 * (a13 * a32) - a02 * (a11 * a33);
    assert(a00 * dh2_p0 == a00 * (a02 * (a13 * a31)) + a00 * (a03 * (a11 * a32)) - a00 * (a03 * (a12 * a31))) by (nonlinear_arith)
        requires dh2_p0 == a02 * (a13 * a31) + a03 * (a11 * a32) - a03 * (a12 * a31);
    let d_p1 = idet3(a00, a02, a03, a10, a12, a13, a30, a32, a33);
    assert(a00 * (a12 * a33 - a13 * a32) == a00 * (a12 * a33) - a00 * (a13 * a32)) by (nonlinear_arith);
    assert(a02 * (a10 * a33 - a13 * a30) == a02 * (a10 * a33) - a02 * (a13 * a30)) by (nonlinear_arith);
    assert(a03 * (a10 * a32 - a12 * a30) == a03 * (a10 * a32) - a03 * (a12 * a30)) by (nonlinear_arith);
    let dh1_p1 = a00 * (a12 * a33) - a00 * (a13 * a32) - a02 * (a10 * a33);
    let dh2_p1 = a02 * (a13 * a30) + a03 * (a10 * a32) - a03 * (a12 * a30);
    assert(d_p1 == dh1_p1 + dh2_p1);
    assert(a01 * d_p1 == a01 * dh1_p1 + a01 * dh2_p1) by (nonlinear_arith)
        requires d_p1 == dh1_p1 + dh2_p1;
    assert(a01 * dh1_p1 == a01 * (a00 * (a12 * a33)) - a01 * (a00 * (a13 * a32)) - a01 * (a02 * (a10 * a33))) by (nonlinear_arith)
        requires dh1_p1 == a00 * (a12 * a33) - a00 * (a13 * a32) - a02 * (a10 * a33);
    assert(a01 * dh2_p1 == a01 * (a02 * (a13 * a30)) + a01 * (a03 * (a10 * a32)) - a01 * (a03 * (a12 * a30))) by (nonlinear_arith)
        requires dh2_p1 == a02 * (a13 * a30) + a03 * (a10 * a32) - a03 * (a12 * a30);
    assert(a01 * (a00 * (a12 * a33)) == a00 * (a01 * (a12 * a33))) by (nonlinear_arith);
    assert(a01 * (a00 * (a13 * a32)) == a00 * (a01 * (a13 * a32))) by (nonlinear_arith);
    let d_p2 = idet3(a00, a01, a03, a10, a11, a13, a30, a31, a33);
    assert(a00 * (a11 * a33 - a13 * a31) == a00 * (a11 * a33) - a00 * (a13 * a31)) by (nonlinear_arith);
    assert(a01 * (a10 * a33 - a13 * a30) == a01 * (a10 * a33) - a01 * (a13 * a30)) by (nonlinear_arith);
    assert(a03 * (a10 * a31 - a11 * a30) == a03 * (a10 * a31) - a03 * (a11 * a30)) by (nonlinear_arith);
    let dh1_p2 = a00 * (a11 * a33) - a00 * (a13 * a31) - a01 * (a10 * a33);
    let dh2_p2 = a01 * (a13 * a30) + a03 * (a10 * a31) - a03 * (a11 * a30);
    assert(d_p2 == dh1_p2 + dh2_p2);
    assert(a02 * d_p2 == a02 * dh1_p2 + a02 * dh2_p2) by (nonlinear_arith)
        requires d_p2 == dh1_p2 + dh2_p2;
    assert(a02 * dh1_p2 == a02 * (a00 * (a11 * a33)) - a02 * (a00 * (a13 * a31)) - a02 * (a01 * (a10 * a33))) by (nonlinear_arith)
        requires dh1_p2 == a00 * (a11 * a33) - a00 * (a13 * a31) - a01 * (a10 * a33);
    assert(a02 * dh2_p2 == a02 * (a01 * (a13 * a30)) + a02 * (a03 * (a10 * a31)) - a02 * (a03 * (a11 * a30))) by (nonlinear_arith)
        requires dh2_p2 == a01 * (a13 * a30) + a03 * (a10 * a31) - a03 * (a11 * a30);
    assert(a02 * (a00 * (a11 * a33)) == a00 * (a02 * (a11 * a33))) by (nonlinear_arith);
    assert(a02 * (a00 * (a13 * a31)) == a00 * (a02 * (a13 * a31))) by (nonlinear_arith);
    assert(a02 * (a01 * (a10 * a33)) == a01 * (a02 * (a10 * a33))) by (nonlinear_arith);
    assert(a02 * (a01 * (a13 * a30)) == a01 * (a02 * (a13 * a30))) by (nonlinear_arith);
    let d_p3 = idet3(a00, a01, a02, a10, a11, a12, a30, a31, a32);
    assert(a00 * (a11 * a32 - a12 * a31) == a00 * (a11 * a32) - a00 * (a12 * a31)) by (nonlinear_arith);
    assert(a01 * (a10 * a32 - a12 * a30) == a01 * (a10 * a32) - a01 * (a12 * a30)) by (nonlinear_arith);
    assert(a02 * (a10 * a31 - a11 * a30) == a02 * (a10 * a31) - a02 * (a11 * a30)) by (nonlinear_arith);
    let dh1_p3 = a00 * (a11 * a32) - a00 * (a12 * a31) - a01 * (a10 * a32);
    let dh2_p3 = a01 * (a12 * a30) + a02 * (a10 * a31) - a02 * (a11 * a30);
    assert(d_p3 == dh1_p3 + dh2_p3);
    assert(a03 * d_p3 == a03 * dh1_p3 + a03 * dh2_p3) by (nonlinear_arith)
        requires d_p3 == dh1_p3 + dh2_p3;
    assert(a03 * dh1_p3 == a03 * (a00 * (a11 * a32)) - a03 * (a00 * (a12 * a31)) - a03 * (a01 * (a10 * a32))) by (nonlinear_arith)
        requires dh1_p3 == a00 * (a11 * a32) - a00 * (a12 * a31) - a01 * (a10 * a32);
    assert(a03 * dh2_p3 == a03 * (a01 * (a12 * a30)) + a03 * (a02 * (a10 * a31)) - a03 * (a02 * (a11 * a30))) by (nonlinear_arith)
        requires dh2_p3 == a01 * (a12 * a30) + a02 * (a10 * a31) - a02 * (a11 * a30);
    assert(a03 * (a00 * (a11 * a32)) == a00 * (a03 * (a11 * a32))) by (nonlinear_arith);
    assert(a03 * (a00 * (a12 * a31)) == a00 * (a03 * (a12 * a31))) by (nonlinear_arith);
    assert(a03 * (a01 * (a10 * a32)) == a01 * (a03 * (a10 * a32))) by (nonlinear_arith);
    assert(a03 * (a01 * (a12 * a30)) == a01 * (a03 * (a12 * a30))) by (nonlinear_arith);
    assert(a03 * (a02 * (a10 * a31)) == a02 * (a03 * (a10 * a31))) by (nonlinear_arith);
    assert(a03 * (a02 * (a11 * a30)) == a02 * (a03 * (a11 * a30))) by (nonlinear_arith);
}

/// Row 0 against the cofactors of row 3 sums to zero.
proof fn lemma_adj_0_3(
    a00: int,
    a01: int,
    a02: int,
    a03: int,
    a10: int,
    a11: int,
    a12: int,
    a13: int,
    a20: int,
    a21: int,
    a22: int,
    a23: int,
    a30: int,
    a31: int,
    a32: int,
    a33: int,
)
    ensures
        -(a00 * idet3(a01, a02, a03, a11, a12, a13, a21, a22, a23)) + a01 * idet3(a00, a02, a03, a10, a12, a13, a20, a22, a23) - a02 * idet3(a00, a01, a03, a10, a11, a13, a20, a21, a23) + a03 * idet3(a00, a01, a02, a10, a11, a12, a20, a21, a22) == 0,
{
    let d_p0 = idet3(a01, a02, a03, a11, a12, a13, a21, a22, a23);
    assert(a01 * (a12 * a23 - a13 * a22) == a01 * (a12 * a23) - a01 * (a13 * a22)) by (nonlinear_arith);
    assert(a02 * (a11 * a23 - a13 * a21) == a02 * (a11 * a23) - a02 * (a13 * a21)) by (nonlinear_arith);
    assert(a03 * (a11 * a22 - a12 * a21) == a03 * (a11 * a22) - a03 * (a12 * a21)) by (nonlinear_arith);
    let dh1_p0 = a01 * (a12 * a23) - a01 * (a13 * a22) - a02 * (a11 * a23);
    let dh2_p0 = a02 * (a13 * a21) + a03 * (a11 * a22) - a03 * (a12 * a21);
    assert(d_p0 == dh1_p0 + dh2_p0);
    assert(a00 * d_p0 == a00 * dh1_p0 + a00 * dh2_p0) by (nonlinear_arith)
        requires d_p0 == dh1_p0 + dh2_p0;
    assert(a00 * dh1_p0 == a00 * (a01 * (a12 * a23)) - a00 * (a01 * (a13 * a22)) - a00 * (a02 * (a11 * a23))) by (nonlinear_arith)
        requires dh1_p0 == a01 * (a12 * a23) - a01 * (a13 * a22) - a02 * (a11 * a23);
    assert(a00 * dh2_p0 == a00 * (a02 * (a13 * a21)) + a00 * (a03 * (a11 * a22)) - a00 * (a03 * (a12 * a21))) by (nonlinear_arith)
        requires dh2_p0 == a02 * (a13 * a21) + a03 * (a11 * a22) - a03 * (a12 * a21);
    let d_p1 = idet3(a00, a02, a03, a10, a12, a13, a20, a22, a23);
    assert(a00 * (a12 * a23 - a13 * a22) == a00 * (a12 * a23) - a00 * (a13 * a22)) by (nonlinear_arith);
    assert(a02 * (a10 * a23 - a13 * a20) == a02 * (a10 * a23) - a02 * (a13 * a20)) by (nonlinear_arith);
    assert(a03 * (a10 * a22 - a12 * a20) == a03 * (a10 * a22) - a03 * (a12 * a20)) by (nonlinear_arith);
    let dh1_p1 = a00 * (a12 * a23) - a00 * (a13 * a22) - a02 * (a10 * a23);
    let dh2_p1 = a02 * (a13 * a20) + a03 * (a10 * a22) - a03 * (a12 * a20);
    assert(d_p1 == dh1_p1 + dh2_p1);
    assert(a01 * d_p1 == a01 * dh1_p1 + a01 * dh2_p1) by (nonlinear_arith)
        requires d_p1 == dh1_p1 + dh2_p1;
    assert(a01 * dh1_p1 == a01 * (a00 * (a12 * a23)) - a01 * (a00 * (a13 * a22)) - a01 * (a02 * (a10 * a23))) by (nonlinear_arith)
        requires dh1_p1 == a00 * (a12 * a23) - a00 * (a13 * a22) - a02 * (a10 * a23);
    assert(a01 * dh2_p1 == a01 * (a02 * (a13 * a20)) + a01 * (a03 * (a10 * a22)) - a01 * (a03 * (a12 * a20))) by (nonlinear_arith)
        requires dh2_p1 == a02 * (a13 * a20) + a03 * (a10 * a22) - a03 * (a12 * a20);
    assert(a01 * (a00 * (a12 * a23)) == a00 * (a01 * (a12 * a23))) by (nonlinear_arith);
    assert(a01 * (a00 * (a13 * a22)) == a00 * (a01 * (a13 * a22))) by (nonlinear_arith);
    let d_p2 = idet3(a00, a01, a03, a10, a11, a13, a20, a21, a23);
    assert(a00 * (a11 * a23 - a13 * a21) == a00 * (a11 * a23) - a00 * (a13 * a21)) by (nonlinear_arith);
    assert(a01 * (a10 * a23 - a13 * a20) == a01 * (a10 * a23) - a01 * (a13 * a20)) by (nonlinear_arith);
    assert(a03 * (a10 * a21 - a11 * a20) == a03 * (a10 * a21) - a03 * (a11 * a20)) by (nonlinear_arith);
    let dh1_p2 = a00 * (a11 * a23) - a00 * (a13 * a21) - a01 * (a10 * a23);
    let dh2_p2 = a01 * (a13 * a20) + a03 * (a10 * a21) - a03 * (a11 * a20);
    assert(d_p2 == dh1_p2 + dh2_p2);
    assert(a02 * d_p2 == a02 * dh1_p2 + a02 * dh2_p2) by (nonlinear_arith)
        requires d_p2 == dh1_p2 + dh2_p2;
    assert(a02 * dh1_p2 == a02 * (a00 * (a11 * a23)) - a02 * (a00 * (a13 * a21)) - a02 * (a01 * (a10 * a23))) by (nonlinear_arith)
        requires dh1_p2 == a00 * (a11 * a23) - a00 * (a13 * a21) - a01 * (a10 * a23);
    assert(a02 * dh2_p2 == a02 * (a01 * (a13 * a20)) + a02 * (a03 * (a10 * a21)) - a02 * (a03 * (a11 * a20))) by (nonlinear_arith)
        requires dh2_p2 == a01 * (a13 * a20) + a03 * (a10 * a21) - a03 * (a11 * a20);
    assert(a02 * (a00 * (a11 * a23)) == a00 * (a02 * (a11 * a23))) by (nonlinear_arith);
    assert(a02 * (a00 * (a13 * a21)) == a00 * (a02 * (a13 * a21))) by (nonlinear_arith);
    assert(a02 * (a01 * (a10 * a23)) == a01 * (a02 * (a10 * a23))) by (nonlinear_arith);
    assert(a02 * (a01 * (a13 * a20)) == a01 * (a02 * (a13 * a20))) by (nonlinear_arith);
    let d_p3 = idet3(a00, a01, a02, a10, a11, a12, a20, a21, a22);
    assert(a00 * (a11 * a22 - a12 * a21) == a00 * (a11 * a22) - a00 * (a12 * a21)) by (nonlinear_arith);
    assert(a01 * (a10 * a22 - a12 * a20) == a01 * (a10 * a22) - a01 * (a12 * a20)) by (nonlinear_arith);
    assert(a02 * (a10 * a21 - a11 * a20) == a02 * (a10 * a21) - a02 * (a11 * a20)) by (nonlinear_arith);
    let dh1_p3 = a00 * (a11 * a22) - a00 * (a12 * a21) - a01 * (a10 * a22);
    let dh2_p3 = a01 * (a12 * a20) + a02 * (a10 * a21) - a02 * (a11 * a20);
    assert(d_p3 == dh1_p3 + dh2_p3);
    assert(a03 * d_p3 == a03 * dh1_p3 + a03 * dh2_p3) by (nonlinear_arith)
        requires d_p3 == dh1_p3 + dh2_p3;
    assert(a03 * dh1_p3 == a03 * (a00 * (a11 * a22)) - a03 * (a00 * (a12 * a21)) - a03 * (a01 * (a10 * a22))) by (nonlinear_arith)
        requires dh1_p3 == a00 * (a11 * a22) - a00 * (a12 * a21) - a01 * (a10 * a22);
    assert(a03 * dh2_p3 == a03 * (a01 * (a12 * a20)) + a03 * (a02 * (a10 * a21)) - a03 * (a02 * (a11 * a20))) by (nonlinear_arith)
        requires dh2_p3 == a01 * (a12 * a20) + a02 * (a10 * a21) - a02 * (a11 * a20);
    assert(a03 * (a00 * (a11 * a22)) == a00 * (a03 * (a11 * a22))) by (nonlinear_arith);
    assert(a03 * (a00 * (a12 * a21)) == a00 * (a03 * (a12 * a21))) by (nonlinear_arith);
    assert(a03 * (a01 * (a10 * a22)) == a01 * (a03 * (a10 * a22))) by (nonlinear_arith);
    assert(a03 * (a01 * (a12 * a20)) == a01 * (a03 * (a12 * a20))) by (nonlinear_arith);
    assert(a03 * (a02 * (a10 * a21)) == a02 * (a03 * (a10 * a21))) by (nonlinear_arith);
    assert(a03 * (a02 * (a11 * a20)) == a02 * (a03 * (a11 * a20))) by (nonlinear_arith);
}

/// Row 1 against the cofactors of row 0 sums to zero.
proof fn lemma_adj_1_0(
    a00: int,
    a01: int,
    a02: int,
    a03: int,
    a10: int,
    a11: int,
    a12: int,
    a13: int,
    a20: int,
    a21: int,
    a22: int,
    a23: int,
    a30: int,
    a31: int,
    a32: int,
    a33: int,
)
    ensures
        a10 * idet3(a11, a12, a13, a21, a22, a23, a31, a32, a33) - a11 * idet3(a10, a12, a13, a20, a22, a23, a30, a32, a33) + a12 * idet3(a10, a11, a13, a20, a21, a23, a30, a31, a33) - a13 * idet3(a10, a11, a12, a20, a21, a22, a30, a31, a32) == 0,
{
    let d_p0 = idet3(a11, a12, a13, a21, a22, a23, a31, a32, a33);
    assert(a11 * (a22 * a33 - a23 * a32) == a11 * (a22 * a33) - a11 * (a23 * a32)) by (nonlinear_arith);
    assert(a12 * (a21 * a33 - a23 * a31) == a12 * (a21 * a33) - a12 * (a23 * a31)) by (nonlinear_arith);
    assert(a13 * (a21 * a32 - a22 * a31) == a13 * (a21 * a32) - a13 * (a22 * a31)) by (nonlinear_arith);
    let dh1_p0 = a11 * (a22 * a33) - a11 * (a23 * a32) - a12 * (a21 * a33);
    let dh2_p0 = a12 * (a23 * a31) + a13 * (a21 * a32) - a13 * (a22 * a31);
    assert(d_p0 == dh1_p0 + dh2_p0);
    assert(a10 * d_p0 == a10 * dh1_p0 + a10 * dh2_p0) by (nonlinear_arith)
        requires d_p0 == dh1_p0 + dh2_p0;
    assert(a10 * dh1_p0 == a10 * (a11 * (a22 * a33)) - a10 * (a11 * (a23 * a32)) - a10 * (a12 * (a21 * a33))) by (nonlinear_arith)
        requires dh1_p0 == a11 * (a22 * a33) - a11 * (a23 * a32) - a12 * (a21 * a33);
    assert(a10 * dh2_p0 == a10 * (a12 * (a23 * a31)) + a10 * (a13 * (a21 * a32)) - a10 * (a13 * (a22 * a31))) by (nonlinear_arith)
        requires dh2_p0 == a12 * (a23 * a31) + a13 * (a21 * a32) - a13 * (a22 * a31);
    let d_p1 = idet3(a10, a12, a13, a20, a22, a23, a30, a32, a33);
    assert(a10 * (a22 * a33 - a23 * a32) == a10 * (a22 * a33) - a10 * (a23 * a32)) by (nonlinear_arith);
    assert(a12 * (a20 * a33 - a23 * a30) == a12 * (a20 * a33) - a12 * (a23 * a30)) by (nonlinear_arith);
    assert(a13 * (a20 * a32 - a22 * a30) == a13 * (a20 * a32) - a13 * (a22 * a30)) by (nonlinear_arith);
    let dh1_p1 = a10 * (a22 * a33) - a10 * (a23 * a32) - a12 * (a20 * a33);
    let dh2_p1 = a12 * (a23 * a30) + a13 * (a20 * a32) - a13 * (a22 * a30);
    assert(d_p1 == dh1_p1 + dh2_p1);
    assert(a11 * d_p1 == a11 * dh1_p1 + a11 * dh2_p1) by (nonlinear_arith)
        requires d_p1 == dh1_p1 + dh2_p1;
    assert(a11 * dh1_p1 == a11 * (a10 * (a22 * a33)) - a11 * (a10 * (a23 * a32)) - a11 * (a12 * (a20 * a33))) by (nonlinear_arith)
        requires dh1_p1 == a10 * (a22 * a33) - a10 * (a23 * a32) - a12 * (a20 * a33);
    assert(a11 * dh2_p1 == a11 * (a12 * (a23 * a30)) + a11 * (a13 * (a20 * a32)) - a11 * (a13 * (a22 * a30))) by (nonlinear_arith)
        requires dh2_p1 == a12 * (a23 * a30) + a13 * (a20 * a32) - a13 * (a22 * a30);
    assert(a11 * (a10 * (a22 * a33)) == a10 * (a11 * (a22 * a33))) by (nonlinear_arith);
    assert(a11 * (a10 * (a23 * a32)) == a10 * (a11 * (a23 * a32))) by (nonlinear_arith);
    let d_p2 = idet3(a10, a11, a13, a20, a21, a23, a30, a31, a33);
    assert(a10 * (a21 * a33 - a23 * a31) == a10 * (a21 * a33) - a10 * (a23 * a31)) by (nonlinear_arith);
    assert(a11 * (a20 * a33 - a23 * a30) == a11 * (a20 * a33) - a11 * (a23 * a30)) by (nonlinear_arith);
    assert(a13 * (a20 * a31 - a21 * a30) == a13 * (a20 * a31) - a13 * (a21 * a30)) by (nonlinear_arith);
    let dh1_p2 = a10 * (a21 * a33) - a10 * (a23 * a31) - a11 * (a20 * a33);
    let dh2_p2 = a11 * (a23 * a30) + a13 * (a20 * a31) - a13 * (a21 * a30);
    assert(d_p2 == dh1_p2 + dh2_p2);
    assert(a12 * d_p2 == a12 * dh1_p2 + a12 * dh2_p2) by (nonlinear_arith)
        requires d_p2 == dh1_p2 + dh2_p2;
    assert(a12 * dh1_p2 == a12 * (a10 * (a21 * a33)) - a12 * (a10 * (a23 * a31)) - a12 * (a11 * (a20 * a33))) by (nonlinear_arith)
        requires dh1_p2 == a10 * (a21 * a33) - a10 * (a23 * a31) - a11 * (a20 * a33);
    assert(a12 * dh2_p2 == a12 * (a11 * (a23 * a30)) + a12 * (a13 * (a20 * a31)) - a12 * (a13 * (a21 * a30))) by (nonlinear_arith)
        requires dh2_p2 == a11 * (a23 * a30) + a13 * (a20 * a31) - a13 * (a21 * a30);
    assert(a12 * (a10 * (a21 * a33)) == a10 * (a12 * (a21 * a33))) by (nonlinear_arith);
    assert(a12 * (a10 * (a23 * a31)) == a10 * (a12 * (a23 * a31))) by (nonlinear_arith);
    assert(a12 * (a11 * (a20 * a33)) == a11 * (a12 * (a20 * a33))) by (nonlinear_arith);
    assert(a12 * (a11 * (a23 * a30)) == a11 * (a12 * (a23 * a30))) by (nonlinear_arith);
    let d_p3 = idet3(a10, a11, a12, a20, a21, a22, a30, a31, a32);
    assert(a10 * (a21 * a32 - a22 * a31) == a10 * (a21 * a32) - a10 * (a22 * a31)) by (nonlinear_arith);
    assert(a11 * (a20 * a32 - a22 * a30) == a11 * (a20 * a32) - a11 * (a22 * a30)) by (nonlinear_arith);
    assert(a12 * (a20 * a31 - a21 * a30) == a12 * (a20 * a31) - a12 * (a21 * a30)) by (nonlinear_arith);
    let dh1_p3 = a10 * (a21 * a32) - a10 * (a22 * a31) - a11 * (a20 * a32);
    let dh2_p3 = a11 * (a22 * a30) + a12 * (a20 * a31) - a12 * (a21 * a30);
    assert(d_p3 == dh1_p3 + dh2_p3);
    assert(a13 * d_p3 == a13 * dh1_p3 + a13 * dh2_p3) by (nonlinear_arith)
        requires d_p3 == dh1_p3 + dh2_p3;
    assert(a13 * dh1_p3 == a13 * (a10 * (a21 * a32)) - a13 * (a10 * (a22 * a31)) - a13 * (a11 * (a20 * a32))) by (nonlinear_arith)
        requires dh1_p3 == a10 * (a21 * a32) - a10 * (a22 * a31) - a11 * (a20 * a32);
    assert(a13 * dh2_p3 == a13 * (a11 * (a22 * a30)) + a13 * (a12 * (a20 * a31)) - a13 * (a12 * (a21 * a30))) by (nonlinear_arith)
        requires dh2_p3 == a11 * (a22 * a30) + a12 * (a20 * a31) - a12 * (a21 * a30);
    assert(a13 * (a10 * (a21 * a32)) == a10 * (a13 * (a21 * a32))) by (nonlinear_arith);
    assert(a13 * (a10 * (a22 * a31)) == a10 * (a13 * (a22 * a31))) by (nonlinear_arith);
    assert(a13 * (a11 * (a20 * a32)) == a11 * (a13 * (a20 * a32))) by (nonlinear_arith);
    assert(a13 * (a11 * (a22 * a30)) == a11 * (a13 * (a22 * a30))) by (nonlinear_arith);
    assert(a13 * (a12 * (a20 * a31)) == a12 * (a13 * (a20 * a31))) by (nonlinear_arith);
    assert(a13 * (a12 * (a21 * a30)) == a12 * (a13 * (a21 * a30))) by (nonlinear_arith);
}

/// Cofactor expansion along row 1 gives the determinant again.
proof fn lemma_adj_1_1(
    a00: int,
    a01: int,
    a02: int,
    a03: int,
    a10: int,
    a11: int,
    a12: int,
    a13: int,
    a20: int,
    a21: int,
    a22: int,
    a23: int,
    a30: int,
    a31: int,
    a32: int,
    a33: int,
)
    ensures
        -(a10 * idet3(a01, a02, a03, a21, a22, a23, a31, a32, a33)) + a11 * idet3(a00, a02, a03, a20, a22, a23, a30, a32, a33) - a12 * idet3(a00, a01, a03, a20, a21, a23, a30, a31, a33) + a13 * idet3(a00, a01, a02, a20, a21, a22, a30, a31, a32) == a00 * idet3(a11, a12, a13, a21, a22, a23, a31, a32, a33) - a01 * idet3(a10, a12, a13, a20, a22, a23, a30, a32, a33) + a02 * idet3(a10, a11, a13, a20, a21, a23, a30, a31, a33) - a03 * idet3(a10, a11, a12, a20, a21, a22, a30, a31, a32),
{
    let d_p0 = idet3(a01, a02, a03, a21, a22, a23, a31, a32, a33);
    assert(a01 * (a22 * a33 - a23 * a32) == a01 * (a22 * a33) - a01 * (a23 * a32)) by (nonlinear_arith);
    assert(a02 * (a21 * a33 - a23 * a31) == a02 * (a21 * a33) - a02 * (a23 * a31)) by (nonlinear_arith);
    assert(a03 * (a21 * a32 - a22 * a31) == a03 * (a21 * a32) - a03 * (a22 * a31)) by (nonlinear_arith);
    let dh1_p0 = a01 * (a22 * a33) - a01 * (a23 * a32) - a02 * (a21 * a33);
    let dh2_p0 = a02 * (a23 * a31) + a03 * (a21 * a32) - a03 * (a22 * a31);
    assert(d_p0 == dh1_p0 + dh2_p0);
    assert(a10 * d_p0 == a10 * dh1_p0 + a10 * dh2_p0) by (nonlinear_arith)
        requires d_p0 == dh1_p0 + dh2_p0;
    assert(a10 * dh1_p0 == a10 * (a01 * (a22 * a33)) - a10 * (a01 * (a23 * a32)) - a10 * (a02 * (a21 * a33))) by (nonlinear_arith)
        requires dh1_p0 == a01 * (a22 * a33) - a01 * (a23 * a32) - a02 * (a21 * a33);
    assert(a10 * dh2_p0 == a10 * (a02 * (a23 * a31)) + a10 * (a03 * (a21 * a32)) - a10 * (a03 * (a22 * a31))) by (nonlinear_arith)
        requires dh2_p0 == a02 * (a23 * a31) + a03 * (a21 * a32) - a03 * (a22 * a31);
    assert(a10 * (a01 * (a22 * a33)) == a01 * (a10 * (a22 * a33))) by (nonlinear_arith);
    assert(a10 * (a01 * (a23 * a32)) == a01 * (a10 * (a23 * a32))) by (nonlinear_arith);
    assert(a10 * (a02 * (a21 * a33)) == a02 * (a10 * (a21 * a33))) by (nonlinear_arith);
    assert(a10 * (a02 * (a23 * a31)) == a02 * (a10 * (a23 * a31))) by (nonlinear_arith);
    assert(a10 * (a03 * (a21 * a32)) == a03 * (a10 * (a21 * a32))) by (nonlinear_arith);
    assert(a10 * (a03 * (a22 * a31)) == a03 * (a10 * (a22 * a31))) by (nonlinear_arith);
    let d_p1 = idet3(a00, a02, a03, a20, a22, a23, a30, a32, a33);
    assert(a00 * (a22 * a33 - a23 * a32) == a00 * (a22 * a33) - a00 * (a23 * a32)) by (nonlinear_arith);
    assert(a02 * (a20 * a33 - a23 * a30) == a02 * (a20 * a33) - a02 * (a23 * a30)) by (nonlinear_arith);
    assert(a03 * (a20 * a32 - a22 * a30) == a03 * (a20 * a32) - a03 * (a22 * a30)) by (nonlinear_arith);
    let dh1_p1 = a00 * (a22 * a33) - a00 * (a23 * a32) - a02 * (a20 * a33);
    let dh2_p1 = a02 * (a23 * a30) + a03 * (a20 * a32) - a03 * (a22 * a30);
    assert(d_p1 == dh1_p1 + dh2_p1);
    assert(a11 * d_p1 == a11 * dh1_p1 + a11 * dh2_p1) by (nonlinear_arith)
        requires d_p1 == dh1_p1 + dh2_p1;
    assert(a11 * dh1_p1 == a11 * (a00 * (a22 * a33)) - a11 * (a00 * (a23 * a32)) - a11 * (a02 * (a20 * a33))) by (nonlinear_arith)
        requires dh1_p1 == a00 * (a22 * a33) - a00 * (a23 * a32) - a02 * (a20 * a33);
    assert(a11 * dh2_p1 == a11 * (a02 * (a23 * a30)) + a11 * (a03 * (a20 * a32)) - a11 * (a03 * (a22 * a30))) by (nonlinear_arith)
        requires dh2_p1 == a02 * (a23 * a30) + a03 * (a20 * a32) - a03 * (a22 * a30);
    assert(a11 * (a00 * (a22 * a33)) == a00 * (a11 * (a22 * a33))) by (nonlinear_arith);
    assert(a11 * (a00 * (a23 * a32)) == a00 * (a11 * (a23 * a32))) by (nonlinear_arith);
    assert(a11 * (a02 * (a20 * a33)) == a02 * (a11 * (a20 * a33))) by (nonlinear_arith);
    assert(a11 * (a02 * (a23 * a30)) == a02 * (a11 * (a23 * a30))) by (nonlinear_arith);
    assert(a11 * (a03 * (a20 * a32)) == a03 * (a11 * (a20 * a32))) by (nonlinear_arith);
    assert(a11 * (a03 * (a22 * a30)) == a03 * (a11 * (a22 * a30))) by (nonlinear_arith);
    let d_p2 = idet3(a00, a01, a03, a20, a21, a23, a30, a31, a33);
    assert(a00 * (a21 * a33 - a23 * a31) == a00 * (a21 * a33) - a00 * (a23 * a31)) by (nonlinear_arith);
    assert(a01 * (a20 * a33 - a23 * a30) == a01 * (a20 * a33) - a01 * (a23 * a30)) by (nonlinear_arith);
    assert(a03 * (a20 * a31 - a21 * a30) == a03 * (a20 * a31) - a03 * (a21 * a30)) by (nonlinear_arith);
    let dh1_p2 = a00 * (a21 * a33) - a00 * (a23 * a31) - a01 * (a20 * a33);
    let dh2_p2 = a01 * (a23 * a30) + a03 * (a20 * a31) - a03 * (a21 * a30);
    assert(d_p2 == dh1_p2 + dh2_p2);
    assert(a12 * d_p2 == a12 * dh1_p2 + a12 * dh2_p2) by (nonlinear_arith)
        requires d_p2 == dh1_p2 + dh2_p2;
    assert(a12 * dh1_p2 == a12 * (a00 * (a21 * a33)) - a12 * (a00 * (a23 * a31)) - a12 * (a01 * (a20 * a33))) by (nonlinear_arith)
        requires dh1_p2 == a00 * (a21 * a33) - a00 * (a23 * a31) - a01 * (a20 * a33);
    assert(a12 * dh2_p2 == a12 * (a01 * (a23 * a30)) + a12 * (a03 * (a20 * a31)) - a12 * (a03 * (a21 * a30))) by (nonlinear_arith)
        requires dh2_p2 == a01 * (a23 * a30) + a03 * (a20 * a31) - a03 * (a21 * a30);
    assert(a12 * (a00 * (a21 * a33)) == a00 * (a12 * (a21 * a33))) by (nonlinear_arith);
    assert(a12 * (a00 * (a23 * a31)) == a00 * (a12 * (a23 * a31))) by (nonlinear_arith);
    assert(a12 * (a01 * (a20 * a33)) == a01 * (a12 * (a20 * a33))) by (nonlinear_arith);
    assert(a12 * (a01 * (a23 * a30)) == a01 * (a12 * (a23 * a30))) by (nonlinear_arith);
    assert(a12 * (a03 * (a20 * a31)) == a03 * (a12 * (a20 * a31))) by (nonlinear_arith);
    assert(a12 * (a03 * (a21 * a30)) == a03 * (a12 * (a21 * a30))) by (nonlinear_arith);
    let d_p3 = idet3(a00, a01, a02, a20, a21, a22, a30, a31, a32);
    assert(a00 * (a21 * a32 - a22 * a31) == a00 * (a21 * a32) - a00 * (a22 * a31)) by (nonlinear_arith);
    assert(a01 * (a20 * a32 - a22 * a30) == a01 * (a20 * a32) - a01 * (a22 * a30)) by (nonlinear_arith);
    assert(a02 * (a20 * a31 - a21 * a30) == a02 * (a20 * a31) - a02 * (a21 * a30)) by (nonlinear_arith);
    let dh1_p3 = a00 * (a21 * a32) - a00 * (a22 * a31) - a01 * (a20 * a32);
    let dh2_p3 = a01 * (a22 * a30) + a02 * (a20 * a31) - a02 * (a21 * a30);
    assert(d_p3 == dh1_p3 + dh2_p3);
    assert(a13 * d_p3 == a13 * dh1_p3 + a13 * dh2_p3) by (nonlinear_arith)
        requires d_p3 == dh1_p3 + dh2_p3;
    assert(a13 * dh1_p3 == a13 * (a00 * (a21 * a32)) - a13 * (a00 * (a22 * a31)) - a13 * (a01 * (a20 * a32))) by (nonlinear_arith)
        requires dh1_p3 == a00 * (a21 * a32) - a00 * (a22 * a31) - a01 * (a20 * a32);
    assert(a13 * dh2_p3 == a13 * (a01 * (a22 * a30)) + a13 * (a02 * (a20 * a31)) - a13 * (a02 * (a21 * a30))) by (nonlinear_arith)
        requires dh2_p3 == a01 * (a22 * a30) + a02 * (a20 * a31) - a02 * (a21 * a30);
    assert(a13 * (a00 * (a21 * a32)) == a00 * (a13 * (a21 * a32))) by (nonlinear_arith);
    assert(a13 * (a00 * (a22 * a31)) == a00 * (a13 * (a22 * a31))) by (nonlinear_arith);
    assert(a13 * (a01 * (a20 * a32)) == a01 * (a13 * (a20 * a32))) by (nonlinear_arith);
    assert(a13 * (a01 * (a22 * a30)) == a01 * (a13 * (a22 * a30))) by (nonlinear_arith);
    assert(a13 * (a02 * (a20 * a31)) == a02 * (a13 * (a20 * a31))) by (nonlinear_arith);
    assert(a13 * (a02 * (a21 * a30)) == a02 * (a13 * (a21 * a30))) by (nonlinear_arith);
    let d_q0 = idet3(a11, a12, a13, a21, a22, a23, a31, a32, a33);
    assert(a11 * (a22 * a33 - a23 * a32) == a11 * (a22 * a33) - a11 * (a23 * a32)) by (nonlinear_arith);
    assert(a12 * (a21 * a33 - a23 * a31) == a12 * (a21 * a33) - a12 * (a23 * a31)) by (nonlinear_arith);
    assert(a13 * (a21 * a32 - a22 * a31) == a13 * (a21 * a32) - a13 * (a22 * a31)) by (nonlinear_arith);
    let dh1_q0 = a11 * (a22 * a33) - a11 * (a23 * a32) - a12 * (a21 * a33);
    let dh2_q0 = a12 * (a23 * a31) + a13 * (a21 * a32) - a13 * (a22 * a31);
    assert(d_q0 == dh1_q0 + dh2_q0);
    assert(a00 * d_q0 == a00 * dh1_q0 + a00 * dh2_q0) by (nonlinear_arith)
        requires d_q0 == dh1_q0 + dh2_q0;
    assert(a00 * dh1_q0 == a00 * (a11 * (a22 * a33)) - a00 * (a11 * (a23 * a32)) - a00 * (a12 * (a21 * a33))) by (nonlinear_arith)
        requires dh1_q0 == a11 * (a22 * a33) - a11 * (a23 * a32) - a12 * (a21 * a33);
    assert(a00 * dh2_q0 == a00 * (a12 * (a23 * a31)) + a00 * (a13 * (a21 * a32)) - a00 * (a13 * (a22 * a31))) by (nonlinear_arith)
        requires dh2_q0 == a12 * (a23 * a31) + a13 * (a21 * a32) - a13 * (a22 * a31);
    let d_q1 = idet3(a10, a12, a13, a20, a22, a23, a30, a32, a33);
    assert(a10 * (a22 * a33 - a23 * a32) == a10 * (a22 * a33) - a10 * (a23 * a32)) by (nonlinear_arith);
    assert(a12 * (a20 * a33 - a23 * a30) == a12 * (a20 * a33) - a12 * (a23 * a30)) by (nonlinear_arith);
    assert(a13 * (a20 * a32 - a22 * a30) == a13 * (a20 * a32) - a13 * (a22 * a30)) by (nonlinear_arith);
    let dh1_q1 = a10 * (a22 * a33) - a10 * (a23 * a32) - a12 * (a20 * a33);
    let dh2_q1 = a12 * (a23 * a30) + a13 * (a20 * a32) - a13 * (a22 * a30);
    assert(d_q1 == dh1_q1 + dh2_q1);
    assert(a01 * d_q1 == a01 * dh1_q1 + a01 * dh2_q1) by (nonlinear_arith)
        requires d_q1 == dh1_q1 + dh2_q1;
    assert(a01 * dh1_q1 == a01 * (a10 * (a22 * a33)) - a01 * (a10 * (a23 * a32)) - a01 * (a12 * (a20 * a33))) by (nonlinear_arith)
        requires dh1_q1 == a10 * (a22 * a33) - a10 * (a23 * a32) - a12 * (a20 * a33);
    assert(a01 * dh2_q1 == a01 * (a12 * (a23 * a30)) + a01 * (a13 * (a20 * a32)) - a01 * (a13 * (a22 * a30))) by (nonlinear_arith)
        requires dh2_q1 == a12 * (a23 * a30) + a13 * (a20 * a32) - a13 * (a22 * a30);
    let d_q2 = idet3(a10, a11, a13, a20, a21, a23, a30, a31, a33);
    assert(a10 * (a21 * a33 - a23 * a31) == a10 * (a21 * a33) - a10 * (a23 * a31)) by (nonlinear_arith);
    assert(a11 * (a20 * a33 - a23 * a30) == a11 * (a20 * a33) - a11 * (a23 * a30)) by (nonlinear_arith);
    assert(a13 * (a20 * a31 - a21 * a30) == a13 * (a20 * a31) - a13 * (a21 * a30)) by (nonlinear_arith);
    let dh1_q2 = a10 * (a21 * a33) - a10 * (a23 * a31) - a11 * (a20 * a33);
    let dh2_q2 = a11 * (a23 * a30) + a13 * (a20 * a31) - a13 * (a21 * a30);
    assert(d_q2 == dh1_q2 + dh2_q2);
    assert(a02 * d_q2 == a02 * dh1_q2 + a02 * dh2_q2) by (nonlinear_arith)
        requires d_q2 == dh1_q2 + dh2_q2;
    assert(a02 * dh1_q2 == a02 * (a10 * (a21 * a33)) - a02 * (a10 * (a23 * a31)) - a02 * (a11 * (a20 * a33))) by (nonlinear_arith)
        requires dh1_q2 == a10 * (a21 * a33) - a10 * (a23 * a31) - a11 * (a20 * a33);
    assert(a02 * dh2_q2 == a02 * (a11 * (a23 * a30)) + a02 * (a13 * (a20 * a31)) - a02 * (a13 * (a21 * a30))) by (nonlinear_arith)
        requires dh2_q2 == a11 * (a23 * a30) + a13 * (a20 * a31) - a13 * (a21 * a30);
    let d_q3 = idet3(a10, a11, a12, a20, a21, a22, a30, a31, a32);
    assert(a10 * (a21 * a32 - a22 * a31) == a10 * (a21 * a32) - a10 * (a22 * a31)) by (nonlinear_arith);
    assert(a11 * (a20 * a32 - a22 * a30) == a11 * (a20 * a32) - a11 * (a22 * a30)) by (nonlinear_arith);
    assert(a12 * (a20 * a31 - a21 * a30) == a12 * (a20 * a31) - a12 * (a21 * a30)) by (nonlinear_arith);
    let dh1_q3 = a10 * (a21 * a32) - a10 * (a22 * a31) - a11 * (a20 * a32);
    let dh2_q3 = a11 * (a22 * a30) + a12 * (a20 * a31) - a12 * (a21 * a30);
    assert(d_q3 == dh1_q3 + dh2_q3);
    assert(a03 * d_q3 == a03 * dh1_q3 + a03 * dh2_q3) by (nonlinear_arith)
        requires d_q3 == dh1_q3 + dh2_q3;
    assert(a03 * dh1_q3 == a03 * (a10 * (a21 * a32)) - a03 * (a10 * (a22 * a31)) - a03 * (a11 * (a20 * a32))) by (nonlinear_arith)
        requires dh1_q3 == a10 * (a21 * a32) - a10 * (a22 * a31) - a11 * (a20 * a32);
    assert(a03 * dh2_q3 == a03 * (a11 * (a22 * a30)) + a03 * (a12 * (a20 * a31)) - a03 * (a12 * (a21 * a30))) by (nonlinear_arith)
        requires dh2_q3 == a11 * (a22 * a30) + a12 * (a20 * a31) - a12 * (a21 * a30);
}

/// Row 1 against the cofactors of row 2 sums to zero.
proof fn lemma_adj_1_2(
    a00: int,
    a01: int,
    a02: int,
    a03: int,
    a10: int,
    a11: int,
    a12: int,
    a13: int,
    a20: int,
    a21: int,
    a22: int,
    a23: int,
    a30: int,
    a31: int,
    a32: int,
    a33: int,
)
    ensures
        a10 * idet3(a01, a02, a03, a11, a12, a13, a31, a32, a33) - a11 * idet3(a00, a02, a03, a10, a12, a13, a30, a32, a33) + a12 * idet3(a00, a01, a03, a10, a11, a13, a30, a31, a33) - a13 * idet3(a00, a01, a02, a10, a11, a12, a30, a31, a32) == 0,
{
    let d_p0 = idet3(a01, a02, a03, a11, a12, a13, a31, a32, a33);
    assert(a01 * (a12 * a33 - a13 * a32) == a01 * (a12 * a33) - a01 * (a13 * a32)) by (nonlinear_arith);
    assert(a02 * (a11 * a33 - a13 * a31) == a02 * (a11 * a33) - a02 * (a13 * a31)) by (nonlinear_arith);
    assert(a03 * (a11 * a32 - a12 * a31) == a03 * (a11 * a32) - a03 * (a12 * a31)) by (nonlinear_arith);
    let dh1_p0 = a01 * (a12 * a33) - a01 * (a13 * a32) - a02 * (a11 * a33);
    let dh2_p0 = a02 * (a13 * a31) + a03 * (a11 * a32) - a03 * (a12 * a31);
    assert(d_p0 == dh1_p0 + dh2_p0);
    assert(a10 * d_p0 == a10 * dh1_p0 + a10 * dh2_p0) by (nonlinear_arith)
        requires d_p0 == dh1_p0 + dh2_p0;
    assert(a10 * dh1_p0 == a10 * (a01 * (a12 * a33)) - a10 * (a01 * (a13 * a32)) - a10 * (a02 * (a11 * a33))) by (nonlinear_arith)
        requires dh1_p0 == a01 * (a12 * a33) - a01 * (a13 * a32) - a02 * (a11 * a33);
    assert(a10 * dh2_p0 == a10 * (a02 * (a13 * a31)) + a10 * (a03 * (a11 * a32)) - a10 * (a03 * (a12 * a31))) by (nonlinear_arith)
        requires dh2_p0 == a02 * (a13 * a31) + a03 * (a11 * a32) - a03 * (a12 * a31);
    assert(a10 * (a01 * (a12 * a33)) == a01 * (a10 * (a12 * a33))) by (nonlinear_arith);
    assert(a10 * (a01 * (a13 * a32)) == a01 * (a10 * (a13 * a32))) by (nonlinear_arith);
    assert(a10 * (a02 * (a11 * a33)) == a02 * (a10 * (a11 * a33))) by (nonlinear_arith);
    assert(a10 * (a02 * (a13 * a31)) == a02 * (a10 * (a13 * a31))) by (nonlinear_arith);
    assert(a10 * (a03 * (a11 * a32)) == a03 * (a10 * (a11 * a32))) by (nonlinear_arith);
    assert(a10 * (a03 * (a12 * a31)) == a03 * (a10 * (a12 * a31))) by (nonlinear_arith);
    let d_p1 = idet3(a00, a02, a03, a10, a12, a13, a30, a32, a33);
    assert(a00 * (a12 * a33 - a13 * a32) == a00 * (a12 * a33) - a00 * (a13 * a32)) by (nonlinear_arith);
    assert(a02 * (a10 * a33 - a13 * a30) == a02 * (a10 * a33) - a02 * (a13 * a30)) by (nonlinear_arith);
    assert(a03 * (a10 * a32 - a12 * a30) == a03 * (a10 * a32) - a03 * (a12 * a30)) by (nonlinear_arith);
    let dh1_p1 = a00 * (a12 * a33) - a00 * (a13 * a32) - a02 * (a10 * a33);
    let dh2_p1 = a02 * (a13 * a30) + a03 * (a10 * a32) - a03 * (a12 * a30);
    assert(d_p1 == dh1_p1 + dh2_p1);
    assert(a11 * d_p1 == a11 * dh1_p1 + a11 * dh2_p1) by (nonlinear_arith)
        requires d_p1 == dh1_p1 + dh2_p1;
    assert(a11 * dh1_p1 == a11 * (a00 * (a12 * a33)) - a11 * (a00 * (a13 * a32)) - a11 * (a02 * (a10 * a33))) by (nonlinear_arith)
        requires dh1_p1 == a00 * (a12 * a33) - a00 * (a13 * a32) - a02 * (a10 * a33);
    assert(a11 * dh2_p1 == a11 * (a02 * (a13 * a30)) + a11 * (a03 * (a10 * a32)) - a11 * (a03 * (a12 * a30))) by (nonlinear_arith)
        requires dh2_p1 == a02 * (a13 * a30) + a03 * (a10 * a32) - a03 * (a12 * a30);
    assert(a11 * (a00 * (a12 * a33)) == a00 * (a11 * (a12 * a33))) by (nonlinear_arith);
    assert(a11 * (a00 * (a13 * a32)) == a00 * (a11 * (a13 * a32))) by (nonlinear_arith);
    assert(a11 * (a02 * (a10 * a33)) == a02 * (a10 * (a11 * a33))) by (nonlinear_arith);
    assert(a11 * (a02 * (a13 * a30)) == a02 * (a11 * (a13 * a30))) by (nonlinear_arith);
    assert(a11 * (a03 * (a10 * a32)) == a03 * (a10 * (a11 * a32))) by (nonlinear_arith);
    assert(a11 * (a03 * (a12 * a30)) == a03 * (a11 * (a12 * a30))) by (nonlinear_arith);
    let d_p2 = idet3(a00, a01, a03, a10, a11, a13, a30, a31, a33);
    assert(a00 * (a11 * a33 - a13 * a31) == a00 * (a11 * a33) - a00 * (a13 * a31)) by (nonlinear_arith);
    assert(a01 * (a10 * a33 - a13 * a30) == a01 * (a10 * a33) - a01 * (a13 * a30)) by (nonlinear_arith);
    assert(a03 * (a10 * a31 - a11 * a30) == a03 * (a10 * a31) - a03 * (a11 * a30)) by (nonlinear_arith);
    let dh1_p2 = a00 * (a11 * a33) - a00 * (a13 * a31) - a01 * (a10 * a33);
    let dh2_p2 = a01 * (a13 * a30) + a03 * (a10 * a31) - a03 * (a11 * a30);
    assert(d_p2 == dh1_p2 + dh2_p2);
    assert(a12 * d_p2 == a12 * dh1_p2 + a12 * dh2_p2) by (nonlinear_arith)
        requires d_p2 == dh1_p2 + dh2_p2;
    assert(a12 * dh1_p2 == a12 * (a00 * (a11 * a33)) - a12 * (a00 * (a13 * a31)) - a12 * (a01 * (a10 * a33))) by (nonlinear_arith)
        requires dh1_p2 == a00 * (a11 * a33) - a00 * (a13 * a31) - a01 * (a10 * a33);
    assert(a12 * dh2_p2 == a12 * (a01 * (a13 * a30)) + a12 * (a03 * (a10 * a31)) - a12 * (a03 * (a11 * a30))) by (nonlinear_arith)
        requires dh2_p2 == a01 * (a13 * a30) + a03 * (a10 * a31) - a03 * (a11 * a30);
    assert(a12 * (a00 * (a11 * a33)) == a00 * (a11 * (a12 * a33))) by (nonlinear_arith);
    assert(a12 * (a00 * (a13 * a31)) == a00 * (a12 * (a13 * a31))) by (nonlinear_arith);
    assert(a12 * (a01 * (a10 * a33)) == a01 * (a10 * (a12 * a33))) by (nonlinear_arith);
    assert(a12 * (a01 * (a13 * a30)) == a01 * (a12 * (a13 * a30))) by (nonlinear_arith);
    assert(a12 * (a03 * (a10 * a31)) == a03 * (a10 * (a12 * a31))) by (nonlinear_arith);
    assert(a12 * (a03 * (a11 * a30)) == a03 * (a11 * (a12 * a30))) by (nonlinear_arith);
    let d_p3 = idet3(a00, a01, a02, a10, a11, a12, a30, a31, a32);
    assert(a00 * (a11 * a32 - a12 * a31) == a00 * (a11 * a32) - a00 * (a12 * a31)) by (nonlinear_arith);
    assert(a01 * (a10 * a32 - a12 * a30) == a01 * (a10 * a32) - a01 * (a12 * a30)) by (nonlinear_arith);
    assert(a02 * (a10 * a31 - a11 * a30) == a02 * (a10 * a31) - a02 * (a11 * a30)) by (nonlinear_arith);
    let dh1_p3 = a00 * (a11 * a32) - a00 * (a12 * a31) - a01 * (a10 * a32);
    let dh2_p3 = a01 * (a12 * a30) + a02 * (a10 * a31) - a02 * (a11 * a30);
    assert(d_p3 == dh1_p3 + dh2_p3);
    assert(a13 * d_p3 == a13 * dh1_p3 + a13 * dh2_p3) by (nonlinear_arith)
        requires d_p3 == dh1_p3 + dh2_p3;
    assert(a13 * dh1_p3 == a13 * (a00 * (a11 * a32)) - a13 * (a00 * (a12 * a31)) - a13 * (a01 * (a10 * a32))) by (nonlinear_arith)
        requires dh1_p3 == a00 * (a11 * a32) - a00 * (a12 * a31) - a01 * (a10 * a32);
    assert(a13 * dh2_p3 == a13 * (a01 * (a12 * a30)) + a13 * (a02 * (a10 * a31)) - a13 * (a02 * (a11 * a30))) by (nonlinear_arith)
        requires dh2_p3 == a01 * (a12 * a30) + a02 * (a10 * a31) - a02 * (a11 * a30);
    assert(a13 * (a00 * (a11 * a32)) == a00 * (a11 * (a13 * a32))) by (nonlinear_arith);
    assert(a13 * (a00 * (a12 * a31)) == a00 * (a12 * (a13 * a31))) by (nonlinear_arith);
    assert(a13 * (a01 * (a10 * a32)) == a01 * (a10 * (a13 * a32))) by (nonlinear_arith);
    assert(a13 * (a01 * (a12 * a30)) == a01 * (a12 * (a13 * a30))) by (nonlinear_arith);
    assert(a13 * (a02 * (a10 * a31)) == a02 * (a10 * (a13 * a31))) by (nonlinear_arith);
    assert(a13 * (a02 * (a11 * a30)) == a02 * (a11 * (a13 * a30))) by (nonlinear_arith);
}

/// Row 1 against the cofactors of row 3 sums to zero.
proof fn lemma_adj_1_3(
    a00: int,
    a01: int,
    a02: int,
    a03: int,
    a10: int,
    a11: int,
    a12: int,
    a13: int,
    a20: int,
    a21: int,
    a22: int,
    a23: int,
    a30: int,
    a31: int,
    a32: int,
    a33: int,
)
    ensures
        -(a10 * idet3(a01, a02, a03, a11, a12, a13, a21, a22, a23)) + a11 * idet3(a00, a02, a03, a10, a12, a13, a20, a22, a23) - a12 * idet3(a00, a01, a03, a10, a11, a13, a20, a21, a23) + a13 * idet3(a00, a01, a02, a10, a11, a12, a20, a21, a22) == 0,
{
    let d_p0 = idet3(a01, a02, a03, a11, a12, a13, a21, a22, a23);
    assert(a01 * (a12 * a23 - a13 * a22) == a01 * (a12 * a23) - a01 * (a13 * a22)) by (nonlinear_arith);
    assert(a02 * (a11 * a23 - a13 * a21) == a02 * (a11 * a23) - a02 * (a13 * a21)) by (nonlinear_arith);
    assert(a03 * (a11 * a22 - a12 * a21) == a03 * (a11 * a22) - a03 * (a12 * a21)) by (nonlinear_arith);
    let dh1_p0 = a01 * (a12 * a23) - a01 * (a13 * a22) - a02 * (a11 * a23);
    let dh2_p0 = a02 * (a13 * a21) + a03 * (a11 * a22) - a03 * (a12 * a21);
    assert(d_p0 == dh1_p0 + dh2_p0);
    assert(a10 * d_p0 == a10 * dh1_p0 + a10 * dh2_p0) by (nonlinear_arith)
        requires d_p0 == dh1_p0 + dh2_p0;
    assert(a10 * dh1_p0 == a10 * (a01 * (a12 * a23)) - a10 * (a01 * (a13 * a22)) - a10 * (a02 * (a11 * a23))) by (nonlinear_arith)
        requires dh1_p0 == a01 * (a12 * a23) - a01 * (a13 * a22) - a02 * (a11 * a23);
    assert(a10 * dh2_p0 == a10 * (a02 * (a13 * a21)) + a10 * (a03 * (a11 * a22)) - a10 * (a03 * (a12 * a21))) by (nonlinear_arith)
        requires dh2_p0 == a02 * (a13 * a21) + a03 * (a11 * a22) - a03 * (a12 * a21);
    assert(a10 * (a01 * (a12 * a23)) == a01 * (a10 * (a12 * a23))) by (nonlinear_arith);
    assert(a10 * (a01 * (a13 * a22)) == a01 * (a10 * (a13 * a22))) by (nonlinear_arith);
    assert(a10 * (a02 * (a11 * a23)) == a02 * (a10 * (a11 * a23))) by (nonlinear_arith);
    assert(a10 * (a02 * (a13 * a21)) == a02 * (a10 * (a13 * a21))) by (nonlinear_arith);
    assert(a10 * (a03 * (a11 * a22)) == a03 * (a10 * (a11 * a22))) by (nonlinear_arith);
    assert(a10 * (a03 * (a12 * a21)) == a03 * (a10 * (a12 * a21))) by (nonlinear_arith);
    let d_p1 = idet3(a00, a02, a03, a10, a12, a13, a20, a22, a23);
    assert(a00 * (a12 * a23 - a13 * a22) == a00 * (a12 * a23) - a00 * (a13 * a22)) by (nonlinear_arith);
    assert(a02 * (a10 * a23 - a13 * a20) == a02 * (a10 * a23) - a02 * (a13 * a20)) by (nonlinear_arith);
    assert(a03 * (a10 * a22 - a12 * a20) == a03 * (a10 * a22) - a03 * (a12 * a20)) by (nonlinear_arith);
    let dh1_p1 = a00 * (a12 * a23) - a00 * (a13 * a22) - a02 * (a10 * a23);
    let dh2_p1 = a02 * (a13 * a20) + a03 * (a10 * a22) - a03 * (a12 * a20);
    assert(d_p1 == dh1_p1 + dh2_p1);
    assert(a11 * d_p1 == a11 * dh1_p1 + a11 * dh2_p1) by (nonlinear_arith)
        requires d_p1 == dh1_p1 + dh2_p1;
    assert(a11 * dh1_p1 == a11 * (a00 * (a12 * a23)) - a11 * (a00 * (a13 * a22)) - a11 * (a02 * (a10 * a23))) by (nonlinear_arith)
        requires dh1_p1 == a00 * (a12 * a23) - a00 * (a13 * a22) - a02 * (a10 * a23);
    assert(a11 * dh2_p1 == a11 * (a02 * (a13 * a20)) + a11 * (a03 * (a10 * a22)) - a11 * (a03 * (a12 * a20))) by (nonlinear_arith)
        requires dh2_p1 == a02 * (a13 * a20) + a03 * (a10 * a22) - a03 * (a12 * a20);
    assert(a11 * (a00 * (a12 * a23)) == a00 * (a11 * (a12 * a23))) by (nonlinear_arith);
    assert(a11 * (a00 * (a13 * a22)) == a00 * (a11 * (a13 * a22))) by (nonlinear_arith);
    assert(a11 * (a02 * (a10 * a23)) == a02 * (a10 * (a11 * a23))) by (nonlinear_arith);
    assert(a11 * (a02 * (a13 * a20)) == a02 * (a11 * (a13 * a20))) by (nonlinear_arith);
    assert(a11 * (a03 * (a10 * a22)) == a03 * (a10 * (a11 * a22))) by (nonlinear_arith);
    assert(a11 * (a03 * (a12 * a20)) == a03 * (a11 * (a12 * a20))) by (nonlinear_arith);
    let d_p2 = idet3(a00, a01, a03, a10, a11, a13, a20, a21, a23);
    assert(a00 * (a11 * a23 - a13 * a21) == a00 * (a11 * a23) - a00 * (a13 * a21)) by (nonlinear_arith);
    assert(a01 * (a10 * a23 - a13 * a20) == a01 * (a10 * a23) - a01 * (a13 * a20)) by (nonlinear_arith);
    assert(a03 * (a10 * a21 - a11 * a20) == a03 * (a10 * a21) - a03 * (a11 * a20)) by (nonlinear_arith);
    let dh1_p2 = a00 * (a11 * a23) - a00 * (a13 * a21) - a01 * (a10 * a23);
    let dh2_p2 = a01 * (a13 * a20) + a03 * (a10 * a21) - a03 * (a11 * a20);
    assert(d_p2 == dh1_p2 + dh2_p2);
    assert(a12 * d_p2 == a12 * dh1_p2 + a12 * dh2_p2) by (nonlinear_arith)
        requires d_p2 == dh1_p2 + dh2_p2;
    assert(a12 * dh1_p2 == a12 * (a00 * (a11 * a23)) - a12 * (a00 * (a13 * a21)) - a12 * (a01 * (a10 * a23))) by (nonlinear_arith)
        requires dh1_p2 == a00 * (a11 * a23) - a00 * (a13 * a21) - a01 * (a10 * a23);
    assert(a12 * dh2_p2 == a12 * (a01 * (a13 * a20)) + a12 * (a03 * (a10 * a21)) - a12 * (a03 * (a11 * a20))) by (nonlinear_arith)
        requires dh2_p2 == a01 * (a13 * a20) + a03 * (a10 * a21) - a03 * (a11 * a20);
    assert(a12 * (a00 * (a11 * a23)) == a00 * (a11 * (a12 * a23))) by (nonlinear_arith);
    assert(a12 * (a00 * (a13 * a21)) == a00 * (a12 * (a13 * a21))) by (nonlinear_arith);
    assert(a12 * (a01 * (a10 * a23)) == a01 * (a10 * (a12 * a23))) by (nonlinear_arith);
    assert(a12 * (a01 * (a13 * a20)) == a01 * (a12 * (a13 * a20))) by (nonlinear_arith);
    assert(a12 * (a03 * (a10 * a21)) == a03 * (a10 * (a12 * a21))) by (nonlinear_arith);
    assert(a12 * (a03 * (a11 * a20)) == a03 * (a11 * (a12 * a20))) by (nonlinear_arith);
    let d_p3 = idet3(a00, a01, a02, a10, a11, a12, a20, a21, a22);
    assert(a00 * (a11 * a22 - a12 * a21) == a00 * (a11 * a22) - a00 * (a12 * a21)) by (nonlinear_arith);
    assert(a01 * (a10 * a22 - a12 * a20) == a01 * (a10 * a22) - a01 * (a12 * a20)) by (nonlinear_arith);
    assert(a02 * (a10 * a21 - a11 * a20) == a02 * (a10 * a21) - a02 * (a11 * a20)) by (nonlinear_arith);
    let dh1_p3 = a00 * (a11 * a22) - a00 * (a12 * a21) - a01 * (a10 * a22);
    let dh2_p3 = a01 * (a12 * a20) + a02 * (a10 * a21) - a02 * (a11 * a20);
    assert(d_p3 == dh1_p3 + dh2_p3);
    assert(a13 * d_p3 == a13 * dh1_p3 + a13 * dh2_p3) by (nonlinear_arith)
        requires d_p3 == dh1_p3 + dh2_p3;
    assert(a13 * dh1_p3 == a13 * (a00 * (a11 * a22)) - a13 * (a00 * (a12 * a21)) - a13 * (a01 * (a10 * a22))) by (nonlinear_arith)
        requires dh1_p3 == a00 * (a11 * a22) - a00 * (a12 * a21) - a01 * (a10 * a22);
    assert(a13 * dh2_p3 == a13 * (a01 * (a12 * a20)) + a13 * (a02 * (a10 * a21)) - a13 * (a02 * (a11 * a20))) by (nonlinear_arith)
        requires dh2_p3 == a01 * (a12 * a20) + a02 * (a10 * a21) - a02 * (a11 * a20);
    assert(a13 * (a00 * (a11 * a22)) == a00 * (a11 * (a13 * a22))) by (nonlinear_arith);
    assert(a13 * (a00 * (a12 * a21)) == a00 * (a12 * (a13 * a21))) by (nonlinear_arith);
    assert(a13 * (a01 * (a10 * a22)) == a01 * (a10 * (a13 * a22))) by (nonlinear_arith);
    assert(a13 * (a01 * (a12 * a20)) == a01 * (a12 * (a13 * a20))) by (nonlinear_arith);
    assert(a13 * (a02 * (a10 * a21)) == a02 * (a10 * (a13 * a21))) by (nonlinear_arith);
    assert(a13 * (a02 * (a11 * a20)) == a02 * (a11 * (a13 * a20))) by (nonlinear_arith);
}

/// Row 2 against the cofactors of row 0 sums to zero.
proof fn lemma_adj_2_0(
    a00: int,
    a01: int,
    a02: int,
    a03: int,
    a10: int,
    a11: int,
    a12: int,
    a13: int,
    a20: int,
    a21: int,
    a22: int,
    a23: int,
    a30: int,
    a31: int,
    a32: int,
    a33: int,
)
    ensures
        a20 * idet3(a11, a12, a13, a21, a22, a23, a31, a32, a33) - a21 * idet3(a10, a12, a13, a20, a22, a23, a30, a32, a33) + a22 * idet3(a10, a11, a13, a20, a21, a23, a30, a31, a33) - a23 * idet3(a10, a11, a12, a20, a21, a22, a30, a31, a32) == 0,
{
    let d_p0 = idet3(a11, a12, a13, a21, a22, a23, a31, a32, a33);
    assert(a11 * (a22 * a33 - a23 * a32) == a11 * (a22 * a33) - a11 * (a23 * a32)) by (nonlinear_arith);
    assert(a12 * (a21 * a33 - a23 * a31) == a12 * (a21 * a33) - a12 * (a23 * a31)) by (nonlinear_arith);
    assert(a13 * (a21 * a32 - a22 * a31) == a13 * (a21 * a32) - a13 * (a22 * a31)) by (nonlinear_arith);
    let dh1_p0 = a11 * (a22 * a33) - a11 * (a23 * a32) - a12 * (a21 * a33);
    let dh2_p0 = a12 * (a23 * a31) + a13 * (a21 * a32) - a13 * (a22 * a31);
    assert(d_p0 == dh1_p0 + dh2_p0);
    assert(a20 * d_p0 == a20 * dh1_p0 + a20 * dh2_p0) by (nonlinear_arith)
        requires d_p0 == dh1_p0 + dh2_p0;
    assert(a20 * dh1_p0 == a20 * (a11 * (a22 * a33)) - a20 * (a11 * (a23 * a32)) - a20 * (a12 * (a21 * a33))) by (nonlinear_arith)
        requires dh1_p0 == a11 * (a22 * a33) - a11 * (a23 * a32) - a12 * (a21 * a33);
    assert(a20 * dh2_p0 == a20 * (a12 * (a23 * a31)) + a20 * (a13 * (a21 * a32)) - a20 * (a13 * (a22 * a31))) by (nonlinear_arith)
        requires dh2_p0 == a12 * (a23 * a31) + a13 * (a21 * a32) - a13 * (a22 * a31);
    assert(a20 * (a11 * (a22 * a33)) == a11 * (a20 * (a22 * a33))) by (nonlinear_arith);
    assert(a20 * (a11 * (a23 * a32)) == a11 * (a20 * (a23 * a32))) by (nonlinear_arith);
    assert(a20 * (a12 * (a21 * a33)) == a12 * (a20 * (a21 * a33))) by (nonlinear_arith);
    assert(a20 * (a12 * (a23 * a31)) == a12 * (a20 * (a23 * a31))) by (nonlinear_arith);
    assert(a20 * (a13 * (a21 * a32)) == a13 * (a20 * (a21 * a32))) by (nonlinear_arith);
    assert(a20 * (a13 * (a22 * a31)) == a13 * (a20 * (a22 * a31))) by (nonlinear_arith);
    let d_p1 = idet3(a10, a12, a13, a20, a22, a23, a30, a32, a33);
    assert(a10 * (a22 * a33 - a23 * a32) == a10 * (a22 * a33) - a10 * (a23 * a32)) by (nonlinear_arith);
    assert(a12 * (a20 * a33 - a23 * a30) == a12 * (a20 * a33) - a12 * (a23 * a30)) by (nonlinear_arith);
    assert(a13 * (a20 * a32 - a22 * a30) == a13 * (a20 * a32) - a13 * (a22 * a30)) by (nonlinear_arith);
    let dh1_p1 = a10 * (a22 * a33) - a10 * (a23 * a32) - a12 * (a20 * a33);
    let dh2_p1 = a12 * (a23 * a30) + a13 * (a20 * a32) - a13 * (a22 * a30);
    assert(d_p1 == dh1_p1 + dh2_p1);
    assert(a21 * d_p1 == a21 * dh1_p1 + a21 * dh2_p1) by (nonlinear_arith)
        requires d_p1 == dh1_p1 + dh2_p1;
    assert(a21 * dh1_p1 == a21 * (a10 * (a22 * a33)) - a21 * (a10 * (a23 * a32)) - a21 * (a12 * (a20 * a33))) by (nonlinear_arith)
        requires dh1_p1 == a10 * (a22 * a33) - a10 * (a23 * a32) - a12 * (a20 * a33);
    assert(a21 * dh2_p1 == a21 * (a12 * (a23 * a30)) + a21 * (a13 * (a20 * a32)) - a21 * (a13 * (a22 * a30))) by (nonlinear_arith)
        requires dh2_p1 == a12 * (a23 * a30) + a13 * (a20 * a32) - a13 * (a22 * a30);
    assert(a21 * (a10 * (a22 * a33)) == a10 * (a21 * (a22 * a33))) by (nonlinear_arith);
    assert(a21 * (a10 * (a23 * a32)) == a10 * (a21 * (a23 * a32))) by (nonlinear_arith);
    assert(a21 * (a12 * (a20 * a33)) == a12 * (a20 * (a21 * a33))) by (nonlinear_arith);
    assert(a21 * (a12 * (a23 * a30)) == a12 * (a21 * (a23 * a30))) by (nonlinear_arith);
    assert(a21 * (a13 * (a20 * a32)) == a13 * (a20 * (a21 * a32))) by (nonlinear_arith);
    assert(a21 * (a13 * (a22 * a30)) == a13 * (a21 * (a22 * a30))) by (nonlinear_arith);
    let d_p2 = idet3(a10, a11, a13, a20, a21, a23, a30, a31, a33);
    assert(a10 * (a21 * a33 - a23 * a31) == a10 * (a21 * a33) - a10 * (a23 * a31)) by (nonlinear_arith);
    assert(a11 * (a20 * a33 - a23 * a30) == a11 * (a20 * a33) - a11 * (a23 * a30)) by (nonlinear_arith);
    assert(a13 * (a20 * a31 - a21 * a30) == a13 * (a20 * a31) - a13 * (a21 * a30)) by (nonlinear_arith);
    let dh1_p2 = a10 * (a21 * a33) - a10 * (a23 * a31) - a11 * (a20 * a33);
    let dh2_p2 = a11 * (a23 * a30) + a13 * (a20 * a31) - a13 * (a21 * a30);
    assert(d_p2 == dh1_p2 + dh2_p2);
    assert(a22 * d_p2 == a22 * dh1_p2 + a22 * dh2_p2) by (nonlinear_arith)
        requires d_p2 == dh1_p2 + dh2_p2;
    assert(a22 * dh1_p2 == a22 * (a10 * (a21 * a33)) - a22 * (a10 * (a23 * a31)) - a22 * (a11 * (a20 * a33))) by (nonlinear_arith)
        requires dh1_p2 == a10 * (a21 * a33) - a10 * (a23 * a31) - a11 * (a20 * a33);
    assert(a22 * dh2_p2 == a22 * (a11 * (a23 * a30)) + a22 * (a13 * (a20 * a31)) - a22 * (a13 * (a21 * a30))) by (nonlinear_arith)
        requires dh2_p2 == a11 * (a23 * a30) + a13 * (a20 * a31) - a13 * (a21 * a30);
    assert(a22 * (a10 * (a21 * a33)) == a10 * (a21 * (a22 * a33))) by (nonlinear_arith);
    assert(a22 * (a10 * (a23 * a31)) == a10 * (a22 * (a23 * a31))) by (nonlinear_arith);
    assert(a22 * (a11 * (a20 * a33)) == a11 * (a20 * (a22 * a33))) by (nonlinear_arith);
    assert(a22 * (a11 * (a23 * a30)) == a11 * (a22 * (a23 * a30))) by (nonlinear_arith);
    assert(a22 * (a13 * (a20 * a31)) == a13 * (a20 * (a22 * a31))) by (nonlinear_arith);
    assert(a22 * (a13 * (a21 * a30)) == a13 * (a21 * (a22 * a30))) by (nonlinear_arith);
    let d_p3 = idet3(a10, a11, a12, a20, a21, a22, a30, a31, a32);
    assert(a10 * (a21 * a32 - a22 * a31) == a10 * (a21 * a32) - a10 * (a22 * a31)) by (nonlinear_arith);
    assert(a11 * (a20 * a32 - a22 * a30) == a11 * (a20 * a32) - a11 * (a22 * a30)) by (nonlinear_arith);
    assert(a12 * (a20 * a31 - a21 * a30) == a12 * (a20 * a31) - a12 * (a21 * a30)) by (nonlinear_arith);
    let dh1_p3 = a10 * (a21 * a32) - a10 * (a22 * a31) - a11 * (a20 * a32);
    let dh2_p3 = a11 * (a22 * a30) + a12 * (a20 * a31) - a12 * (a21 * a30);
    assert(d_p3 == dh1_p3 + dh2_p3);
    assert(a23 * d_p3 == a23 * dh1_p3 + a23 * dh2_p3) by (nonlinear_arith)
        requires d_p3 == dh1_p3 + dh2_p3;
    assert(a23 * dh1_p3 == a23 * (a10 * (a21 * a32)) - a23 * (a10 * (a22 * a31)) - a23 * (a11 * (a20 * a32))) by (nonlinear_arith)
        requires dh1_p3 == a10 * (a21 * a32) - a10 * (a22 * a31) - a11 * (a20 * a32);
    assert(a23 * dh2_p3 == a23 * (a11 * (a22 * a30)) + a23 * (a12 * (a20 * a31)) - a23 * (a12 * (a21 * a30))) by (nonlinear_arith)
        requires dh2_p3 == a11 * (a22 * a30) + a12 * (a20 * a31) - a12 * (a21 * a30);
    assert(a23 * (a10 * (a21 * a32)) == a10 * (a21 * (a23 * a32))) by (nonlinear_arith);
    assert(a23 * (a10 * (a22 * a31)) == a10 * (a22 * (a23 * a31))) by (nonlinear_arith);
    assert(a23 * (a11 * (a20 * a32)) == a11 * (a20 * (a23 * a32))) by (nonlinear_arith);
    assert(a23 * (a11 * (a22 * a30)) == a11 * (a22 * (a23 * a30))) by (nonlinear_arith);
    assert(a23 * (a12 * (a20 * a31)) == a12 * (a20 * (a23 * a31))) by (nonlinear_arith);
    assert(a23 * (a12 * (a21 * a30)) == a12 * (a21 * (a23 * a30))) by (nonlinear_arith);
}

/// Row 2 against the cofactors of row 1 sums to zero.
proof fn lemma_adj_2_1(
    a00: int,
    a01: int,
    a02: int,
    a03: int,
    a10: int,
    a11: int,
    a12: int,
    a13: int,
    a20: int,
    a21: int,
    a22: int,
    a23: int,
    a30: int,
    a31: int,
    a32: int,
    a33: int,
)
    ensures
        -(a20 * idet3(a01, a02, a03, a21, a22, a23, a31, a32, a33)) + a21 * idet3(a00, a02, a03, a20, a22, a23, a30, a32, a33) - a22 * idet3(a00, a01, a03, a20, a21, a23, a30, a31, a33) + a23 * idet3(a00, a01, a02, a20, a21, a22, a30, a31, a32) == 0,
{
    let d_p0 = idet3(a01, a02, a03, a21, a22, a23, a31, a32, a33);
    assert(a01 * (a22 * a33 - a23 * a32) == a01 * (a22 * a33) - a01 * (a23 * a32)) by (nonlinear_arith);
    assert(a02 * (a21 * a33 - a23 * a31) == a02 * (a21 * a33) - a02 * (a23 * a31)) by (nonlinear_arith);
    assert(a03 * (a21 * a32 - a22 * a31) == a03 * (a21 * a32) - a03 * (a22 * a31)) by (nonlinear_arith);
    let dh1_p0 = a01 * (a22 * a33) - a01 * (a23 * a32) - a02 * (a21 * a33);
    let dh2_p0 = a02 * (a23 * a31) + a03 * (a21 * a32) - a03 * (a22 * a31);
    assert(d_p0 == dh1_p0 + dh2_p0);
    assert(a20 * d_p0 == a20 * dh1_p0 + a20 * dh2_p0) by (nonlinear_arith)
        requires d_p0 == dh1_p0 + dh2_p0;
    assert(a20 * dh1_p0 == a20 * (a01 * (a22 * a33)) - a20 * (a01 * (a23 * a32)) - a20 * (a02 * (a21 * a33))) by (nonlinear_arith)
        requires dh1_p0 == a01 * (a22 * a33) - a01 * (a23 * a32) - a02 * (a21 * a33);
    assert(a20 * dh2_p0 == a20 * (a02 * (a23 * a31)) + a20 * (a03 * (a21 * a32)) - a20 * (a03 * (a22 * a31))) by (nonlinear_arith)
        requires dh2_p0 == a02 * (a23 * a31) + a03 * (a21 * a32) - a03 * (a22 * a31);
    assert(a20 * (a01 * (a22 * a33)) == a01 * (a20 * (a22 * a33))) by (nonlinear_arith);
    assert(a20 * (a01 * (a23 * a32)) == a01 * (a20 * (a23 * a32))) by (nonlinear_arith);
    assert(a20 * (a02 * (a21 * a33)) == a02 * (a20 * (a21 * a33))) by (nonlinear_arith);
    assert(a20 * (a02 * (a23 * a31)) == a02 * (a20 * (a23 * a31))) by (nonlinear_arith);
    assert(a20 * (a03 * (a21 * a32)) == a03 * (a20 * (a21 * a32))) by (nonlinear_arith);
    assert(a20 * (a03 * (a22 * a31)) == a03 * (a20 * (a22 * a31))) by (nonlinear_arith);
    let d_p1 = idet3(a00, a02, a03, a20, a22, a23, a30, a32, a33);
    assert(a00 * (a22 * a33 - a23 * a32) == a00 * (a22 * a33) - a00 * (a23 * a32)) by (nonlinear_arith);
    assert(a02 * (a20 * a33 - a23 * a30) == a02 * (a20 * a33) - a02 * (a23 * a30)) by (nonlinear_arith);
    assert(a03 * (a20 * a32 - a22 * a30) == a03 * (a20 * a32) - a03 * (a22 * a30)) by (nonlinear_arith);
    let dh1_p1 = a00 * (a22 * a33) - a00 * (a23 * a32) - a02 * (a20 * a33);
    let dh2_p1 = a02 * (a23 * a30) + a03 * (a20 * a32) - a03 * (a22 * a30);
    assert(d_p1 == dh1_p1 + dh2_p1);
    assert(a21 * d_p1 == a21 * dh1_p1 + a21 * dh2_p1) by (nonlinear_arith)
        requires d_p1 == dh1_p1 + dh2_p1;
    assert(a21 * dh1_p1 == a21 * (a00 * (a22 * a33)) - a21 * (a00 * (a23 * a32)) - a21 * (a02 * (a20 * a33))) by (nonlinear_arith)
        requires dh1_p1 == a00 * (a22 * a33) - a00 * (a23 * a32) - a02 * (a20 * a33);
    assert(a21 * dh2_p1 == a21 * (a02 * (a23 * a30)) + a21 * (a03 * (a20 * a32)) - a21 * (a03 * (a22 * a30))) by (nonlinear_arith)
        requires dh2_p1 == a02 * (a23 * a30) + a03 * (a20 * a32) - a03 * (a22 * a30);
    assert(a21 * (a00 * (a22 * a33)) == a00 * (a21 * (a22 * a33))) by (nonlinear_arith);
    assert(a21 * (a00 * (a23 * a32)) == a00 * (a21 * (a23 * a32))) by (nonlinear_arith);
    assert(a21 * (a02 * (a20 * a33)) == a02 * (a20 * (a21 * a33))) by (nonlinear_arith);
    assert(a21 * (a02 * (a23 * a30)) == a02 * (a21 * (a23 * a30))) by (nonlinear_arith);
    assert(a21 * (a03 * (a20 * a32)) == a03 * (a20 * (a21 * a32))) by (nonlinear_arith);
    assert(a21 * (a03 * (a22 * a30)) == a03 * (a21 * (a22 * a30))) by (nonlinear_arith);
    let d_p2 = idet3(a00, a01, a03, a20, a21, a23, a30, a31, a33);
    assert(a00 * (a21 * a33 - a23 * a31) == a00 * (a21 * a33) - a00 * (a23 * a31)) by (nonlinear_arith);
    assert(a01 * (a20 * a33 - a23 * a30) == a01 * (a20 * a33) - a01 * (a23 * a30)) by (nonlinear_arith);
    assert(a03 * (a20 * a31 - a21 * a30) == a03 * (a20 * a31) - a03 * (a21 * a30)) by (nonlinear_arith);
    let dh1_p2 = a00 * (a21 * a33) - a00 * (a23 * a31) - a01 * (a20 * a33);
    let dh2_p2 = a01 * (a23 * a30) + a03 * (a20 * a31) - a03 * (a21 * a30);
    assert(d_p2 == dh1_p2 + dh2_p2);
    assert(a22 * d_p2 == a22 * dh1_p2 + a22 * dh2_p2) by (nonlinear_arith)
        requires d_p2 == dh1_p2 + dh2_p2;
    assert(a22 * dh1_p2 == a22 * (a00 * (a21 * a33)) - a22 * (a00 * (a23 * a31)) - a22 * (a01 * (a20 * a33))) by (nonlinear_arith)
        requires dh1_p2 == a00 * (a21 * a33) - a00 * (a23 * a31) - a01 * (a20 * a33);
    assert(a22 * dh2_p2 == a22 * (a01 * (a23 * a30)) + a22 * (a03 * (a20 * a31)) - a22 * (a03 * (a21 * a30))) by (nonlinear_arith)
        requires dh2_p2 == a01 * (a23 * a30) + a03 * (a20 * a31) - a03 * (a21 * a30);
    assert(a22 * (a00 * (a21 * a33)) == a00 * (a21 * (a22 * a33))) by (nonlinear_arith);
    assert(a22 * (a00 * (a23 * a31)) == a00 * (a22 * (a23 * a31))) by (nonlinear_arith);
    assert(a22 * (a01 * (a20 * a33)) == a01 * (a20 * (a22 * a33))) by (nonlinear_arith);
    assert(a22 * (a01 * (a23 * a30)) == a01 * (a22 * (a23 * a30))) by (nonlinear_arith);
    assert(a22 * (a03 * (a20 * a31)) == a03 * (a20 * (a22 * a31))) by (nonlinear_arith);
    assert(a22 * (a03 * (a21 * a30)) == a03 * (a21 * (a22 * a30))) by (nonlinear_arith);
    let d_p3 = idet3(a00, a01, a02, a20, a21, a22, a30, a31, a32);
    assert(a00 * (a21 * a32 - a22 * a31) == a00 * (a21 * a32) - a00 * (a22 * a31)) by (nonlinear_arith);
    assert(a01 * (a20 * a32 - a22 * a30) == a01 * (a20 * a32) - a01 * (a22 * a30)) by (nonlinear_arith);
    assert(a02 * (a20 * a31 - a21 * a30) == a02 * (a20 * a31) - a02 * (a21 * a30)) by (nonlinear_arith);
    let dh1_p3 = a00 * (a21 * a32) - a00 * (a22 * a31) - a01 * (a20 * a32);
    let dh2_p3 = a01 * (a22 * a30) + a02 * (a20 * a31) - a02 * (a21 * a30);
    assert(d_p3 == dh1_p3 + dh2_p3);
    assert(a23 * d_p3 == a23 * dh1_p3 + a23 * dh2_p3) by (nonlinear_arith)
        requires d_p3 == dh1_p3 + dh2_p3;
    assert(a23 * dh1_p3 == a23 * (a00 * (a21 * a32)) - a23 * (a00 * (a22 * a31)) - a23 * (a01 * (a20 * a32))) by (nonlinear_arith)
        requires dh1_p3 == a00 * (a21 * a32) - a00 * (a22 * a31) - a01 * (a20 * a32);
    assert(a23 * dh2_p3 == a23 * (a01 * (a22 * a30)) + a23 * (a02 * (a20 * a31)) - a23 * (a02 * (a21 * a30))) by (nonlinear_arith)
        requires dh2_p3 == a01 * (a22 * a30) + a02 * (a20 * a31) - a02 * (a21 * a30);
    assert(a23 * (a00 * (a21 * a32)) == a00 * (a21 * (a23 * a32))) by (nonlinear_arith);
    assert(a23 * (a00 * (a22 * a31)) == a00 * (a22 * (a23 * a31))) by (nonlinear_arith);
    assert(a23 * (a01 * (a20 * a32)) == a01 * (a20 * (a23 * a32))) by (nonlinear_arith);
    assert(a23 * (a01 * (a22 * a30)) == a01 * (a22 * (a23 * a30))) by (nonlinear_arith);
    assert(a23 * (a02 * (a20 * a31)) == a02 * (a20 * (a23 * a31))) by (nonlinear_arith);
    assert(a23 * (a02 * (a21 * a30)) == a02 * (a21 * (a23 * a30))) by (nonlinear_arith);
}

/// Cofactor expansion along row 2 gives the determinant again.
proof fn lemma_adj_2_2(
    a00: int,
    a01: int,
    a02: int,
    a03: int,
    a10: int,
    a11: int,
    a12: int,
    a13: int,
    a20: int,
    a21: int,
    a22: int,
    a23: int,
    a30: int,
    a31: int,
    a32: int,
    a33: int,
)
    ensures
        a20 * idet3(a01, a02, a03, a11, a12, a13, a31, a32, a33) - a21 * idet3(a00, a02, a03, a10, a12, a13, a30, a32, a33) + a22 * idet3(a00, a01, a03, a10, a11, a13, a30, a31, a33) - a23 * idet3(a00, a01, a02, a10, a11, a12, a30, a31, a32) == a00 * idet3(a11, a12, a13, a21, a22, a23, a31, a32, a33) - a01 * idet3(a10, a12, a13, a20, a22, a23, a30, a32, a33) + a02 * idet3(a10, a11, a13, a20, a21, a23, a30, a31, a33) - a03 * idet3(a10, a11, a12, a20, a21, a22, a30, a31, a32),
{
    let d_p0 = idet3(a01, a02, a03, a11, a12, a13, a31, a32, a33);
    assert(a01 * (a12 * a33 - a13 * a32) == a01 * (a12 * a33) - a01 * (a13 * a32)) by (nonlinear_arith);
    assert(a02 * (a11 * a33 - a13 * a31) == a02 * (a11 * a33) - a02 * (a13 * a31)) by (nonlinear_arith);
    assert(a03 * (a11 * a32 - a12 * a31) == a03 * (a11 * a32) - a03 * (a12 * a31)) by (nonlinear_arith);
    let dh1_p0 = a01 * (a12 * a33) - a01 * (a13 * a32) - a02 * (a11 * a33);
    let dh2_p0 = a02 * (a13 * a31) + a03 * (a11 * a32) - a03 * (a12 * a31);
    assert(d_p0 == dh1_p0 + dh2_p0);
    assert(a20 * d_p0 == a20 * dh1_p0 + a20 * dh2_p0) by (nonlinear_arith)
        requires d_p0 == dh1_p0 + dh2_p0;
    assert(a20 * dh1_p0 == a20 * (a01 * (a12 * a33)) - a20 * (a01 * (a13 * a32)) - a20 * (a02 * (a11 * a33))) by (nonlinear_arith)
        requires dh1_p0 == a01 * (a12 * a33) - a01 * (a13 * a32) - a02 * (a11 * a33);
    assert(a20 * dh2_p0 == a20 * (a02 * (a13 * a31)) + a20 * (a03 * (a11 * a32)) - a20 * (a03 * (a12 * a31))) by (nonlinear_arith)
        requires dh2_p0 == a02 * (a13 * a31) + a03 * (a11 * a32) - a03 * (a12 * a31);
    assert(a20 * (a01 * (a12 * a33)) == a01 * (a12 * (a20 * a33))) by (nonlinear_arith);
    assert(a20 * (a01 * (a13 * a32)) == a01 * (a13 * (a20 * a32))) by (nonlinear_arith);
    assert(a20 * (a02 * (a11 * a33)) == a02 * (a11 * (a20 * a33))) by (nonlinear_arith);
    assert(a20 * (a02 * (a13 * a31)) == a02 * (a13 * (a20 * a31))) by (nonlinear_arith);
    assert(a20 * (a03 * (a11 * a32)) == a03 * (a11 * (a20 * a32))) by (nonlinear_arith);
    assert(a20 * (a03 * (a12 * a31)) == a03 * (a12 * (a20 * a31))) by (nonlinear_arith);
    let d_p1 = idet3(a00, a02, a03, a10, a12, a13, a30, a32, a33);
    assert(a00 * (a12 * a33 - a13 * a32) == a00 * (a12 * a33) - a00 * (a13 * a32)) by (nonlinear_arith);
    assert(a02 * (a10 * a33 - a13 * a30) == a02 * (a10 * a33) - a02 * (a13 * a30)) by (nonlinear_arith);
    assert(a03 * (a10 * a32 - a12 * a30) == a03 * (a10 * a32) - a03 * (a12 * a30)) by (nonlinear_arith);
    let dh1_p1 = a00 * (a12 * a33) - a00 * (a13 * a32) - a02 * (a10 * a33);
    let dh2_p1 = a02 * (a13 * a30) + a03 * (a10 * a32) - a03 * (a12 * a30);
    assert(d_p1 == dh1_p1 + dh2_p1);
    assert(a21 * d_p1 == a21 * dh1_p1 + a21 * dh2_p1) by (nonlinear_arith)
        requires d_p1 == dh1_p1 + dh2_p1;
    assert(a21 * dh1_p1 == a21 * (a00 * (a12 * a33)) - a21 * (a00 * (a13 * a32)) - a21 * (a02 * (a10 * a33))) by (nonlinear_arith)
        requires dh1_p1 == a00 * (a12 * a33) - a00 * (a13 * a32) - a02 * (a10 * a33);
    assert(a21 * dh2_p1 == a21 * (a02 * (a13 * a30)) + a21 * (a03 * (a10 * a32)) - a21 * (a03 * (a12 * a30))) by (nonlinear_arith)
        requires dh2_p1 == a02 * (a13 * a30) + a03 * (a10 * a32) - a03 * (a12 * a30);
    assert(a21 * (a00 * (a12 * a33)) == a00 * (a12 * (a21 * a33))) by (nonlinear_arith);
    assert(a21 * (a00 * (a13 * a32)) == a00 * (a13 * (a21 * a32))) by (nonlinear_arith);
    assert(a21 * (a02 * (a10 * a33)) == a02 * (a10 * (a21 * a33))) by (nonlinear_arith);
    assert(a21 * (a02 * (a13 * a30)) == a02 * (a13 * (a21 * a30))) by (nonlinear_arith);
    assert(a21 * (a03 * (a10 * a32)) == a03 * (a10 * (a21 * a32))) by (nonlinear_arith);
    assert(a21 * (a03 * (a12 * a30)) == a03 * (a12 * (a21 * a30))) by (nonlinear_arith);
    let d_p2 = idet3(a00, a01, a03, a10, a11, a13, a30, a31, a33);
    assert(a00 * (a11 * a33 - a13 * a31) == a00 * (a11 * a33) - a00 * (a13 * a31)) by (nonlinear_arith);
    assert(a01 * (a10 * a33 - a13 * a30) == a01 * (a10 * a33) - a01 * (a13 * a30)) by (nonlinear_arith);
    assert(a03 * (a10 * a31 - a11 * a30) == a03 * (a10 * a31) - a03 * (a11 * a30)) by (nonlinear_arith);
    let dh1_p2 = a00 * (a11 * a33) - a00 * (a13 * a31) - a01 * (a10 * a33);
    let dh2_p2 = a01 * (a13 * a30) + a03 * (a10 * a31) - a03 * (a11 * a30);
    assert(d_p2 == dh1_p2 + dh2_p2);
    assert(a22 * d_p2 == a22 * dh1_p2 + a22 * dh2_p2) by (nonlinear_arith)
        requires d_p2 == dh1_p2 + dh2_p2;
    assert(a22 * dh1_p2 == a22 * (a00 * (a11 * a33)) - a22 * (a00 * (a13 * a31)) - a22 * (a01 * (a10 * a33))) by (nonlinear_arith)
        requires dh1_p2 == a00 * (a11 * a33) - a00 * (a13 * a31) - a01 * (a10 * a33);
    assert(a22 * dh2_p2 == a22 * (a01 * (a13 * a30)) + a22 * (a03 * (a10 * a31)) - a22 * (a03 * (a11 * a30))) by (nonlinear_arith)
        requires dh2_p2 == a01 * (a13 * a30) + a03 * (a10 * a31) - a03 * (a11 * a30);
    assert(a22 * (a00 * (a11 * a33)) == a00 * (a11 * (a22 * a33))) by (nonlinear_arith);
    assert(a22 * (a00 * (a13 * a31)) == a00 * (a13 * (a22 * a31))) by (nonlinear_arith);
    assert(a22 * (a01 * (a10 * a33)) == a01 * (a10 * (a22 * a33))) by (nonlinear_arith);
    assert(a22 * (a01 * (a13 * a30)) == a01 * (a13 * (a22 * a30))) by (nonlinear_arith);
    assert(a22 * (a03 * (a10 * a31)) == a03 * (a10 * (a22 * a31))) by (nonlinear_arith);
    assert(a22 * (a03 * (a11 * a30)) == a03 * (a11 * (a22 * a30))) by (nonlinear_arith);
    let d_p3 = idet3(a00, a01, a02, a10, a11, a12, a30, a31, a32);
    assert(a00 * (a11 * a32 - a12 * a31) == a00 * (a11 * a32) - a00 * (a12 * a31)) by (nonlinear_arith);
    assert(a01 * (a10 * a32 - a12 * a30) == a01 * (a10 * a32) - a01 * (a12 * a30)) by (nonlinear_arith);
    assert(a02 * (a10 * a31 - a11 * a30) == a02 * (a10 * a31) - a02 * (a11 * a30)) by (nonlinear_arith);
    let dh1_p3 = a00 * (a11 * a32) - a00 * (a12 * a31) - a01 * (a10 * a32);
    let dh2_p3 = a01 * (a12 * a30) + a02 * (a10 * a31) - a02 * (a11 * a30);
    assert(d_p3 == dh1_p3 + dh2_p3);
    assert(a23 * d_p3 == a23 * dh1_p3 + a23 * dh2_p3) by (nonlinear_arith)
        requires d_p3 == dh1_p3 + dh2_p3;
    assert(a23 * dh1_p3 == a23 * (a00 * (a11 * a32)) - a23 * (a00 * (a12 * a31)) - a23 * (a01 * (a10 * a32))) by (nonlinear_arith)
        requires dh1_p3 == a00 * (a11 * a32) - a00 * (a12 * a31) - a01 * (a10 * a32);
    assert(a23 * dh2_p3 == a23 * (a01 * (a12 * a30)) + a23 * (a02 * (a10 * a31)) - a23 * (a02 * (a11 * a30))) by (nonlinear_arith)
        requires dh2_p3 == a01 * (a12 * a30) + a02 * (a10 * a31) - a02 * (a11 * a30);
    assert(a23 * (a00 * (a11 * a32)) == a00 * (a11 * (a23 * a32))) by (nonlinear_arith);
    assert(a23 * (a00 * (a12 * a31)) == a00 * (a12 * (a23 * a31))) by (nonlinear_arith);
    assert(a23 * (a01 * (a10 * a32)) == a01 * (a10 * (a23 * a32))) by (nonlinear_arith);
    assert(a23 * (a01 * (a12 * a30)) == a01 * (a12 * (a23 * a30))) by (nonlinear_arith);
    assert(a23 * (a02 * (a10 * a31)) == a02 * (a10 * (a23 * a31))) by (nonlinear_arith);
    assert(a23 * (a02 * (a11 * a30)) == a02 * (a11 * (a23 * a30))) by (nonlinear_arith);
    let d_q0 = idet3(a11, a12, a13, a21, a22, a23, a31, a32, a33);
    assert(a11 * (a22 * a33 - a23 * a32) == a11 * (a22 * a33) - a11 * (a23 * a32)) by (nonlinear_arith);
    assert(a12 * (a21 * a33 - a23 * a31) == a12 * (a21 * a33) - a12 * (a23 * a31)) by (nonlinear_arith);
    assert(a13 * (a21 * a32 - a22 * a31) == a13 * (a21 * a32) - a13 * (a22 * a31)) by (nonlinear_arith);
    let dh1_q0 = a11 * (a22 * a33) - a11 * (a23 * a32) - a12 * (a21 * a33);
    let dh2_q0 = a12 * (a23 * a31) + a13 * (a21 * a32) - a13 * (a22 * a31);
    assert(d_q0 == dh1_q0 + dh2_q0);
    assert(a00 * d_q0 == a00 * dh1_q0 + a00 * dh2_q0) by (nonlinear_arith)
        requires d_q0 == dh1_q0 + dh2_q0;
    assert(a00 * dh1_q0 == a00 * (a11 * (a22 * a33)) - a00 * (a11 * (a23 * a32)) - a00 * (a12 * (a21 * a33))) by (nonlinear_arith)
        requires dh1_q0 == a11 * (a22 * a33) - a11 * (a23 * a32) - a12 * (a21 * a33);
    assert(a00 * dh2_q0 == a00 * (a12 * (a23 * a31)) + a00 * (a13 * (a21 * a32)) - a00 * (a13 * (a22 * a31))) by (nonlinear_arith)
        requires dh2_q0 == a12 * (a23 * a31) + a13 * (a21 * a32) - a13 * (a22 * a31);
    let d_q1 = idet3(a10, a12, a13, a20, a22, a23, a30, a32, a33);
    assert(a10 * (a22 * a33 - a23 * a32) == a10 * (a22 * a33) - a10 * (a23 * a32)) by (nonlinear_arith);
    assert(a12 * (a20 * a33 - a23 * a30) == a12 * (a20 * a33) - a12 * (a23 * a30)) by (nonlinear_arith);
    assert(a13 * (a20 * a32 - a22 * a30) == a13 * (a20 * a32) - a13 * (a22 * a30)) by (nonlinear_arith);
    let dh1_q1 = a10 * (a22 * a33) - a10 * (a23 * a32) - a12 * (a20 * a33);
    let dh2_q1 = a12 * (a23 * a30) + a13 * (a20 * a32) - a13 * (a22 * a30);
    assert(d_q1 == dh1_q1 + dh2_q1);
    assert(a01 * d_q1 == a01 * dh1_q1 + a01 * dh2_q1) by (nonlinear_arith)
        requires d_q1 == dh1_q1 + dh2_q1;
    assert(a01 * dh1_q1 == a01 * (a10 * (a22 * a33)) - a01 * (a10 * (a23 * a32)) - a01 * (a12 * (a20 * a33))) by (nonlinear_arith)
        requires dh1_q1 == a10 * (a22 * a33) - a10 * (a23 * a32) - a12 * (a20 * a33);
    assert(a01 * dh2_q1 == a01 * (a12 * (a23 * a30)) + a01 * (a13 * (a20 * a32)) - a01 * (a13 * (a22 * a30))) by (nonlinear_arith)
        requires dh2_q1 == a12 * (a23 * a30) + a13 * (a20 * a32) - a13 * (a22 * a30);
    let d_q2 = idet3(a10, a11, a13, a20, a21, a23, a30, a31, a33);
    assert(a10 * (a21 * a33 - a23 * a31) == a10 * (a21 * a33) - a10 * (a23 * a31)) by (nonlinear_arith);
    assert(a11 * (a20 * a33 - a23 * a30) == a11 * (a20 * a33) - a11 * (a23 * a30)) by (nonlinear_arith);
    assert(a13 * (a20 * a31 - a21 * a30) == a13 * (a20 * a31) - a13 * (a21 * a30)) by (nonlinear_arith);
    let dh1_q2 = a10 * (a21 * a33) - a10 * (a23 * a31) - a11 * (a20 * a33);
    let dh2_q2 = a11 * (a23 * a30) + a13 * (a20 * a31) - a13 * (a21 * a30);
    assert(d_q2 == dh1_q2 + dh2_q2);
    assert(a02 * d_q2 == a02 * dh1_q2 + a02 * dh2_q2) by (nonlinear_arith)
        requires d_q2 == dh1_q2 + dh2_q2;
    assert(a02 * dh1_q2 == a02 * (a10 * (a21 * a33)) - a02 * (a10 * (a23 * a31)) - a02 * (a11 * (a20 * a33))) by (nonlinear_arith)
        requires dh1_q2 == a10 * (a21 * a33) - a10 * (a23 * a31) - a11 * (a20 * a33);
    assert(a02 * dh2_q2 == a02 * (a11 * (a23 * a30)) + a02 * (a13 * (a20 * a31)) - a02 * (a13 * (a21 * a30))) by (nonlinear_arith)
        requires dh2_q2 == a11 * (a23 * a30) + a13 * (a20 * a31) - a13 * (a21 * a30);
    let d_q3 = idet3(a10, a11, a12, a20, a21, a22, a30, a31, a32);
    assert(a10 * (a21 * a32 - a22 * a31) == a10 * (a21 * a32) - a10 * (a22 * a31)) by (nonlinear_arith);
    assert(a11 * (a20 * a32 - a22 * a30) == a11 * (a20 * a32) - a11 * (a22 * a30)) by (nonlinear_arith);
    assert(a12 * (a20 * a31 - a21 * a30) == a12 * (a20 * a31) - a12 * (a21 * a30)) by (nonlinear_arith);
    let dh1_q3 = a10 * (a21 * a32) - a10 * (a22 * a31) - a11 * (a20 * a32);
    let dh2_q3 = a11 * (a22 * a30) + a12 * (a20 * a31) - a12 * (a21 * a30);
    assert(d_q3 == dh1_q3 + dh2_q3);
    assert(a03 * d_q3 == a03 * dh1_q3 + a03 * dh2_q3) by (nonlinear_arith)
        requires d_q3 == dh1_q3 + dh2_q3;
    assert(a03 * dh1_q3 == a03 * (a10 * (a21 * a32)) - a03 * (a10 * (a22 * a31)) - a03 * (a11 * (a20 * a32))) by (nonlinear_arith)
        requires dh1_q3 == a10 * (a21 * a32) - a10 * (a22 * a31) - a11 * (a20 * a32);
    assert(a03 * dh2_q3 == a03 * (a11 * (a22 * a30)) + a03 * (a12 * (a20 * a31)) - a03 * (a12 * (a21 * a30))) by (nonlinear_arith)
        requires dh2_q3 == a11 * (a22 * a30) + a12 * (a20 * a31) - a12 * (a21 * a30);
}

/// Row 2 against the cofactors of row 3 sums to zero.
proof fn lemma_adj_2_3(
    a00: int,
    a01: int,
    a02: int,
    a03: int,
    a10: int,
    a11: int,
    a12: int,
    a13: int,
    a20: int,
    a21: int,
    a22: int,
    a23: int,
    a30: int,
    a31: int,
    a32: int,
    a33: int,
)
    ensures
        -(a20 * idet3(a01, a02, a03, a11, a12, a13, a21, a22, a23)) + a21 * idet3(a00, a02, a03, a10, a12, a13, a20, a22, a23) - a22 * idet3(a00, a01, a03, a10, a11, a13, a20, a21, a23) + a23 * idet3(a00, a01, a02, a10, a11, a12, a20, a21, a22) == 0,
{
    let d_p0 = idet3(a01, a02, a03, a11, a12, a13, a21, a22, a23);
    assert(a01 * (a12 * a23 - a13 * a22) == a01 * (a12 * a23) - a01 * (a13 * a22)) by (nonlinear_arith);
    assert(a02 * (a11 * a23 - a13 * a21) == a02 * (a11 * a23) - a02 * (a13 * a21)) by (nonlinear_arith);
    assert(a03 * (a11 * a22 - a12 * a21) == a03 * (a11 * a22) - a03 * (a12 * a21)) by (nonlinear_arith);
    let dh1_p0 = a01 * (a12 * a23) - a01 * (a13 * a22) - a02 * (a11 * a23);
    let dh2_p0 = a02 * (a13 * a21) + a03 * (a11 * a22) - a03 * (a12 * a21);
    assert(d_p0 == dh1_p0 + dh2_p0);
    assert(a20 * d_p0 == a20 * dh1_p0 + a20 * dh2_p0) by (nonlinear_arith)
        requires d_p0 == dh1_p0 + dh2_p0;
    assert(a20 * dh1_p0 == a20 * (a01 * (a12 * a23)) - a20 * (a01 * (a13 * a22)) - a20 * (a02 * (a11 * a23))) by (nonlinear_arith)
        requires dh1_p0 == a01 * (a12 * a23) - a01 * (a13 * a22) - a02 * (a11 * a23);
    assert(a20 * dh2_p0 == a20 * (a02 * (a13 * a21)) + a20 * (a03 * (a11 * a22)) - a20 * (a03 * (a12 * a21))) by (nonlinear_arith)
        requires dh2_p0 == a02 * (a13 * a21) + a03 * (a11 * a22) - a03 * (a12 * a21);
    assert(a20 * (a01 * (a12 * a23)) == a01 * (a12 * (a20 * a23))) by (nonlinear_arith);
    assert(a20 * (a01 * (a13 * a22)) == a01 * (a13 * (a20 * a22))) by (nonlinear_arith);
    assert(a20 * (a02 * (a11 * a23)) == a02 * (a11 * (a20 * a23))) by (nonlinear_arith);
    assert(a20 * (a02 * (a13 * a21)) == a02 * (a13 * (a20 * a21))) by (nonlinear_arith);
    assert(a20 * (a03 * (a11 * a22)) == a03 * (a11 * (a20 * a22))) by (nonlinear_arith);
    assert(a20 * (a03 * (a12 * a21)) == a03 * (a12 * (a20 * a21))) by (nonlinear_arith);
    let d_p1 = idet3(a00, a02, a03, a10, a12, a13, a20, a22, a23);
    assert(a00 * (a12 * a23 - a13 * a22) == a00 * (a12 * a23) - a00 * (a13 * a22)) by (nonlinear_arith);
    assert(a02 * (a10 * a23 - a13 * a20) == a02 * (a10 * a23) - a02 * (a13 * a20)) by (nonlinear_arith);
    assert(a03 * (a10 * a22 - a12 * a20) == a03 * (a10 * a22) - a03 * (a12 * a20)) by (nonlinear_arith);
    let dh1_p1 = a00 * (a12 * a23) - a00 * (a13 * a22) - a02 * (a10 * a23);
    let dh2_p1 = a02 * (a13 * a20) + a03 * (a10 * a22) - a03 * (a12 * a20);
    assert(d_p1 == dh1_p1 + dh2_p1);
    assert(a21 * d_p1 == a21 * dh1_p1 + a21 * dh2_p1) by (nonlinear_arith)
        requires d_p1 == dh1_p1 + dh2_p1;
    assert(a21 * dh1_p1 == a21 * (a00 * (a12 * a23)) - a21 * (a00 * (a13 * a22)) - a21 * (a02 * (a10 * a23))) by (nonlinear_arith)
        requires dh1_p1 == a00 * (a12 * a23) - a00 * (a13 * a22) - a02 * (a10 * a23);
    assert(a21 * dh2_p1 == a21 * (a02 * (a13 * a20)) + a21 * (a03 * (a10 * a22)) - a21 * (a03 * (a12 * a20))) by (nonlinear_arith)
        requires dh2_p1 == a02 * (a13 * a20) + a03 * (a10 * a22) - a03 * (a12 * a20);
    assert(a21 * (a00 * (a12 * a23)) == a00 * (a12 * (a21 * a23))) by (nonlinear_arith);
    assert(a21 * (a00 * (a13 * a22)) == a00 * (a13 * (a21 * a22))) by (nonlinear_arith);
    assert(a21 * (a02 * (a10 * a23)) == a02 * (a10 * (a21 * a23))) by (nonlinear_arith);
    assert(a21 * (a02 * (a13 * a20)) == a02 * (a13 * (a20 * a21))) by (nonlinear_arith);
    assert(a21 * (a03 * (a10 * a22)) == a03 * (a10 * (a21 * a22))) by (nonlinear_arith);
    assert(a21 * (a03 * (a12 * a20)) == a03 * (a12 * (a20 * a21))) by (nonlinear_arith);
    let d_p2 = idet3(a00, a01, a03, a10, a11, a13, a20, a21, a23);
    assert(a00 * (a11 * a23 - a13 * a21) == a00 * (a11 * a23) - a00 * (a13 * a21)) by (nonlinear_arith);
    assert(a01 * (a10 * a23 - a13 * a20) == a01 * (a10 * a23) - a01 * (a13 * a20)) by (nonlinear_arith);
    assert(a03 * (a10 * a21 - a11 * a20) == a03 * (a10 * a21) - a03 * (a11 * a20)) by (nonlinear_arith);
    let dh1_p2 = a00 * (a11 * a23) - a00 * (a13 * a21) - a01 * (a10 * a23);
    let dh2_p2 = a01 * (a13 * a20) + a03 * (a10 * a21) - a03 * (a11 * a20);
    assert(d_p2 == dh1_p2 + dh2_p2);
    assert(a22 * d_p2 == a22 * dh1_p2 + a22 * dh2_p2) by (nonlinear_arith)
        requires d_p2 == dh1_p2 + dh2_p2;
    assert(a22 * dh1_p2 == a22 * (a00 * (a11 * a23)) - a22 * (a00 * (a13 * a21)) - a22 * (a01 * (a10 * a23))) by (nonlinear_arith)
        requires dh1_p2 == a00 * (a11 * a23) - a00 * (a13 * a21) - a01 * (a10 * a23);
    assert(a22 * dh2_p2 == a22 * (a01 * (a13 * a20)) + a22 * (a03 * (a10 * a21)) - a22 * (a03 * (a11 * a20))) by (nonlinear_arith)
        requires dh2_p2 == a01 * (a13 * a20) + a03 * (a10 * a21) - a03 * (a11 * a20);
    assert(a22 * (a00 * (a11 * a23)) == a00 * (a11 * (a22 * a23))) by (nonlinear_arith);
    assert(a22 * (a00 * (a13 * a21)) == a00 * (a13 * (a21 * a22))) by (nonlinear_arith);
    assert(a22 * (a01 * (a10 * a23)) == a01 * (a10 * (a22 * a23))) by (nonlinear_arith);
    assert(a22 * (a01 * (a13 * a20)) == a01 * (a13 * (a20 * a22))) by (nonlinear_arith);
    assert(a22 * (a03 * (a10 * a21)) == a03 * (a10 * (a21 * a22))) by (nonlinear_arith);
    assert(a22 * (a03 * (a11 * a20)) == a03 * (a11 * (a20 * a22))) by (nonlinear_arith);
    let d_p3 = idet3(a00, a01, a02, a10, a11, a12, a20, a21, a22);
    assert(a00 * (a11 * a22 - a12 * a21) == a00 * (a11 * a22) - a00 * (a12 * a21)) by (nonlinear_arith);
    assert(a01 * (a10 * a22 - a12 * a20) == a01 * (a10 * a22) - a01 * (a12 * a20)) by (nonlinear_arith);
    assert(a02 * (a10 * a21 - a11 * a20) == a02 * (a10 * a21) - a02 * (a11 * a20)) by (nonlinear_arith);
    let dh1_p3 = a00 * (a11 * a22) - a00 * (a12 * a21) - a01 * (a10 * a22);
    let dh2_p3 = a01 * (a12 * a20) + a02 * (a10 * a21) - a02 * (a11 * a20);
    assert(d_p3 == dh1_p3 + dh2_p3);
    assert(a23 * d_p3 == a23 * dh1_p3 + a23 * dh2_p3) by (nonlinear_arith)
        requires d_p3 == dh1_p3 + dh2_p3;
    assert(a23 * dh1_p3 == a23 * (a00 * (a11 * a22)) - a23 * (a00 * (a12 * a21)) - a23 * (a01 * (a10 * a22))) by (nonlinear_arith)
        requires dh1_p3 == a00 * (a11 * a22) - a00 * (a12 * a21) - a01 * (a10 * a22);
    assert(a23 * dh2_p3 == a23 * (a01 * (a12 * a20)) + a23 * (a02 * (a10 * a21)) - a23 * (a02 * (a11 * a20))) by (nonlinear_arith)
        requires dh2_p3 == a01 * (a12 * a20) + a02 * (a10 * a21) - a02 * (a11 * a20);
    assert(a23 * (a00 * (a11 * a22)) == a00 * (a11 * (a22 * a23))) by (nonlinear_arith);
    assert(a23 * (a00 * (a12 * a21)) == a00 * (a12 * (a21 * a23))) by (nonlinear_arith);
    assert(a23 * (a01 * (a10 * a22)) == a01 * (a10 * (a22 * a23))) by (nonlinear_arith);
    assert(a23 * (a01 * (a12 * a20)) == a01 * (a12 * (a20 * a23))) by (nonlinear_arith);
    assert(a23 * (a02 * (a10 * a21)) == a02 * (a10 * (a21 * a23))) by (nonlinear_arith);
    assert(a23 * (a02 * (a11 * a20)) == a02 * (a11 * (a20 * a23))) by (nonlinear_arith);
}

/// Row 3 against the cofactors of row 0 sums to zero.
proof fn lemma_adj_3_0(
    a00: int,
    a01: int,
    a02: int,
    a03: int,
    a10: int,
    a11: int,
    a12: int,
    a13: int,
    a20: int,
    a21: int,
    a22: int,
    a23: int,
    a30: int,
    a31: int,
    a32: int,
    a33: int,
)
    ensures
        a30 * idet3(a11, a12, a13, a21, a22, a23, a31, a32, a33) - a31 * idet3(a10, a12, a13, a20, a22, a23, a30, a32, a33) + a32 * idet3(a10, a11, a13, a20, a21, a23, a30, a31, a33) - a33 * idet3(a10, a11, a12, a20, a21, a22, a30, a31, a32) == 0,
{
    let d_p0 = idet3(a11, a12, a13, a21, a22, a23, a31, a32, a33);
    assert(a11 * (a22 * a33 - a23 * a32) == a11 * (a22 * a33) - a11 * (a23 * a32)) by (nonlinear_arith);
    assert(a12 * (a21 * a33 - a23 * a31) == a12 * (a21 * a33) - a12 * (a23 * a31)) by (nonlinear_arith);
    assert(a13 * (a21 * a32 - a22 * a31) == a13 * (a21 * a32) - a13 * (a22 * a31)) by (nonlinear_arith);
    let dh1_p0 = a11 * (a22 * a33) - a11 * (a23 * a32) - a12 * (a21 * a33);
    let dh2_p0 = a12 * (a23 * a31) + a13 * (a21 * a32) - a13 * (a22 * a31);
    assert(d_p0 == dh1_p0 + dh2_p0);
    assert(a30 * d_p0 == a30 * dh1_p0 + a30 * dh2_p0) by (nonlinear_arith)
        requires d_p0 == dh1_p0 + dh2_p0;
    assert(a30 * dh1_p0 == a30 * (a11 * (a22 * a33)) - a30 * (a11 * (a23 * a32)) - a30 * (a12 * (a21 * a33))) by (nonlinear_arith)
        requires dh1_p0 == a11 * (a22 * a33) - a11 * (a23 * a32) - a12 * (a21 * a33);
    assert(a30 * dh2_p0 == a30 * (a12 * (a23 * a31)) + a30 * (a13 * (a21 * a32)) - a30 * (a13 * (a22 * a31))) by (nonlinear_arith)
        requires dh2_p0 == a12 * (a23 * a31) + a13 * (a21 * a32) - a13 * (a22 * a31);
    assert(a30 * (a11 * (a22 * a33)) == a11 * (a22 * (a30 * a33))) by (nonlinear_arith);
    assert(a30 * (a11 * (a23 * a32)) == a11 * (a23 * (a30 * a32))) by (nonlinear_arith);
    assert(a30 * (a12 * (a21 * a33)) == a12 * (a21 * (a30 * a33))) by (nonlinear_arith);
    assert(a30 * (a12 * (a23 * a31)) == a12 * (a23 * (a30 * a31))) by (nonlinear_arith);
    assert(a30 * (a13 * (a21 * a32)) == a13 * (a21 * (a30 * a32))) by (nonlinear_arith);
    assert(a30 * (a13 * (a22 * a31)) == a13 * (a22 * (a30 * a31))) by (nonlinear_arith);
    let d_p1 = idet3(a10, a12, a13, a20, a22, a23, a30, a32, a33);
    assert(a10 * (a22 * a33 - a23 * a32) == a10 * (a22 * a33) - a10 * (a23 * a32)) by (nonlinear_arith);
    assert(a12 * (a20 * a33 - a23 * a30) == a12 * (a20 * a33) - a12 * (a23 * a30)) by (nonlinear_arith);
    assert(a13 * (a20 * a32 - a22 * a30) == a13 * (a20 * a32) - a13 * (a22 * a30)) by (nonlinear_arith);
    let dh1_p1 = a10 * (a22 * a33) - a10 * (a23 * a32) - a12 * (a20 * a33);
    let dh2_p1 = a12 * (a23 * a30) + a13 * (a20 * a32) - a13 * (a22 * a30);
    assert(d_p1 == dh1_p1 + dh2_p1);
    assert(a31 * d_p1 == a31 * dh1_p1 + a31 * dh2_p1) by (nonlinear_arith)
        requires d_p1 == dh1_p1 + dh2_p1;
    assert(a31 * dh1_p1 == a31 * (a10 * (a22 * a33)) - a31 * (a10 * (a23 * a32)) - a31 * (a12 * (a20 * a33))) by (nonlinear_arith)
        requires dh1_p1 == a10 * (a22 * a33) - a10 * (a23 * a32) - a12 * (a20 * a33);
    assert(a31 * dh2_p1 == a31 * (a12 * (a23 * a30)) + a31 * (a13 * (a20 * a32)) - a31 * (a13 * (a22 * a30))) by (nonlinear_arith)
        requires dh2_p1 == a12 * (a23 * a30) + a13 * (a20 * a32) - a13 * (a22 * a30);
    assert(a31 * (a10 * (a22 * a33)) == a10 * (a22 * (a31 * a33))) by (nonlinear_arith);
    assert(a31 * (a10 * (a23 * a32)) == a10 * (a23 * (a31 * a32))) by (nonlinear_arith);
    assert(a31 * (a12 * (a20 * a33)) == a12 * (a20 * (a31 * a33))) by (nonlinear_arith);
    assert(a31 * (a12 * (a23 * a30)) == a12 * (a23 * (a30 * a31))) by (nonlinear_arith);
    assert(a31 * (a13 * (a20 * a32)) == a13 * (a20 * (a31 * a32))) by (nonlinear_arith);
    assert(a31 * (a13 * (a22 * a30)) == a13 * (a22 * (a30 * a31))) by (nonlinear_arith);
    let d_p2 = idet3(a10, a11, a13, a20, a21, a23, a30, a31, a33);
    assert(a10 * (a21 * a33 - a23 * a31) == a10 * (a21 * a33) - a10 * (a23 * a31)) by (nonlinear_arith);
    assert(a11 * (a20 * a33 - a23 * a30) == a11 * (a20 * a33) - a11 * (a23 * a30)) by (nonlinear_arith);
    assert(a13 * (a20 * a31 - a21 * a30) == a13 * (a20 * a31) - a13 * (a21 * a30)) by (nonlinear_arith);
    let dh1_p2 = a10 * (a21 * a33) - a10 * (a23 * a31) - a11 * (a20 * a33);
    let dh2_p2 = a11 * (a23 * a30) + a13 * (a20 * a31) - a13 * (a21 * a30);
    assert(d_p2 == dh1_p2 + dh2_p2);
    assert(a32 * d_p2 == a32 * dh1_p2 + a32 * dh2_p2) by (nonlinear_arith)
        requires d_p2 == dh1_p2 + dh2_p2;
    assert(a32 * dh1_p2 == a32 * (a10 * (a21 * a33)) - a32 * (a10 * (a23 * a31)) - a32 * (a11 * (a20 * a33))) by (nonlinear_arith)
        requires dh1_p2 == a10 * (a21 * a33) - a10 * (a23 * a31) - a11 * (a20 * a33);
    assert(a32 * dh2_p2 == a32 * (a11 * (a23 * a30)) + a32 * (a13 * (a20 * a31)) - a32 * (a13 * (a21 * a30))) by (nonlinear_arith)
        requires dh2_p2 == a11 * (a23 * a30) + a13 * (a20 * a31) - a13 * (a21 * a30);
    assert(a32 * (a10 * (a21 * a33)) == a10 * (a21 * (a32 * a33))) by (nonlinear_arith);
    assert(a32 * (a10 * (a23 * a31)) == a10 * (a23 * (a31 * a32))) by (nonlinear_arith);
    assert(a32 * (a11 * (a20 * a33)) == a11 * (a20 * (a32 * a33))) by (nonlinear_arith);
    assert(a32 * (a11 * (a23 * a30)) == a11 * (a23 * (a30 * a32))) by (nonlinear_arith);
    assert(a32 * (a13 * (a20 * a31)) == a13 * (a20 * (a31 * a32))) by (nonlinear_arith);
    assert(a32 * (a13 * (a21 * a30)) == a13 * (a21 * (a30 * a32))) by (nonlinear_arith);
    let d_p3 = idet3(a10, a11, a12, a20, a21, a22, a30, a31, a32);
    assert(a10 * (a21 * a32 - a22 * a31) == a10 * (a21 * a32) - a10 * (a22 * a31)) by (nonlinear_arith);
    assert(a11 * (a20 * a32 - a22 * a30) == a11 * (a20 * a32) - a11 * (a22 * a30)) by (nonlinear_arith);
    assert(a12 * (a20 * a31 - a21 * a30) == a12 * (a20 * a31) - a12 * (a21 * a30)) by (nonlinear_arith);
    let dh1_p3 = a10 * (a21 * a32) - a10 * (a22 * a31) - a11 * (a20 * a32);
    let dh2_p3 = a11 * (a22 * a30) + a12 * (a20 * a31) - a12 * (a21 * a30);
    assert(d_p3 == dh1_p3 + dh2_p3);
    assert(a33 * d_p3 == a33 * dh1_p3 + a33 * dh2_p3) by (nonlinear_arith)
        requires d_p3 == dh1_p3 + dh2_p3;
    assert(a33 * dh1_p3 == a33 * (a10 * (a21 * a32)) - a33 * (a10 * (a22 * a31)) - a33 * (a11 * (a20 * a32))) by (nonlinear_arith)
        requires dh1_p3 == a10 * (a21 * a32) - a10 * (a22 * a31) - a11 * (a20 * a32);
    assert(a33 * dh2_p3 == a33 * (a11 * (a22 * a30)) + a33 * (a12 * (a20 * a31)) - a33 * (a12 * (a21 * a30))) by (nonlinear_arith)
        requires dh2_p3 == a11 * (a22 * a30) + a12 * (a20 * a31) - a12 * (a21 * a30);
    assert(a33 * (a10 * (a21 * a32)) == a10 * (a21 * (a32 * a33))) by (nonlinear_arith);
    assert(a33 * (a10 * (a22 * a31)) == a10 * (a22 * (a31 * a33))) by (nonlinear_arith);
    assert(a33 * (a11 * (a20 * a32)) == a11 * (a20 * (a32 * a33))) by (nonlinear_arith);
    assert(a33 * (a11 * (a22 * a30)) == a11 * (a22 * (a30 * a33))) by (nonlinear_arith);
    assert(a33 * (a12 * (a20 * a31)) == a12 * (a20 * (a31 * a33))) by (nonlinear_arith);
    assert(a33 * (a12 * (a21 * a30)) == a12 * (a21 * (a30 * a33))) by (nonlinear_arith);
}

/// Row 3 against the cofactors of row 1 sums to zero.
proof fn lemma_adj_3_1(
    a00: int,
    a01: int,
    a02: int,
    a03: int,
    a10: int,
    a11: int,
    a12: int,
    a13: int,
    a20: int,
    a21: int,
    a22: int,
    a23: int,
    a30: int,
    a31: int,
    a32: int,
    a33: int,
)
    ensures
        -(a30 * idet3(a01, a02, a03, a21, a22, a23, a31, a32, a33)) + a31 * idet3(a00, a02, a03, a20, a22, a23, a30, a32, a33) - a32 * idet3(a00, a01, a03, a20, a21, a23, a30, a31, a33) + a33 * idet3(a00, a01, a02, a20, a21, a22, a30, a31, a32) == 0,
{
    let d_p0 = idet3(a01, a02, a03, a21, a22, a23, a31, a32, a33);
    assert(a01 * (a22 * a33 - a23 * a32) == a01 * (a22 * a33) - a01 * (a23 * a32)) by (nonlinear_arith);
    assert(a02 * (a21 * a33 - a23 * a31) == a02 * (a21 * a33) - a02 * (a23 * a31)) by (nonlinear_arith);
    assert(a03 * (a21 * a32 - a22 * a31) == a03 * (a21 * a32) - a03 * (a22 * a31)) by (nonlinear_arith);
    let dh1_p0 = a01 * (a22 * a33) - a01 * (a23 * a32) - a02 * (a21 * a33);
    let dh2_p0 = a02 * (a23 * a31) + a03 * (a21 * a32) - a03 * (a22 * a31);
    assert(d_p0 == dh1_p0 + dh2_p0);
    assert(a30 * d_p0 == a30 * dh1_p0 + a30 * dh2_p0) by (nonlinear_arith)
        requires d_p0 == dh1_p0 + dh2_p0;
    assert(a30 * dh1_p0 == a30 * (a01 * (a22 * a33)) - a30 * (a01 * (a23 * a32)) - a30 * (a02 * (a21 * a33))) by (nonlinear_arith)
        requires dh1_p0 == a01 * (a22 * a33) - a01 * (a23 * a32) - a02 * (a21 * a33);
    assert(a30 * dh2_p0 == a30 * (a02 * (a23 * a31)) + a30 * (a03 * (a21 * a32)) - a30 * (a03 * (a22 * a31))) by (nonlinear_arith)
        requires dh2_p0 == a02 * (a23 * a31) + a03 * (a21 * a32) - a03 * (a22 * a31);
    assert(a30 * (a01 * (a22 * a33)) == a01 * (a22 * (a30 * a33))) by (nonlinear_arith);
    assert(a30 * (a01 * (a23 * a32)) == a01 * (a23 * (a30 * a32))) by (nonlinear_arith);
    assert(a30 * (a02 * (a21 * a33)) == a02 * (a21 * (a30 * a33))) by (nonlinear_arith);
    assert(a30 * (a02 * (a23 * a31)) == a02 * (a23 * (a30 * a31))) by (nonlinear_arith);
    assert(a30 * (a03 * (a21 * a32)) == a03 * (a21 * (a30 * a32))) by (nonlinear_arith);
    assert(a30 * (a03 * (a22 * a31)) == a03 * (a22 * (a30 * a31))) by (nonlinear_arith);
    let d_p1 = idet3(a00, a02, a03, a20, a22, a23, a30, a32, a33);
    assert(a00 * (a22 * a33 - a23 * a32) == a00 * (a22 * a33) - a00 * (a23 * a32)) by (nonlinear_arith);
    assert(a02 * (a20 * a33 - a23 * a30) == a02 * (a20 * a33) - a02 * (a23 * a30)) by (nonlinear_arith);
    assert(a03 * (a20 * a32 - a22 * a30) == a03 * (a20 * a32) - a03 * (a22 * a30)) by (nonlinear_arith);
    let dh1_p1 = a00 * (a22 * a33) - a00 * (a23 * a32) - a02 * (a20 * a33);
    let dh2_p1 = a02 * (a23 * a30) + a03 * (a20 * a32) - a03 * (a22 * a30);
    assert(d_p1 == dh1_p1 + dh2_p1);
    assert(a31 * d_p1 == a31 * dh1_p1 + a31 * dh2_p1) by (nonlinear_arith)
        requires d_p1 == dh1_p1 + dh2_p1;
    assert(a31 * dh1_p1 == a31 * (a00 * (a22 * a33)) - a31 * (a00 * (a23 * a32)) - a31 * (a02 * (a20 * a33))) by (nonlinear_arith)
        requires dh1_p1 == a00 * (a22 * a33) - a00 * (a23 * a32) - a02 * (a20 * a33);
    assert(a31 * dh2_p1 == a31 * (a02 * (a23 * a30)) + a31 * (a03 * (a20 * a32)) - a31 * (a03 * (a22 * a30))) by (nonlinear_arith)
        requires dh2_p1 == a02 * (a23 * a30) + a03 * (a20 * a32) - a03 * (a22 * a30);
    assert(a31 * (a00 * (a22 * a33)) == a00 * (a22 * (a31 * a33))) by (nonlinear_arith);
    assert(a31 * (a00 * (a23 * a32)) == a00 * (a23 * (a31 * a32))) by (nonlinear_arith);
    assert(a31 * (a02 * (a20 * a33)) == a02 * (a20 * (a31 * a33))) by (nonlinear_arith);
    assert(a31 * (a02 * (a23 * a30)) == a02 * (a23 * (a30 * a31))) by (nonlinear_arith);
    assert(a31 * (a03 * (a20 * a32)) == a03 * (a20 * (a31 * a32))) by (nonlinear_arith);
    assert(a31 * (a03 * (a22 * a30)) == a03 * (a22 * (a30 * a31))) by (nonlinear_arith);
    let d_p2 = idet3(a00, a01, a03, a20, a21, a23, a30, a31, a33);
    assert(a00 * (a21 * a33 - a23 * a31) == a00 * (a21 * a33) - a00 * (a23 * a31)) by (nonlinear_arith);
    assert(a01 * (a20 * a33 - a23 * a30) == a01 * (a20 * a33) - a01 * (a23 * a30)) by (nonlinear_arith);
    assert(a03 * (a20 * a31 - a21 * a30) == a03 * (a20 * a31) - a03 * (a21 * a30)) by (nonlinear_arith);
    let dh1_p2 = a00 * (a21 * a33) - a00 * (a23 * a31) - a01 * (a20 * a33);
    let dh2_p2 = a01 * (a23 * a30) + a03 * (a20 * a31) - a03 * (a21 * a30);
    assert(d_p2 == dh1_p2 + dh2_p2);
    assert(a32 * d_p2 == a32 * dh1_p2 + a32 * dh2_p2) by (nonlinear_arith)
        requires d_p2 == dh1_p2 + dh2_p2;
    assert(a32 * dh1_p2 == a32 * (a00 * (a21 * a33)) - a32 * (a00 * (a23 * a31)) - a32 * (a01 * (a20 * a33))) by (nonlinear_arith)
        requires dh1_p2 == a00 * (a21 * a33) - a00 * (a23 * a31) - a01 * (a20 * a33);
    assert(a32 * dh2_p2 == a32 * (a01 * (a23 * a30)) + a32 * (a03 * (a20 * a31)) - a32 * (a03 * (a21 * a30))) by (nonlinear_arith)
        requires dh2_p2 == a01 * (a23 * a30) + a03 * (a20 * a31) - a03 * (a21 * a30);
    assert(a32 * (a00 * (a21 * a33)) == a00 * (a21 * (a32 * a33))) by (nonlinear_arith);
    assert(a32 * (a00 * (a23 * a31)) == a00 * (a23 * (a31 * a32))) by (nonlinear_arith);
    assert(a32 * (a01 * (a20 * a33)) == a01 * (a20 * (a32 * a33))) by (nonlinear_arith);
    assert(a32 * (a01 * (a23 * a30)) == a01 * (a23 * (a30 * a32))) by (nonlinear_arith);
    assert(a32 * (a03 * (a20 * a31)) == a03 * (a20 * (a31 * a32))) by (nonlinear_arith);
    assert(a32 * (a03 * (a21 * a30)) == a03 * (a21 * (a30 * a32))) by (nonlinear_arith);
    let d_p3 = idet3(a00, a01, a02, a20, a21, a22, a30, a31, a32);
    assert(a00 * (a21 * a32 - a22 * a31) == a00 * (a21 * a32) - a00 * (a22 * a31)) by (nonlinear_arith);
    assert(a01 * (a20 * a32 - a22 * a30) == a01 * (a20 * a32) - a01 * (a22 * a30)) by (nonlinear_arith);
    assert(a02 * (a20 * a31 - a21 * a30) == a02 * (a20 * a31) - a02 * (a21 * a30)) by (nonlinear_arith);
    let dh1_p3 = a00 * (a21 * a32) - a00 * (a22 * a31) - a01 * (a20 * a32);
    let dh2_p3 = a01 * (a22 * a30) + a02 * (a20 * a31) - a02 * (a21 * a30);
    assert(d_p3 == dh1_p3 + dh2_p3);
    assert(a33 * d_p3 == a33 * dh1_p3 + a33 * dh2_p3) by (nonlinear_arith)
        requires d_p3 == dh1_p3 + dh2_p3;
    assert(a33 * dh1_p3 == a33 * (a00 * (a21 * a32)) - a33 * (a00 * (a22 * a31)) - a33 * (a01 * (a20 * a32))) by (nonlinear_arith)
        requires dh1_p3 == a00 * (a21 * a32) - a00 * (a22 * a31) - a01 * (a20 * a32);
    assert(a33 * dh2_p3 == a33 * (a01 * (a22 * a30)) + a33 * (a02 * (a20 * a31)) - a33 * (a02 * (a21 * a30))) by (nonlinear_arith)
        requires dh2_p3 == a01 * (a22 * a30) + a02 * (a20 * a31) - a02 * (a21 * a30);
    assert(a33 * (a00 * (a21 * a32)) == a00 * (a21 * (a32 * a33))) by (nonlinear_arith);
    assert(a33 * (a00 * (a22 * a31)) == a00 * (a22 * (a31 * a33))) by (nonlinear_arith);
    assert(a33 * (a01 * (a20 * a32)) == a01 * (a20 * (a32 * a33))) by (nonlinear_arith);
    assert(a33 * (a01 * (a22 * a30)) == a01 * (a22 * (a30 * a33))) by (nonlinear_arith);
    assert(a33 * (a02 * (a20 * a31)) == a02 * (a20 * (a31 * a33))) by (nonlinear_arith);
    assert(a33 * (a02 * (a21 * a30)) == a02 * (a21 * (a30 * a33))) by (nonlinear_arith);
}

/// Row 3 against the cofactors of row 2 sums to zero.
proof fn lemma_adj_3_2(
    a00: int,
    a01: int,
    a02: int,
    a03: int,
    a10: int,
    a11: int,
    a12: int,
    a13: int,
    a20: int,
    a21: int,
    a22: int,
    a23: int,
    a30: int,
    a31: int,
    a32: int,
    a33: int,
)
    ensures
        a30 * idet3(a01, a02, a03, a11, a12, a13, a31, a32, a33) - a31 * idet3(a00, a02, a03, a10, a12, a13, a30, a32, a33) + a32 * idet3(a00, a01, a03, a10, a11, a13, a30, a31, a33) - a33 * idet3(a00, a01, a02, a10, a11, a12, a30, a31, a32) == 0,
{
    let d_p0 = idet3(a01, a02, a03, a11, a12, a13, a31, a32, a33);
    assert(a01 * (a12 * a33 - a13 * a32) == a01 * (a12 * a33) - a01 * (a13 * a32)) by (nonlinear_arith);
    assert(a02 * (a11 * a33 - a13 * a31) == a02 * (a11 * a33) - a02 * (a13 * a31)) by (nonlinear_arith);
    assert(a03 * (a11 * a32 - a12 * a31) == a03 * (a11 * a32) - a03 * (a12 * a31)) by (nonlinear_arith);
    let dh1_p0 = a01 * (a12 * a33) - a01 * (a13 * a32) - a02 * (a11 * a33);
    let dh2_p0 = a02 * (a13 * a31) + a03 * (a11 * a32) - a03 * (a12 * a31);
    assert(d_p0 == dh1_p0 + dh2_p0);
    assert(a30 * d_p0 == a30 * dh1_p0 + a30 * dh2_p0) by (nonlinear_arith)
        requires d_p0 == dh1_p0 + dh2_p0;
    assert(a30 * dh1_p0 == a30 * (a01 * (a12 * a33)) - a30 * (a01 * (a13 * a32)) - a30 * (a02 * (a11 * a33))) by (nonlinear_arith)
        requires dh1_p0 == a01 * (a12 * a33) - a01 * (a13 * a32) - a02 * (a11 * a33);
    assert(a30 * dh2_p0 == a30 * (a02 * (a13 * a31)) + a30 * (a03 * (a11 * a32)) - a30 * (a03 * (a12 * a31))) by (nonlinear_arith)
        requires dh2_p0 == a02 * (a13 * a31) + a03 * (a11 * a32) - a03 * (a12 * a31);
    assert(a30 * (a01 * (a12 * a33)) == a01 * (a12 * (a30 * a33))) by (nonlinear_arith);
    assert(a30 * (a01 * (a13 * a32)) == a01 * (a13 * (a30 * a32))) by (nonlinear_arith);
    assert(a30 * (a02 * (a11 * a33)) == a02 * (a11 * (a30 * a33))) by (nonlinear_arith);
    assert(a30 * (a02 * (a13 * a31)) == a02 * (a13 * (a30 * a31))) by (nonlinear_arith);
    assert(a30 * (a03 * (a11 * a32)) == a03 * (a11 * (a30 * a32))) by (nonlinear_arith);
    assert(a30 * (a03 * (a12 * a31)) == a03 * (a12 * (a30 * a31))) by (nonlinear_arith);
    let d_p1 = idet3(a00, a02, a03, a10, a12, a13, a30, a32, a33);
    assert(a00 * (a12 * a33 - a13 * a32) == a00 * (a12 * a33) - a00 * (a13 * a32)) by (nonlinear_arith);
    assert(a02 * (a10 * a33 - a13 * a30) == a02 * (a10 * a33) - a02 * (a13 * a30)) by (nonlinear_arith);
    assert(a03 * (a10 * a32 - a12 * a30) == a03 * (a10 * a32) - a03 * (a12 * a30)) by (nonlinear_arith);
    let dh1_p1 = a00 * (a12 * a33) - a00 * (a13 * a32) - a02 * (a10 * a33);
    let dh2_p1 = a02 * (a13 * a30) + a03 * (a10 * a32) - a03 * (a12 * a30);
    assert(d_p1 == dh1_p1 + dh2_p1);
    assert(a31 * d_p1 == a31 * dh1_p1 + a31 * dh2_p1) by (nonlinear_arith)
        requires d_p1 == dh1_p1 + dh2_p1;
    assert(a31 * dh1_p1 == a31 * (a00 * (a12 * a33)) - a31 * (a00 * (a13 * a32)) - a31 * (a02 * (a10 * a33))) by (nonlinear_arith)
        requires dh1_p1 == a00 * (a12 * a33) - a00 * (a13 * a32) - a02 * (a10 * a33);
    assert(a31 * dh2_p1 == a31 * (a02 * (a13 * a30)) + a31 * (a03 * (a10 * a32)) - a31 * (a03 * (a12 * a30))) by (nonlinear_arith)
        requires dh2_p1 == a02 * (a13 * a30) + a03 * (a10 * a32) - a03 * (a12 * a30);
    assert(a31 * (a00 * (a12 * a33)) == a00 * (a12 * (a31 * a33))) by (nonlinear_arith);
    assert(a31 * (a00 * (a13 * a32)) == a00 * (a13 * (a31 * a32))) by (nonlinear_arith);
    assert(a31 * (a02 * (a10 * a33)) == a02 * (a10 * (a31 * a33))) by (nonlinear_arith);
    assert(a31 * (a02 * (a13 * a30)) == a02 * (a13 * (a30 * a31))) by (nonlinear_arith);
    assert(a31 * (a03 * (a10 * a32)) == a03 * (a10 * (a31 * a32))) by (nonlinear_arith);
    assert(a31 * (a03 * (a12 * a30)) == a03 * (a12 * (a30 * a31))) by (nonlinear_arith);
    let d_p2 = idet3(a00, a01, a03, a10, a11, a13, a30, a31, a33);
    assert(a00 * (a11 * a33 - a13 * a31) == a00 * (a11 * a33) - a00 * (a13 * a31)) by (nonlinear_arith);
    assert(a01 * (a10 * a33 - a13 * a30) == a01 * (a10 * a33) - a01 * (a13 * a30)) by (nonlinear_arith);
    assert(a03 * (a10 * a31 - a11 * a30) == a03 * (a10 * a31) - a03 * (a11 * a30)) by (nonlinear_arith);
    let dh1_p2 = a00 * (a11 * a33) - a00 * (a13 * a31) - a01 * (a10 * a33);
    let dh2_p2 = a01 * (a13 * a30) + a03 * (a10 * a31) - a03 * (a11 * a30);
    assert(d_p2 == dh1_p2 + dh2_p2);
    assert(a32 * d_p2 == a32 * dh1_p2 + a32 * dh2_p2) by (nonlinear_arith)
        requires d_p2 == dh1_p2 + dh2_p2;
    assert(a32 * dh1_p2 == a32 * (a00 * (a11 * a33)) - a32 * (a00 * (a13 * a31)) - a32 * (a01 * (a10 * a33))) by (nonlinear_arith)
        requires dh1_p2 == a00 * (a11 * a33) - a00 * (a13 * a31) - a01 * (a10 * a33);
    assert(a32 * dh2_p2 == a32 * (a01 * (a13 * a30)) + a32 * (a03 * (a10 * a31)) - a32 * (a03 * (a11 * a30))) by (nonlinear_arith)
        requires dh2_p2 == a01 * (a13 * a30) + a03 * (a10 * a31) - a03 * (a11 * a30);
    assert(a32 * (a00 * (a11 * a33)) == a00 * (a11 * (a32 * a33))) by (nonlinear_arith);
    assert(a32 * (a00 * (a13 * a31)) == a00 * (a13 * (a31 * a32))) by (nonlinear_arith);
    assert(a32 * (a01 * (a10 * a33)) == a01 * (a10 * (a32 * a33))) by (nonlinear_arith);
    assert(a32 * (a01 * (a13 * a30)) == a01 * (a13 * (a30 * a32))) by (nonlinear_arith);
    assert(a32 * (a03 * (a10 * a31)) == a03 * (a10 * (a31 * a32))) by (nonlinear_arith);
    assert(a32 * (a03 * (a11 * a30)) == a03 * (a11 * (a30 * a32))) by (nonlinear_arith);
    let d_p3 = idet3(a00, a01, a02, a10, a11, a12, a30, a31, a32);
    assert(a00 * (a11 * a32 - a12 * a31) == a00 * (a11 * a32) - a00 * (a12 * a31)) by (nonlinear_arith);
    assert(a01 * (a10 * a32 - a12 * a30) == a01 * (a10 * a32) - a01 * (a12 * a30)) by (nonlinear_arith);
    assert(a02 * (a10 * a31 - a11 * a30) == a02 * (a10 * a31) - a02 * (a11 * a30)) by (nonlinear_arith);
    let dh1_p3 = a00 * (a11 * a32) - a00 * (a12 * a31) - a01 * (a10 * a32);
    let dh2_p3 = a01 * (a12 * a30) + a02 * (a10 * a31) - a02 * (a11 * a30);
    assert(d_p3 == dh1_p3 + dh2_p3);
    assert(a33 * d_p3 == a33 * dh1_p3 + a33 * dh2_p3) by (nonlinear_arith)
        requires d_p3 == dh1_p3 + dh2_p3;
    assert(a33 * dh1_p3 == a33 * (a00 * (a11 * a32)) - a33 * (a00 * (a12 * a31)) - a33 * (a01 * (a10 * a32))) by (nonlinear_arith)
        requires dh1_p3 == a00 * (a11 * a32) - a00 * (a12 * a31) - a01 * (a10 * a32);
    assert(a33 * dh2_p3 == a33 * (a01 * (a12 * a30)) + a33 * (a02 * (a10 * a31)) - a33 * (a02 * (a11 * a30))) by (nonlinear_arith)
        requires dh2_p3 == a01 * (a12 * a30) + a02 * (a10 * a31) - a02 * (a11 * a30);
    assert(a33 * (a00 * (a11 * a32)) == a00 * (a11 * (a32 * a33))) by (nonlinear_arith);
    assert(a33 * (a00 * (a12 * a31)) == a00 * (a12 * (a31 * a33))) by (nonlinear_arith);
    assert(a33 * (a01 * (a10 * a32)) == a01 * (a10 * (a32 * a33))) by (nonlinear_arith);
    assert(a33 * (a01 * (a12 * a30)) == a01 * (a12 * (a30 * a33))) by (nonlinear_arith);
    assert(a33 * (a02 * (a10 * a31)) == a02 * (a10 * (a31 * a33))) by (nonlinear_arith);
    assert(a33 * (a02 * (a11 * a30)) == a02 * (a11 * (a30 * a33))) by (nonlinear_arith);
}

/// Cofactor expansion along row 3 gives the determinant again.
proof fn lemma_adj_3_3(
    a00: int,
    a01: int,
    a02: int,
    a03: int,
    a10: int,
    a11: int,
    a12: int,
    a13: int,
    a20: int,
    a21: int,
    a22: int,
    a23: int,
    a30: int,
    a31: int,
    a32: int,
    a33: int,
)
    ensures
        -(a30 * idet3(a01, a02, a03, a11, a12, a13, a21, a22, a23)) + a31 * idet3(a00, a02, a03, a10, a12, a13, a20, a22, a23) - a32 * idet3(a00, a01, a03, a10, a11, a13, a20, a21, a23) + a33 * idet3(a00, a01, a02, a10, a11, a12, a20, a21, a22) == a00 * idet3(a11, a12, a13, a21, a22, a23, a31, a32, a33) - a01 * idet3(a10, a12, a13, a20, a22, a23, a30, a32, a33) + a02 * idet3(a10, a11, a13, a20, a21, a23, a30, a31, a33) - a03 * idet3(a10, a11, a12, a20, a21, a22, a30, a31, a32),
{
    let d_p0 = idet3(a01, a02, a03, a11, a12, a13, a21, a22, a23);
    assert(a01 * (a12 * a23 - a13 * a22) == a01 * (a12 * a23) - a01 * (a13 * a22)) by (nonlinear_arith);
    assert(a02 * (a11 * a23 - a13 * a21) == a02 * (a11 * a23) - a02 * (a13 * a21)) by (nonlinear_arith);
    assert(a03 * (a11 * a22 - a12 * a21) == a03 * (a11 * a22) - a03 * (a12 * a21)) by (nonlinear_arith);
    let dh1_p0 = a01 * (a12 * a23) - a01 * (a13 * a22) - a02 * (a11 * a23);
    let dh2_p0 = a02 * (a13 * a21) + a03 * (a11 * a22) - a03 * (a12 * a21);
    assert(d_p0 == dh1_p0 + dh2_p0);
    assert(a30 * d_p0 == a30 * dh1_p0 + a30 * dh2_p0) by (nonlinear_arith)
        requires d_p0 == dh1_p0 + dh2_p0;
    assert(a30 * dh1_p0 == a30 * (a01 * (a12 * a23)) - a30 * (a01 * (a13 * a22)) - a30 * (a02 * (a11 * a23))) by (nonlinear_arith)
        requires dh1_p0 == a01 * (a12 * a23) - a01 * (a13 * a22) - a02 * (a11 * a23);
    assert(a30 * dh2_p0 == a30 * (a02 * (a13 * a21)) + a30 * (a03 * (a11 * a22)) - a30 * (a03 * (a12 * a21))) by (nonlinear_arith)
        requires dh2_p0 == a02 * (a13 * a21) + a03 * (a11 * a22) - a03 * (a12 * a21);
    assert(a30 * (a01 * (a12 * a23)) == a01 * (a12 * (a23 * a30))) by (nonlinear_arith);
    assert(a30 * (a01 * (a13 * a22)) == a01 * (a13 * (a22 * a30))) by (nonlinear_arith);
    assert(a30 * (a02 * (a11 * a23)) == a02 * (a11 * (a23 * a30))) by (nonlinear_arith);
    assert(a30 * (a02 * (a13 * a21)) == a02 * (a13 * (a21 * a30))) by (nonlinear_arith);
    assert(a30 * (a03 * (a11 * a22)) == a03 * (a11 * (a22 * a30))) by (nonlinear_arith);
    assert(a30 * (a03 * (a12 * a21)) == a03 * (a12 * (a21 * a30))) by (nonlinear_arith);
    let d_p1 = idet3(a00, a02, a03, a10, a12, a13, a20, a22, a23);
    assert(a00 * (a12 * a23 - a13 * a22) == a00 * (a12 * a23) - a00 * (a13 * a22)) by (nonlinear_arith);
    assert(a02 * (a10 * a23 - a13 * a20) == a02 * (a10 * a23) - a02 * (a13 * a20)) by (nonlinear_arith);
    assert(a03 * (a10 * a22 - a12 * a20) == a03 * (a10 * a22) - a03 * (a12 * a20)) by (nonlinear_arith);
    let dh1_p1 = a00 * (a12 * a23) - a00 * (a13 * a22) - a02 * (a10 * a23);
    let dh2_p1 = a02 * (a13 * a20) + a03 * (a10 * a22) - a03 * (a12 * a20);
    assert(d_p1 == dh1_p1 + dh2_p1);
    assert(a31 * d_p1 == a31 * dh1_p1 + a31 * dh2_p1) by (nonlinear_arith)
        requires d_p1 == dh1_p1 + dh2_p1;
    assert(a31 * dh1_p1 == a31 * (a00 * (a12 * a23)) - a31 * (a00 * (a13 * a22)) - a31 * (a02 * (a10 * a23))) by (nonlinear_arith)
        requires dh1_p1 == a00 * (a12 * a23) - a00 * (a13 * a22) - a02 * (a10 * a23);
    assert(a31 * dh2_p1 == a31 * (a02 * (a13 * a20)) + a31 * (a03 * (a10 * a22)) - a31 * (a03 * (a12 * a20))) by (nonlinear_arith)
        requires dh2_p1 == a02 * (a13 * a20) + a03 * (a10 * a22) - a03 * (a12 * a20);
    assert(a31 * (a00 * (a12 * a23)) == a00 * (a12 * (a23 * a31))) by (nonlinear_arith);
    assert(a31 * (a00 * (a13 * a22)) == a00 * (a13 * (a22 * a31))) by (nonlinear_arith);
    assert(a31 * (a02 * (a10 * a23)) == a02 * (a10 * (a23 * a31))) by (nonlinear_arith);
    assert(a31 * (a02 * (a13 * a20)) == a02 * (a13 * (a20 * a31))) by (nonlinear_arith);
    assert(a31 * (a03 * (a10 * a22)) == a03 * (a10 * (a22 * a31))) by (nonlinear_arith);
    assert(a31 * (a03 * (a12 * a20)) == a03 * (a12 * (a20 * a31))) by (nonlinear_arith);
    let d_p2 = idet3(a00, a01, a03, a10, a11, a13, a20, a21, a23);
    assert(a00 * (a11 * a23 - a13 * a21) == a00 * (a11 * a23) - a00 * (a13 * a21)) by (nonlinear_arith);
    assert(a01 * (a10 * a23 - a13 * a20) == a01 * (a10 * a23) - a01 * (a13 * a20)) by (nonlinear_arith);
    assert(a03 * (a10 * a21 - a11 * a20) == a03 * (a10 * a21) - a03 * (a11 * a20)) by (nonlinear_arith);
    let dh1_p2 = a00 * (a11 * a23) - a00 * (a13 * a21) - a01 * (a10 * a23);
    let dh2_p2 = a01 * (a13 * a20) + a03 * (a10 * a21) - a03 * (a11 * a20);
    assert(d_p2 == dh1_p2 + dh2_p2);
    assert(a32 * d_p2 == a32 * dh1_p2 + a32 * dh2_p2) by (nonlinear_arith)
        requires d_p2 == dh1_p2 + dh2_p2;
    assert(a32 * dh1_p2 == a32 * (a00 * (a11 * a23)) - a32 * (a00 * (a13 * a21)) - a32 * (a01 * (a10 * a23))) by (nonlinear_arith)
        requires dh1_p2 == a00 * (a11 * a23) - a00 * (a13 * a21) - a01 * (a10 * a23);
    assert(a32 * dh2_p2 == a32 * (a01 * (a13 * a20)) + a32 * (a03 * (a10 * a21)) - a32 * (a03 * (a11 * a20))) by (nonlinear_arith)
        requires dh2_p2 == a01 * (a13 * a20) + a03 * (a10 * a21) - a03 * (a11 * a20);
    assert(a32 * (a00 * (a11 * a23)) == a00 * (a11 * (a23 * a32))) by (nonlinear_arith);
    assert(a32 * (a00 * (a13 * a21)) == a00 * (a13 * (a21 * a32))) by (nonlinear_arith);
    assert(a32 * (a01 * (a10 * a23)) == a01 * (a10 * (a23 * a32))) by (nonlinear_arith);
    assert(a32 * (a01 * (a13 * a20)) == a01 * (a13 * (a20 * a32))) by (nonlinear_arith);
    assert(a32 * (a03 * (a10 * a21)) == a03 * (a10 * (a21 * a32))) by (nonlinear_arith);
    assert(a32 * (a03 * (a11 * a20)) == a03 * (a11 * (a20 * a32))) by (nonlinear_arith);
    let d_p3 = idet3(a00, a01, a02, a10, a11, a12, a20, a21, a22);
    assert(a00 * (a11 * a22 - a12 * a21) == a00 * (a11 * a22) - a00 * (a12 * a21)) by (nonlinear_arith);
    assert(a01 * (a10 * a22 - a12 * a20) == a01 * (a10 * a22) - a01 * (a12 * a20)) by (nonlinear_arith);
    assert(a02 * (a10 * a21 - a11 * a20) == a02 * (a10 * a21) - a02 * (a11 * a20)) by (nonlinear_arith);
    let dh1_p3 = a00 * (a11 * a22) - a00 * (a12 * a21) - a01 * (a10 * a22);
    let dh2_p3 = a01 * (a12 * a20) + a02 * (a10 * a21) - a02 * (a11 * a20);
    assert(d_p3 == dh1_p3 + dh2_p3);
    assert(a33 * d_p3 == a33 * dh1_p3 + a33 * dh2_p3) by (nonlinear_arith)
        requires d_p3 == dh1_p3 + dh2_p3;
    assert(a33 * dh1_p3 == a33 * (a00 * (a11 * a22)) - a33 * (a00 * (a12 * a21)) - a33 * (a01 * (a10 * a22))) by (nonlinear_arith)
        requires dh1_p3 == a00 * (a11 * a22) - a00 * (a12 * a21) - a01 * (a10 * a22);
    assert(a33 * dh2_p3 == a33 * (a01 * (a12 * a20)) + a33 * (a02 * (a10 * a21)) - a33 * (a02 * (a11 * a20))) by (nonlinear_arith)
        requires dh2_p3 == a01 * (a12 * a20) + a02 * (a10 * a21) - a02 * (a11 * a20);
    assert(a33 * (a00 * (a11 * a22)) == a00 * (a11 * (a22 * a33))) by (nonlinear_arith);
    assert(a33 * (a00 * (a12 * a21)) == a00 * (a12 * (a21 * a33))) by (nonlinear_arith);
    assert(a33 * (a01 * (a10 * a22)) == a01 * (a10 * (a22 * a33))) by (nonlinear_arith);
    assert(a33 * (a01 * (a12 * a20)) == a01 * (a12 * (a20 * a33))) by (nonlinear_arith);
    assert(a33 * (a02 * (a10 * a21)) == a02 * (a10 * (a21 * a33))) by (nonlinear_arith);
    assert(a33 * (a02 * (a11 * a20)) == a02 * (a11 * (a20 * a33))) by (nonlinear_arith);
    let d_q0 = idet3(a11, a12, a13, a21, a22, a23, a31, a32, a33);
    assert(a11 * (a22 * a33 - a23 * a32) == a11 * (a22 * a33) - a11 * (a23 * a32)) by (nonlinear_arith);
    assert(a12 * (a21 * a33 - a23 * a31) == a12 * (a21 * a33) - a12 * (a23 * a31)) by (nonlinear_arith);
    assert(a13 * (a21 * a32 - a22 * a31) == a13 * (a21 * a32) - a13 * (a22 * a31)) by (nonlinear_arith);
    let dh1_q0 = a11 * (a22 * a33) - a11 * (a23 * a32) - a12 * (a21 * a33);
    let dh2_q0 = a12 * (a23 * a31) + a13 * (a21 * a32) - a13 * (a22 * a31);
    assert(d_q0 == dh1_q0 + dh2_q0);
    assert(a00 * d_q0 == a00 * dh1_q0 + a00 * dh2_q0) by (nonlinear_arith)
        requires d_q0 == dh1_q0 + dh2_q0;
    assert(a00 * dh1_q0 == a00 * (a11 * (a22 * a33)) - a00 * (a11 * (a23 * a32)) - a00 * (a12 * (a21 * a33))) by (nonlinear_arith)
        requires dh1_q0 == a11 * (a22 * a33) - a11 * (a23 * a32) - a12 * (a21 * a33);
    assert(a00 * dh2_q0 == a00 * (a12 * (a23 * a31)) + a00 * (a13 * (a21 * a32)) - a00 * (a13 * (a22 * a31))) by (nonlinear_arith)
        requires dh2_q0 == a12 * (a23 * a31) + a13 * (a21 * a32) - a13 * (a22 * a31);
    let d_q1 = idet3(a10, a12, a13, a20, a22, a23, a30, a32, a33);
    assert(a10 * (a22 * a33 - a23 * a32) == a10 * (a22 * a33) - a10 * (a23 * a32)) by (nonlinear_arith);
    assert(a12 * (a20 * a33 - a23 * a30) == a12 * (a20 * a33) - a12 * (a23 * a30)) by (nonlinear_arith);
    assert(a13 * (a20 * a32 - a22 * a30) == a13 * (a20 * a32) - a13 * (a22 * a30)) by (nonlinear_arith);
    let dh1_q1 = a10 * (a22 * a33) - a10 * (a23 * a32) - a12 * (a20 * a33);
    let dh2_q1 = a12 * (a23 * a30) + a13 * (a20 * a32) - a13 * (a22 * a30);
    assert(d_q1 == dh1_q1 + dh2_q1);
    assert(a01 * d_q1 == a01 * dh1_q1 + a01 * dh2_q1) by (nonlinear_arith)
        requires d_q1 == dh1_q1 + dh2_q1;
    assert(a01 * dh1_q1 == a01 * (a10 * (a22 * a33)) - a01 * (a10 * (a23 * a32)) - a01 * (a12 * (a20 * a33))) by (nonlinear_arith)
        requires dh1_q1 == a10 * (a22 * a33) - a10 * (a23 * a32) - a12 * (a20 * a33);
    assert(a01 * dh2_q1 == a01 * (a12 * (a23 * a30)) + a01 * (a13 * (a20 * a32)) - a01 * (a13 * (a22 * a30))) by (nonlinear_arith)
        requires dh2_q1 == a12 * (a23 * a30) + a13 * (a20 * a32) - a13 * (a22 * a30);
    let d_q2 = idet3(a10, a11, a13, a20, a21, a23, a30, a31, a33);
    assert(a10 * (a21 * a33 - a23 * a31) == a10 * (a21 * a33) - a10 * (a23 * a31)) by (nonlinear_arith);
    assert(a11 * (a20 * a33 - a23 * a30) == a11 * (a20 * a33) - a11 * (a23 * a30)) by (nonlinear_arith);
    assert(a13 * (a20 * a31 - a21 * a30) == a13 * (a20 * a31) - a13 * (a21 * a30)) by (nonlinear_arith);
    let dh1_q2 = a10 * (a21 * a33) - a10 * (a23 * a31) - a11 * (a20 * a33);
    let dh2_q2 = a11 * (a23 * a30) + a13 * (a20 * a31) - a13 * (a21 * a30);
    assert(d_q2 == dh1_q2 + dh2_q2);
    assert(a02 * d_q2 == a02 * dh1_q2 + a02 * dh2_q2) by (nonlinear_arith)
        requires d_q2 == dh1_q2 + dh2_q2;
    assert(a02 * dh1_q2 == a02 * (a10 * (a21 * a33)) - a02 * (a10 * (a23 * a31)) - a02 * (a11 * (a20 * a33))) by (nonlinear_arith)
        requires dh1_q2 == a10 * (a21 * a33) - a10 * (a23 * a31) - a11 * (a20 * a33);
    assert(a02 * dh2_q2 == a02 * (a11 * (a23 * a30)) + a02 * (a13 * (a20 * a31)) - a02 * (a13 * (a21 * a30))) by (nonlinear_arith)
        requires dh2_q2 == a11 * (a23 * a30) + a13 * (a20 * a31) - a13 * (a21 * a30);
    let d_q3 = idet3(a10, a11, a12, a20, a21, a22, a30, a31, a32);
    assert(a10 * (a21 * a32 - a22 * a31) == a10 * (a21 * a32) - a10 * (a22 * a31)) by (nonlinear_arith);
    assert(a11 * (a20 * a32 - a22 * a30) == a11 * (a20 * a32) - a11 * (a22 * a30)) by (nonlinear_arith);
    assert(a12 * (a20 * a31 - a21 * a30) == a12 * (a20 * a31) - a12 * (a21 * a30)) by (nonlinear_arith);
    let dh1_q3 = a10 * (a21 * a32) - a10 * (a22 * a31) - a11 * (a20 * a32);
    let dh2_q3 = a11 * (a22 * a30) + a12 * (a20 * a31) - a12 * (a21 * a30);
    assert(d_q3 == dh1_q3 + dh2_q3);
    assert(a03 * d_q3 == a03 * dh1_q3 + a03 * dh2_q3) by (nonlinear_arith)
        requires d_q3 == dh1_q3 + dh2_q3;
    assert(a03 * dh1_q3 == a03 * (a10 * (a21 * a32)) - a03 * (a10 * (a22 * a31)) - a03 * (a11 * (a20 * a32))) by (nonlinear_arith)
        requires dh1_q3 == a10 * (a21 * a32) - a10 * (a22 * a31) - a11 * (a20 * a32);
    assert(a03 * dh2_q3 == a03 * (a11 * (a22 * a30)) + a03 * (a12 * (a20 * a31)) - a03 * (a12 * (a21 * a30))) by (nonlinear_arith)
        requires dh2_q3 == a11 * (a22 * a30) + a12 * (a20 * a31) - a12 * (a21 * a30);
}

/// One row of the matrix against the cofactors of another row: the
/// determinant when the rows agree, zero otherwise.
proof fn lemma_adjugate_row(m: Matrix, i: int, j: int)
    requires
        0 <= i < 4,
        0 <= j < 4,
    ensures
        we(m, i, 0) * icof(m, j, 0) + we(m, i, 1) * icof(m, j, 1) + we(m, i, 2) * icof(
            m,
            j,
            2,
        ) + we(m, i, 3) * icof(m, j, 3) == (if i == j {
            idet4(m)
        } else {
            0
        }),
{
    let w00 = we(m, 0, 0);
    let w01 = we(m, 0, 1);
    let w02 = we(m, 0, 2);
    let w03 = we(m, 0, 3);
    let w10 = we(m, 1, 0);
    let w11 = we(m, 1, 1);
    let w12 = we(m, 1, 2);
    let w13 = we(m, 1, 3);
    let w20 = we(m, 2, 0);
    let w21 = we(m, 2, 1);
    let w22 = we(m, 2, 2);
    let w23 = we(m, 2, 3);
    let w30 = we(m, 3, 0);
    let w31 = we(m, 3, 1);
    let w32 = we(m, 3, 2);
    let w33 = we(m, 3, 3);
    if i == 0 && j == 0 {
        lemma_neg_factor(we(m, 0, 1), icof(m, 0, 1), isub(m, 0, 1));
        lemma_neg_factor(we(m, 0, 3), icof(m, 0, 3), isub(m, 0, 3));
    } else if i == 0 && j == 1 {
        lemma_adj_0_1(w00, w01, w02, w03, w10, w11, w12, w13, w20, w21, w22, w23, w30, w31, w32, w33);
        lemma_neg_factor(we(m, 0, 0), icof(m, 1, 0), isub(m, 1, 0));
        lemma_neg_factor(we(m, 0, 2), icof(m, 1, 2), isub(m, 1, 2));
    } else if i == 0 && j == 2 {
        lemma_adj_0_2(w00, w01, w02, w03, w10, w11, w12, w13, w20, w21, w22, w23, w30, w31, w32, w33);
        lemma_neg_factor(we(m, 0, 1), icof(m, 2, 1), isub(m, 2, 1));
        lemma_neg_factor(we(m, 0, 3), icof(m, 2, 3), isub(m, 2, 3));
    } else if i == 0 && j == 3 {
        lemma_adj_0_3(w00, w01, w02, w03, w10, w11, w12, w13, w20, w21, w22, w23, w30, w31, w32, w33);
        lemma_neg_factor(we(m, 0, 0), icof(m, 3, 0), isub(m, 3, 0));
        lemma_neg_factor(we(m, 0, 2), icof(m, 3, 2), isub(m, 3, 2));
    } else if i == 1 && j == 0 {
        lemma_adj_1_0(w00, w01, w02, w03, w10, w11, w12, w13, w20, w21, w22, w23, w30, w31, w32, w33);
        lemma_neg_factor(we(m, 1, 1), icof(m, 0, 1), isub(m, 0, 1));
        lemma_neg_factor(we(m, 1, 3), icof(m, 0, 3), isub(m, 0, 3));
    } else if i == 1 && j == 1 {
        lemma_adj_1_1(w00, w01, w02, w03, w10, w11, w12, w13, w20, w21, w22, w23, w30, w31, w32, w33);
        lemma_neg_factor(we(m, 1, 0), icof(m, 1, 0), isub(m, 1, 0));
        lemma_neg_factor(we(m, 1, 2), icof(m, 1, 2), isub(m, 1, 2));
    } else if i == 1 && j == 2 {
        lemma_adj_1_2(w00, w01, w02, w03, w10, w11, w12, w13, w20, w21, w22, w23, w30, w31, w32, w33);
        lemma_neg_factor(we(m, 1, 1), icof(m, 2, 1), isub(m, 2, 1));
        lemma_neg_factor(we(m, 1, 3), icof(m, 2, 3), isub(m, 2, 3));
    } else if i == 1 && j == 3 {
        lemma_adj_1_3(w00, w01, w02, w03, w10, w11, w12, w13, w20, w21, w22, w23, w30, w31, w32, w33);
        lemma_neg_factor(we(m, 1, 0), icof(m, 3, 0), isub(m, 3, 0));
        lemma_neg_factor(we(m, 1, 2), icof(m, 3, 2), isub(m, 3, 2));
    } else if i == 2 && j == 0 {
        lemma_adj_2_0(w00, w01, w02, w03, w10, w11, w12, w13, w20, w21, w22, w23, w30, w31, w32, w33);
        lemma_neg_factor(we(m, 2, 1), icof(m, 0, 1), isub(m, 0, 1));
        lemma_neg_factor(we(m, 2, 3), icof(m, 0, 3), isub(m, 0, 3));
    } else if i == 2 && j == 1 {
        lemma_adj_2_1(w00, w01, w02, w03, w10, w11, w12, w13, w20, w21, w22, w23, w30, w31, w32, w33);
        lemma_neg_factor(we(m, 2, 0), icof(m, 1, 0), isub(m, 1, 0));
        lemma_neg_factor(we(m, 2, 2), icof(m, 1, 2), isub(m, 1, 2));
    } else if i == 2 && j == 2 {
        lemma_adj_2_2(w00, w01, w02, w03, w10, w11, w12, w13, w20, w21, w22, w23, w30, w31, w32, w33);
        lemma_neg_factor(we(m, 2, 1), icof(m, 2, 1), isub(m, 2, 1));
        lemma_neg_factor(we(m, 2, 3), icof(m, 2, 3), isub(m, 2, 3));
    } else if i == 2 && j == 3 {
        lemma_adj_2_3(w00, w01, w02, w03, w10, w11, w12, w13, w20, w21, w22, w23, w30, w31, w32, w33);
        lemma_neg_factor(we(m, 2, 0), icof(m, 3, 0), isub(m, 3, 0));
        lemma_neg_factor(we(m, 2, 2), icof(m, 3, 2), isub(m, 3, 2));
    } else if i == 3 && j == 0 {
        lemma_adj_3_0(w00, w01, w02, w03, w10, w11, w12, w13, w20, w21, w22, w23, w30, w31, w32, w33);
        lemma_neg_factor(we(m, 3, 1), icof(m, 0, 1), isub(m, 0, 1));
        lemma_neg_factor(we(m, 3, 3), icof(m, 0, 3), isub(m, 0, 3));
    } else if i == 3 && j == 1 {
        lemma_adj_3_1(w00, w01, w02, w03, w10, w11, w12, w13, w20, w21, w22, w23, w30, w31, w32, w33);
        lemma_neg_factor(we(m, 3, 0), icof(m, 1, 0), isub(m, 1, 0));
        lemma_neg_factor(we(m, 3, 2), icof(m, 1, 2), isub(m, 1, 2));
    } else if i == 3 && j == 2 {
        lemma_adj_3_2(w00, w01, w02, w03, w10, w11, w12, w13, w20, w21, w22, w23, w30, w31, w32, w33);
        lemma_neg_factor(we(m, 3, 1), icof(m, 2, 1), isub(m, 2, 1));
        lemma_neg_factor(we(m, 3, 3), icof(m, 2, 3), isub(m, 2, 3));
    } else if i == 3 && j == 3 {
        lemma_adj_3_3(w00, w01, w02, w03, w10, w11, w12, w13, w20, w21, w22, w23, w30, w31, w32, w33);
        lemma_neg_factor(we(m, 3, 0), icof(m, 3, 0), isub(m, 3, 0));
        lemma_neg_factor(we(m, 3, 2), icof(m, 3, 2), isub(m, 3, 2));
    }
}

/// Multiplying a matrix by its inverse gives the identity, exactly: for a
/// matrix of whole units with a nonzero determinant, whenever dividing the
/// cofactors by the determinant truncates nothing, the product of the
/// matrix with its inverse is exactly the identity transform.  `minv` is
/// the inverse, as `invert` computes it.
pub proof fn lemma_multiply_by_inverse_is_identity(m: Matrix, minv: Matrix)
    requires
        mat_whole(m),
        det4_spec(m) != 0,
        forall|i: int, j: int|
            0 <= i < 4 && 0 <= j < 4 ==> ((#[trigger] minv.0[i][j]) as int) == inv_entry(m, i, j),
        forall|i: int, j: int|
            0 <= i < 4 && 0 <= j < 4 ==> #[trigger] inv_entry(m, i, j) * det4_spec(m) == cof_spec(
                m,
                j,
                i,
            ) * (SCALE as int),
    ensures
        forall|i: int, j: int|
            0 <= i < 4 && 0 <= j < 4 ==> #[trigger] mul_entry(m, minv, i, j) == (if i == j {
                SCALE as int
            } else {
                0
            }),
{
    let s = SCALE as int;
    lemma_det4_whole(m);
    let big_d = idet4(m);
    assert(big_d != 0);
    assert forall|i: int, j: int| 0 <= i < 4 && 0 <= j < 4 implies #[trigger] mul_entry(
        m,
        minv,
        i,
        j,
    ) == (if i == j {
        SCALE as int
    } else {
        0
    }) by {
        lemma_whole_entry(m, i, 0);
        lemma_whole_entry(m, i, 1);
        lemma_whole_entry(m, i, 2);
        lemma_whole_entry(m, i, 3);
        let e0 = inv_entry(m, 0, j);
        let e1 = inv_entry(m, 1, j);
        let e2 = inv_entry(m, 2, j);
        let e3 = inv_entry(m, 3, j);
        assert(minv.0[0][j] as int == e0);
        assert(minv.0[1][j] as int == e1);
        assert(minv.0[2][j] as int == e2);
        assert(minv.0[3][j] as int == e3);
        lemma_fxmul_whole(we(m, i, 0), e0);
        lemma_fxmul_whole(we(m, i, 1), e1);
        lemma_fxmul_whole(we(m, i, 2), e2);
        lemma_fxmul_whole(we(m, i, 3), e3);
        let t = mul_entry(m, minv, i, j);
        assert(t == we(m, i, 0) * e0 + we(m, i, 1) * e1 + we(m, i, 2) * e2 + we(m, i, 3) * e3);
        // each inverse entry times the determinant is the scaled cofactor
        lemma_subdet_whole(m, j, 0);
        lemma_subdet_whole(m, j, 1);
        lemma_subdet_whole(m, j, 2);
        lemma_subdet_whole(m, j, 3);
        lemma_cof_scaled(m, j, 0);
        lemma_cof_scaled(m, j, 1);
        lemma_cof_scaled(m, j, 2);
        lemma_cof_scaled(m, j, 3);
        lemma_entry_times_det(m, 0, j, big_d, s);
        lemma_entry_times_det(m, 1, j, big_d, s);
        lemma_entry_times_det(m, 2, j, big_d, s);
        lemma_entry_times_det(m, 3, j, big_d, s);
        lemma_dist_four(
            t,
            we(m, i, 0) * e0,
            we(m, i, 1) * e1,
            we(m, i, 2) * e2,
            we(m, i, 3) * e3,
            big_d,
        );
        lemma_shuffle_term(we(m, i, 0), e0, big_d, icof(m, j, 0), s);
        lemma_shuffle_term(we(m, i, 1), e1, big_d, icof(m, j, 1), s);
        lemma_shuffle_term(we(m, i, 2), e2, big_d, icof(m, j, 2), s);
        lemma_shuffle_term(we(m, i, 3), e3, big_d, icof(m, j, 3), s);
        lemma_adjugate_row(m, i, j);
        lemma_dist_four(
            we(m, i, 0) * icof(m, j, 0) + we(m, i, 1) * icof(m, j, 1) + we(m, i, 2) * icof(m, j, 2)
                + we(m, i, 3) * icof(m, j, 3),
            we(m, i, 0) * icof(m, j, 0),
            we(m, i, 1) * icof(m, j, 1),
            we(m, i, 2) * icof(m, j, 2),
            we(m, i, 3) * icof(m, j, 3),
            s,
        );
        let total = we(m, i, 0) * icof(m, j, 0) + we(m, i, 1) * icof(m, j, 1) + we(m, i, 2)
            * icof(m, j, 2) + we(m, i, 3) * icof(m, j, 3);
        assert(t * big_d == total * s);
        if i == j {
            assert(total == big_d);
            assert(t * big_d == s * big_d);
            lemma_cancel_factor(t, s, big_d);
        } else {
            assert(total == 0);
            assert(t * big_d == 0 * big_d);
            lemma_cancel_factor(t, 0, big_d);
        }
    }
}

/// The fixed-point cofactor of a whole matrix is the integer cofactor,
/// scaled.
proof fn lemma_cof_scaled(m: Matrix, r: int, c: int)
    requires
        mat_whole(m),
        0 <= r < 4,
        0 <= c < 4,
    ensures
        cof_spec(m, r, c) == icof(m, r, c) * (SCALE as int),
{
    lemma_subdet_whole(m, r, c);
    if (r + c) % 2 == 0 {
    } else {
        assert(-(isub(m, r, c) * (SCALE as int)) == (-isub(m, r, c)) * (SCALE as int))
            by (nonlinear_arith);
    }
}

/// One inverse entry times the integer determinant is the scaled integer
/// cofactor.
proof fn lemma_entry_times_det(m: Matrix, l: int, j: int, big_d: int, s: int)
    requires
        mat_whole(m),
        0 <= l < 4,
        0 <= j < 4,
        s == SCALE as int,
        big_d == idet4(m),
        det4_spec(m) == big_d * s,
        inv_entry(m, l, j) * det4_spec(m) == cof_spec(m, j, l) * s,
        cof_spec(m, j, l) == icof(m, j, l) * s,
    ensures
        inv_entry(m, l, j) * big_d == icof(m, j, l) * s,
{
    let e = inv_entry(m, l, j);
    assert((e * big_d) * s == (icof(m, j, l) * s) * s) by (nonlinear_arith)
        requires
            e * (big_d * s) == (icof(m, j, l) * s) * s,
    ;
}

/// One product term, shuffled: the weight times the entry, then the
/// determinant, equals the weight times the scaled cofactor.
proof fn lemma_shuffle_term(w: int, e: int, big_d: int, c: int, s: int)
    requires
        e * big_d == c * s,
    ensures
        (w * e) * big_d == (w * c) * s,
{
    assert((w * e) * big_d == (w * c) * s) by (nonlinear_arith)
        requires
            e * big_d == c * s,
    ;
}

} // verus!
