//! Fixed 2x2, 3x3 and 4x4 matrices: product, transpose, determinant by
//! cofactor expansion, and inversion by the adjugate, together with the
//! transform builders.

use vstd::prelude::*;
use crate::fixed::{
    fits64, fx_div_wide, fx_mul_wide, fxdiv, fxmul, lemma_fxmul_bound, sabs, SCALE,
};
use crate::tuples::{tuple_bounded, Tuple, MUL_LIMIT};
use crate::MathError;

verus! {

/// Largest entry magnitude accepted by the 4x4 determinant and the inverse.
pub const DET_LIMIT: i64 = 0x400_0000;

/// Largest entry magnitude accepted by the 3x3 determinant.
pub const DET3_LIMIT: i64 = 0x4000_0000;

/// Largest entry magnitude accepted by the 2x2 determinant.
pub const DET2_LIMIT: i64 = 0x40_0000_0000;

#[derive(Debug, Clone, Copy, PartialEq)]
pub struct Matrix2(pub [[i64; 2]; 2]);

#[derive(Debug, Clone, Copy, PartialEq)]
pub struct Matrix3(pub [[i64; 3]; 3]);

#[derive(Debug, Clone, Copy, PartialEq)]
pub struct Matrix(pub [[i64; 4]; 4]);

/// Entry of a 4x4 matrix, as a mathematical integer.
#[verifier::inline]
pub open spec fn e4(m: Matrix, i: int, j: int) -> int {
    m.0[i][j] as int
}

/// Entry of a 3x3 matrix, as a mathematical integer.
#[verifier::inline]
pub open spec fn e3(m: Matrix3, i: int, j: int) -> int {
    m.0[i][j] as int
}

/// Entry of a 2x2 matrix, as a mathematical integer.
#[verifier::inline]
pub open spec fn e2(m: Matrix2, i: int, j: int) -> int {
    m.0[i][j] as int
}

/// All sixteen entries have magnitude at most `b`.
pub open spec fn mat_bounded(m: Matrix, b: int) -> bool {
    forall|i: int, j: int|
        0 <= i < 4 && 0 <= j < 4 ==> sabs((#[trigger] m.0[i][j]) as int) <= b
}

/// All nine entries have magnitude at most `b`.
pub open spec fn mat3_bounded(m: Matrix3, b: int) -> bool {
    forall|i: int, j: int|
        0 <= i < 3 && 0 <= j < 3 ==> sabs((#[trigger] m.0[i][j]) as int) <= b
}

/// All four entries have magnitude at most `b`.
pub open spec fn mat2_bounded(m: Matrix2, b: int) -> bool {
    forall|i: int, j: int|
        0 <= i < 2 && 0 <= j < 2 ==> sabs((#[trigger] m.0[i][j]) as int) <= b
}

/// The identity transform: `SCALE` on the diagonal, zero elsewhere.
pub open spec fn is_identity(m: Matrix) -> bool {
    forall|i: int, j: int|
        0 <= i < 4 && 0 <= j < 4 ==> (#[trigger] m.0[i][j]) as int == (if i == j {
            SCALE as int
        } else {
            0
        })
}

/// Entry `(i, j)` of the matrix product: the row-by-column dot product.
pub open spec fn mul_entry(a: Matrix, b: Matrix, i: int, j: int) -> int {
    fxmul(e4(a, i, 0), e4(b, 0, j)) + fxmul(e4(a, i, 1), e4(b, 1, j)) + fxmul(
        e4(a, i, 2),
        e4(b, 2, j),
    ) + fxmul(e4(a, i, 3), e4(b, 3, j))
}

/// Row `i` of a matrix applied to a tuple.
pub open spec fn row_dot(a: Matrix, i: int, t: Tuple) -> int {
    fxmul(e4(a, i, 0), t.x as int) + fxmul(e4(a, i, 1), t.y as int) + fxmul(e4(a, i, 2), t.z as int)
        + fxmul(e4(a, i, 3), t.w as int)
}

/// Determinant of a 2x2 matrix given by its entries.
pub open spec fn det2v(a: int, b: int, c: int, d: int) -> int {
    fxmul(a, d) - fxmul(b, c)
}

/// Determinant of a 3x3 matrix given by its entries, expanded along the
/// first row.
pub open spec fn det3v(
    a00: int,
    a01: int,
    a02: int,
    a10: int,
    a11: int,
    a12: int,
    a20: int,
    a21: int,
    a22: int,
) -> int {
    fxmul(a00, det2v(a11, a12, a21, a22)) - fxmul(a01, det2v(a10, a12, a20, a22)) + fxmul(
        a02,
        det2v(a10, a11, a20, a21),
    )
}

/// Determinant of a 2x2 matrix.
pub open spec fn det2_spec(m: Matrix2) -> int {
    det2v(e2(m, 0, 0), e2(m, 0, 1), e2(m, 1, 0), e2(m, 1, 1))
}

/// Determinant of a 3x3 matrix.
pub open spec fn det3_spec(m: Matrix3) -> int {
    det3v(
        e3(m, 0, 0),
        e3(m, 0, 1),
        e3(m, 0, 2),
        e3(m, 1, 0),
        e3(m, 1, 1),
        e3(m, 1, 2),
        e3(m, 2, 0),
        e3(m, 2, 1),
        e3(m, 2, 2),
    )
}

/// Index into the rows (or columns) that remain when row (or column) `r`
/// is deleted.
pub open spec fn skip(i: int, r: int) -> int {
    if i < r {
        i
    } else {
        i + 1
    }
}

/// Entry `(i, j)` of the 3x3 minor obtained by deleting `row` and `col`.
pub open spec fn sub_e(m: Matrix, row: int, col: int, i: int, j: int) -> int {
    e4(m, skip(i, row), skip(j, col))
}

/// Determinant of the 3x3 minor obtained by deleting `row` and `col`.
pub open spec fn subdet_spec(m: Matrix, row: int, col: int) -> int {
    det3v(
        sub_e(m, row, col, 0, 0),
        sub_e(m, row, col, 0, 1),
        sub_e(m, row, col, 0, 2),
        sub_e(m, row, col, 1, 0),
        sub_e(m, row, col, 1, 1),
        sub_e(m, row, col, 1, 2),
        sub_e(m, row, col, 2, 0),
        sub_e(m, row, col, 2, 1),
        sub_e(m, row, col, 2, 2),
    )
}

/// Determinant of a 4x4 matrix, expanded along the first row.
pub open spec fn det4_spec(m: Matrix) -> int {
    fxmul(e4(m, 0, 0), subdet_spec(m, 0, 0)) - fxmul(e4(m, 0, 1), subdet_spec(m, 0, 1)) + fxmul(
        e4(m, 0, 2),
        subdet_spec(m, 0, 2),
    ) - fxmul(e4(m, 0, 3), subdet_spec(m, 0, 3))
}

/// Cofactor: the minor's determinant with the checkerboard sign.
pub open spec fn cof_spec(m: Matrix, r: int, c: int) -> int {
    if (r + c) % 2 == 0 {
        subdet_spec(m, r, c)
    } else {
        -subdet_spec(m, r, c)
    }
}

/// Entry `(i, j)` of the inverse: the transposed cofactor divided by the
/// determinant.
pub open spec fn inv_entry(m: Matrix, i: int, j: int) -> int {
    fxdiv(cof_spec(m, j, i), det4_spec(m))
}

/// Bounds on the matrix entries and the tuple components bound a row-tuple
/// dot product.
pub proof fn lemma_row_dot_bound(a: Matrix, i: int, t: Tuple, bm: int, bt: int)
    requires
        mat_bounded(a, bm),
        tuple_bounded(t, bt),
        0 <= i < 4,
    ensures
        sabs(row_dot(a, i, t)) <= 4 * ((bm * bt) / (SCALE as int)),
{
    assert(sabs(a.0[i][0] as int) <= bm);
    assert(sabs(a.0[i][1] as int) <= bm);
    assert(sabs(a.0[i][2] as int) <= bm);
    assert(sabs(a.0[i][3] as int) <= bm);
    lemma_fxmul_bound(e4(a, i, 0), t.x as int, bm, bt);
    lemma_fxmul_bound(e4(a, i, 1), t.y as int, bm, bt);
    lemma_fxmul_bound(e4(a, i, 2), t.z as int, bm, bt);
    lemma_fxmul_bound(e4(a, i, 3), t.w as int, bm, bt);
}

/// A bound on four entries bounds the 2x2 determinant.
proof fn lemma_det2v_bound(a: int, b: int, c: int, d: int, lim: int)
    requires
        sabs(a) <= lim,
        sabs(b) <= lim,
        sabs(c) <= lim,
        sabs(d) <= lim,
    ensures
        sabs(det2v(a, b, c, d)) <= 2 * ((lim * lim) / (SCALE as int)),
{
    lemma_fxmul_bound(a, d, lim, lim);
    lemma_fxmul_bound(b, c, lim, lim);
}

/// A bound on nine entries bounds the 3x3 determinant.
proof fn lemma_det3v_bound(
    a00: int,
    a01: int,
    a02: int,
    a10: int,
    a11: int,
    a12: int,
    a20: int,
    a21: int,
    a22: int,
    lim: int,
)
    requires
        sabs(a00) <= lim,
        sabs(a01) <= lim,
        sabs(a02) <= lim,
        sabs(a10) <= lim,
        sabs(a11) <= lim,
        sabs(a12) <= lim,
        sabs(a20) <= lim,
        sabs(a21) <= lim,
        sabs(a22) <= lim,
        0 <= lim,
    ensures
        sabs(det3v(a00, a01, a02, a10, a11, a12, a20, a21, a22)) <= 3 * ((lim * (2 * ((lim * lim)
            / (SCALE as int)))) / (SCALE as int)),
{
    let d2 = 2 * ((lim * lim) / (SCALE as int));
    lemma_det2v_bound(a11, a12, a21, a22, lim);
    lemma_det2v_bound(a10, a12, a20, a22, lim);
    lemma_det2v_bound(a10, a11, a20, a21, lim);
    lemma_fxmul_bound(a00, det2v(a11, a12, a21, a22), lim, d2);
    lemma_fxmul_bound(a01, det2v(a10, a12, a20, a22), lim, d2);
    lemma_fxmul_bound(a02, det2v(a10, a11, a20, a21), lim, d2);
}

/// Every entry is a whole number of fixed-point units, so products and
/// determinants of the matrix truncate nothing.
pub open spec fn mat_whole(m: Matrix) -> bool {
    forall|i: int, j: int|
        0 <= i < 4 && 0 <= j < 4 ==> ((#[trigger] m.0[i][j]) as int) % (SCALE as int) == 0
}

/// An entry in whole units.
pub open spec fn we(m: Matrix, i: int, j: int) -> int {
    e4(m, i, j) / (SCALE as int)
}

/// Exact integer determinant of a 3x3 block.
pub open spec fn idet3(
    a00: int,
    a01: int,
    a02: int,
    a10: int,
    a11: int,
    a12: int,
    a20: int,
    a21: int,
    a22: int,
) -> int {
    a00 * (a11 * a22 - a12 * a21) - a01 * (a10 * a22 - a12 * a20) + a02 * (a10 * a21 - a11 * a20)
}

/// Exact integer determinant of the minor left by deleting `r` and `c`,
/// over the whole-unit entries.
pub open spec fn isub(m: Matrix, r: int, c: int) -> int {
    idet3(
        we(m, skip(0, r), skip(0, c)),
        we(m, skip(0, r), skip(1, c)),
        we(m, skip(0, r), skip(2, c)),
        we(m, skip(1, r), skip(0, c)),
        we(m, skip(1, r), skip(1, c)),
        we(m, skip(1, r), skip(2, c)),
        we(m, skip(2, r), skip(0, c)),
        we(m, skip(2, r), skip(1, c)),
        we(m, skip(2, r), skip(2, c)),
    )
}

/// Exact integer determinant of the matrix, over the whole-unit entries.
pub open spec fn idet4(m: Matrix) -> int {
    we(m, 0, 0) * isub(m, 0, 0) - we(m, 0, 1) * isub(m, 0, 1) + we(m, 0, 2) * isub(m, 0, 2) - we(
        m,
        0,
        3,
    ) * isub(m, 0, 3)
}

/// A whole entry is its whole-unit value times `SCALE`.
pub proof fn lemma_whole_entry(m: Matrix, i: int, j: int)
    requires
        mat_whole(m),
        0 <= i < 4,
        0 <= j < 4,
    ensures
        e4(m, i, j) == we(m, i, j) * (SCALE as int),
{
    vstd::arithmetic::div_mod::lemma_fundamental_div_mod(e4(m, i, j), SCALE as int);
    assert((SCALE as int) * we(m, i, j) == we(m, i, j) * (SCALE as int)) by (nonlinear_arith);
}

/// The fixed-point minor determinant of a whole matrix is the exact integer
/// minor determinant, in units.
pub proof fn lemma_subdet_whole(m: Matrix, r: int, c: int)
    requires
        mat_whole(m),
        0 <= r < 4,
        0 <= c < 4,
    ensures
        subdet_spec(m, r, c) == isub(m, r, c) * (SCALE as int),
{
    let s = SCALE as int;
    let k00 = we(m, skip(0, r), skip(0, c));
    let k01 = we(m, skip(0, r), skip(1, c));
    let k02 = we(m, skip(0, r), skip(2, c));
    let k10 = we(m, skip(1, r), skip(0, c));
    let k11 = we(m, skip(1, r), skip(1, c));
    let k12 = we(m, skip(1, r), skip(2, c));
    let k20 = we(m, skip(2, r), skip(0, c));
    let k21 = we(m, skip(2, r), skip(1, c));
    let k22 = we(m, skip(2, r), skip(2, c));
    lemma_whole_entry(m, skip(0, r), skip(0, c));
    lemma_whole_entry(m, skip(0, r), skip(1, c));
    lemma_whole_entry(m, skip(0, r), skip(2, c));
    lemma_whole_entry(m, skip(1, r), skip(0, c));
    lemma_whole_entry(m, skip(1, r), skip(1, c));
    lemma_whole_entry(m, skip(1, r), skip(2, c));
    lemma_whole_entry(m, skip(2, r), skip(0, c));
    lemma_whole_entry(m, skip(2, r), skip(1, c));
    lemma_whole_entry(m, skip(2, r), skip(2, c));
    crate::fixed::lemma_fxmul_whole(k11, sub_e(m, r, c, 2, 2));
    crate::fixed::lemma_fxmul_whole(k12, sub_e(m, r, c, 2, 1));
    crate::fixed::lemma_fxmul_whole(k10, sub_e(m, r, c, 2, 2));
    crate::fixed::lemma_fxmul_whole(k12, sub_e(m, r, c, 2, 0));
    crate::fixed::lemma_fxmul_whole(k10, sub_e(m, r, c, 2, 1));
    crate::fixed::lemma_fxmul_whole(k11, sub_e(m, r, c, 2, 0));
    assert(fxmul(sub_e(m, r, c, 1, 1), sub_e(m, r, c, 2, 2)) == k11 * (k22 * s))
        by (nonlinear_arith)
        requires
            fxmul(sub_e(m, r, c, 1, 1), sub_e(m, r, c, 2, 2)) == k11 * sub_e(m, r, c, 2, 2),
            sub_e(m, r, c, 2, 2) == k22 * s,
    ;
    assert(fxmul(sub_e(m, r, c, 1, 2), sub_e(m, r, c, 2, 1)) == k12 * (k21 * s))
        by (nonlinear_arith)
        requires
            fxmul(sub_e(m, r, c, 1, 2), sub_e(m, r, c, 2, 1)) == k12 * sub_e(m, r, c, 2, 1),
            sub_e(m, r, c, 2, 1) == k21 * s,
    ;
    assert(fxmul(sub_e(m, r, c, 1, 0), sub_e(m, r, c, 2, 2)) == k10 * (k22 * s))
        by (nonlinear_arith)
        requires
            fxmul(sub_e(m, r, c, 1, 0), sub_e(m, r, c, 2, 2)) == k10 * sub_e(m, r, c, 2, 2),
            sub_e(m, r, c, 2, 2) == k22 * s,
    ;
    assert(fxmul(sub_e(m, r, c, 1, 2), sub_e(m, r, c, 2, 0)) == k12 * (k20 * s))
        by (nonlinear_arith)
        requires
            fxmul(sub_e(m, r, c, 1, 2), sub_e(m, r, c, 2, 0)) == k12 * sub_e(m, r, c, 2, 0),
            sub_e(m, r, c, 2, 0) == k20 * s,
    ;
    assert(fxmul(sub_e(m, r, c, 1, 0), sub_e(m, r, c, 2, 1)) == k10 * (k21 * s))
        by (nonlinear_arith)
        requires
            fxmul(sub_e(m, r, c, 1, 0), sub_e(m, r, c, 2, 1)) == k10 * sub_e(m, r, c, 2, 1),
            sub_e(m, r, c, 2, 1) == k21 * s,
    ;
    assert(fxmul(sub_e(m, r, c, 1, 1), sub_e(m, r, c, 2, 0)) == k11 * (k20 * s))
        by (nonlinear_arith)
        requires
            fxmul(sub_e(m, r, c, 1, 1), sub_e(m, r, c, 2, 0)) == k11 * sub_e(m, r, c, 2, 0),
            sub_e(m, r, c, 2, 0) == k20 * s,
    ;
    let d0 = det2v(sub_e(m, r, c, 1, 1), sub_e(m, r, c, 1, 2), sub_e(m, r, c, 2, 1), sub_e(m, r, c, 2, 2));
    let d1 = det2v(sub_e(m, r, c, 1, 0), sub_e(m, r, c, 1, 2), sub_e(m, r, c, 2, 0), sub_e(m, r, c, 2, 2));
    let d2 = det2v(sub_e(m, r, c, 1, 0), sub_e(m, r, c, 1, 1), sub_e(m, r, c, 2, 0), sub_e(m, r, c, 2, 1));
    assert(d0 == (k11 * k22 - k12 * k21) * s) by (nonlinear_arith)
        requires
            d0 == k11 * (k22 * s) - k12 * (k21 * s),
    ;
    assert(d1 == (k10 * k22 - k12 * k20) * s) by (nonlinear_arith)
        requires
            d1 == k10 * (k22 * s) - k12 * (k20 * s),
    ;
    assert(d2 == (k10 * k21 - k11 * k20) * s) by (nonlinear_arith)
        requires
            d2 == k10 * (k21 * s) - k11 * (k20 * s),
    ;
    crate::fixed::lemma_fxmul_whole(k00, d0);
    crate::fixed::lemma_fxmul_whole(k01, d1);
    crate::fixed::lemma_fxmul_whole(k02, d2);
    assert(subdet_spec(m, r, c) == isub(m, r, c) * s) by (nonlinear_arith)
        requires
            subdet_spec(m, r, c) == k00 * d0 - k01 * d1 + k02 * d2,
            d0 == (k11 * k22 - k12 * k21) * s,
            d1 == (k10 * k22 - k12 * k20) * s,
            d2 == (k10 * k21 - k11 * k20) * s,
            isub(m, r, c) == k00 * (k11 * k22 - k12 * k21) - k01 * (k10 * k22 - k12 * k20) + k02 * (
            k10 * k21 - k11 * k20),
    ;
}

/// The fixed-point determinant of a whole matrix is the exact integer
/// determinant, in units.
pub proof fn lemma_det4_whole(m: Matrix)
    requires
        mat_whole(m),
    ensures
        det4_spec(m) == idet4(m) * (SCALE as int),
{
    let s = SCALE as int;
    lemma_subdet_whole(m, 0, 0);
    lemma_subdet_whole(m, 0, 1);
    lemma_subdet_whole(m, 0, 2);
    lemma_subdet_whole(m, 0, 3);
    lemma_whole_entry(m, 0, 0);
    lemma_whole_entry(m, 0, 1);
    lemma_whole_entry(m, 0, 2);
    lemma_whole_entry(m, 0, 3);
    crate::fixed::lemma_fxmul_whole(we(m, 0, 0), subdet_spec(m, 0, 0));
    crate::fixed::lemma_fxmul_whole(we(m, 0, 1), subdet_spec(m, 0, 1));
    crate::fixed::lemma_fxmul_whole(we(m, 0, 2), subdet_spec(m, 0, 2));
    crate::fixed::lemma_fxmul_whole(we(m, 0, 3), subdet_spec(m, 0, 3));
    lemma_collect_four(
        we(m, 0, 0),
        we(m, 0, 1),
        we(m, 0, 2),
        we(m, 0, 3),
        isub(m, 0, 0),
        isub(m, 0, 1),
        isub(m, 0, 2),
        isub(m, 0, 3),
        s,
        det4_spec(m),
        idet4(m),
    );
}

/// An alternating sum of products of scaled values is the scaled
/// alternating sum.
proof fn lemma_collect_four(
    w0: int,
    w1: int,
    w2: int,
    w3: int,
    i0: int,
    i1: int,
    i2: int,
    i3: int,
    s: int,
    dv: int,
    iv: int,
)
    requires
        dv == w0 * (i0 * s) - w1 * (i1 * s) + w2 * (i2 * s) - w3 * (i3 * s),
        iv == w0 * i0 - w1 * i1 + w2 * i2 - w3 * i3,
    ensures
        dv == iv * s,
{
    assert(w0 * (i0 * s) == (w0 * i0) * s) by (nonlinear_arith);
    assert(w1 * (i1 * s) == (w1 * i1) * s) by (nonlinear_arith);
    assert(w2 * (i2 * s) == (w2 * i2) * s) by (nonlinear_arith);
    assert(w3 * (i3 * s) == (w3 * i3) * s) by (nonlinear_arith);
    let h0 = w0 * i0 - w1 * i1;
    let h1 = w2 * i2 - w3 * i3;
    assert(h0 * s == (w0 * i0) * s - (w1 * i1) * s) by (nonlinear_arith)
        requires
            h0 == w0 * i0 - w1 * i1,
    ;
    assert(h1 * s == (w2 * i2) * s - (w3 * i3) * s) by (nonlinear_arith)
        requires
            h1 == w2 * i2 - w3 * i3,
    ;
    assert(iv * s == h0 * s + h1 * s) by (nonlinear_arith)
        requires
            iv == h0 + h1,
    ;
}

/// The integer 3x3 determinant is unchanged by transposing its block.
proof fn lemma_idet3_transpose(
    a00: int,
    a01: int,
    a02: int,
    a10: int,
    a11: int,
    a12: int,
    a20: int,
    a21: int,
    a22: int,
)
    ensures
        idet3(a00, a01, a02, a10, a11, a12, a20, a21, a22) == idet3(
            a00,
            a10,
            a20,
            a01,
            a11,
            a21,
            a02,
            a12,
            a22,
        ),
{
    assert(a00 * (a11 * a22 - a12 * a21) == a00 * (a11 * a22) - a00 * (a12 * a21)) by (nonlinear_arith);
    assert(a01 * (a10 * a22 - a12 * a20) == a01 * (a10 * a22) - a01 * (a12 * a20)) by (nonlinear_arith);
    assert(a02 * (a10 * a21 - a11 * a20) == a02 * (a10 * a21) - a02 * (a11 * a20)) by (nonlinear_arith);
    assert(a00 * (a11 * a22 - a21 * a12) == a00 * (a11 * a22) - a00 * (a21 * a12)) by (nonlinear_arith);
    assert(a10 * (a01 * a22 - a21 * a02) == a10 * (a01 * a22) - a10 * (a21 * a02)) by (nonlinear_arith);
    assert(a20 * (a01 * a12 - a11 * a02) == a20 * (a01 * a12) - a20 * (a11 * a02)) by (nonlinear_arith);
    assert(a00 * (a21 * a12) == a00 * (a12 * a21)) by (nonlinear_arith);
    assert(a10 * (a01 * a22) == a01 * (a10 * a22)) by (nonlinear_arith);
    assert(a10 * (a21 * a02) == a02 * (a10 * a21)) by (nonlinear_arith);
    assert(a20 * (a01 * a12) == a01 * (a12 * a20)) by (nonlinear_arith);
    assert(a20 * (a11 * a02) == a02 * (a11 * a20)) by (nonlinear_arith);
}

/// The integer 4x4 determinant is unchanged by transposing the matrix.
proof fn lemma_idet4_transpose(m: Matrix, mt: Matrix)
    requires
        forall|i: int, j: int|
            0 <= i < 4 && 0 <= j < 4 ==> ((#[trigger] mt.0[i][j]) as int) == m.0[j][i] as int,
    ensures
        idet4(mt) == idet4(m),
{
    assert forall|i: int, j: int| 0 <= i < 4 && 0 <= j < 4 implies #[trigger] we(mt, i, j) == we(
        m,
        j,
        i,
    ) by {
        assert(mt.0[i][j] as int == m.0[j][i] as int);
    }
    lemma_idet3_transpose(
        we(m, 1, 1),
        we(m, 1, 2),
        we(m, 1, 3),
        we(m, 2, 1),
        we(m, 2, 2),
        we(m, 2, 3),
        we(m, 3, 1),
        we(m, 3, 2),
        we(m, 3, 3),
    );
    lemma_idet3_transpose(
        we(m, 0, 1),
        we(m, 0, 2),
        we(m, 0, 3),
        we(m, 2, 1),
        we(m, 2, 2),
        we(m, 2, 3),
        we(m, 3, 1),
        we(m, 3, 2),
        we(m, 3, 3),
    );
    lemma_idet3_transpose(
        we(m, 0, 1),
        we(m, 0, 2),
        we(m, 0, 3),
        we(m, 1, 1),
        we(m, 1, 2),
        we(m, 1, 3),
        we(m, 3, 1),
        we(m, 3, 2),
        we(m, 3, 3),
    );
    lemma_idet3_transpose(
        we(m, 0, 1),
        we(m, 0, 2),
        we(m, 0, 3),
        we(m, 1, 1),
        we(m, 1, 2),
        we(m, 1, 3),
        we(m, 2, 1),
        we(m, 2, 2),
        we(m, 2, 3),
    );
    assert(idet4(mt) == we(m, 0, 0) * isub(m, 0, 0) - we(m, 1, 0) * isub(m, 1, 0) + we(m, 2, 0)
        * isub(m, 2, 0) - we(m, 3, 0) * isub(m, 3, 0));
    lemma_idet4_laplace_first_column(m);
}

/// Expanding the integer determinant along the first column gives the same
/// value as expanding along the first row.
proof fn lemma_idet4_laplace_first_column(m: Matrix)
    ensures
        we(m, 0, 0) * isub(m, 0, 0) - we(m, 1, 0) * isub(m, 1, 0) + we(m, 2, 0) * isub(m, 2, 0)
            - we(m, 3, 0) * isub(m, 3, 0) == idet4(m),
{
    lemma_laplace_rows_columns(
        we(m, 0, 0),
        we(m, 0, 1),
        we(m, 0, 2),
        we(m, 0, 3),
        we(m, 1, 0),
        we(m, 1, 1),
        we(m, 1, 2),
        we(m, 1, 3),
        we(m, 2, 0),
        we(m, 2, 1),
        we(m, 2, 2),
        we(m, 2, 3),
        we(m, 3, 0),
        we(m, 3, 1),
        we(m, 3, 2),
        we(m, 3, 3),
    );
}

/// Cofactor expansion along the first column equals expansion along the
/// first row.
proof fn lemma_laplace_rows_columns(
    a00: int,
    a01: int,
    a02: int,
    a03: int,
    a10: int,
    a11: int,
    a12: int,
    a13: int,
    a20: int,
    a21: int,
    a22: int,
    a23: int,
    a30: int,
    a31: int,
    a32: int,
    a33: int,
)
    ensures
        a00 * idet3(a11, a12, a13, a21, a22, a23, a31, a32, a33) - a10 * idet3(
            a01,
            a02,
            a03,
            a21,
            a22,
            a23,
            a31,
            a32,
            a33,
        ) + a20 * idet3(a01, a02, a03, a11, a12, a13, a31, a32, a33) - a30 * idet3(
            a01,
            a02,
            a03,
            a11,
            a12,
            a13,
            a21,
            a22,
            a23,
        ) == a00 * idet3(a11, a12, a13, a21, a22, a23, a31, a32, a33) - a01 * idet3(
            a10,
            a12,
            a13,
            a20,
            a22,
            a23,
            a30,
            a32,
            a33,
        ) + a02 * idet3(a10, a11, a13, a20, a21, a23, a30, a31, a33) - a03 * idet3(
            a10,
            a11,
            a12,
            a20,
            a21,
            a22,
            a30,
            a31,
            a32,
        ),
{
    let d_r0 = idet3(a10, a12, a13, a20, a22, a23, a30, a32, a33);
    assert(a10 * (a22 * a33 - a23 * a32) == a10 * (a22 * a33) - a10 * (a23 * a32)) by (nonlinear_arith);
    assert(a12 * (a20 * a33 - a23 * a30) == a12 * (a20 * a33) - a12 * (a23 * a30)) by (nonlinear_arith);
    assert(a13 * (a20 * a32 - a22 * a30) == a13 * (a20 * a32) - a13 * (a22 * a30)) by (nonlinear_arith);
    let dh1_r0 = a10 * (a22 * a33) - a10 * (a23 * a32) - a12 * (a20 * a33);
    let dh2_r0 = a12 * (a23 * a30) + a13 * (a20 * a32) - a13 * (a22 * a30);
    assert(d_r0 == dh1_r0 + dh2_r0);
    assert(a01 * d_r0 == a01 * dh1_r0 + a01 * dh2_r0) by (nonlinear_arith)
        requires d_r0 == dh1_r0 + dh2_r0;
    assert(a01 * dh1_r0 == a01 * (a10 * (a22 * a33)) - a01 * (a10 * (a23 * a32)) - a01 * (a12 * (a20 * a33))) by (nonlinear_arith)
        requires dh1_r0 == a10 * (a22 * a33) - a10 * (a23 * a32) - a12 * (a20 * a33);
    assert(a01 * dh2_r0 == a01 * (a12 * (a23 * a30)) + a01 * (a13 * (a20 * a32)) - a01 * (a13 * (a22 * a30))) by (nonlinear_arith)
        requires dh2_r0 == a12 * (a23 * a30) + a13 * (a20 * a32) - a13 * (a22 * a30);
    let d_r1 = idet3(a10, a11, a13, a20, a21, a23, a30, a31, a33);
    assert(a10 * (a21 * a33 - a23 * a31) == a10 * (a21 * a33) - a10 * (a23 * a31)) by (nonlinear_arith);
    assert(a11 * (a20 * a33 - a23 * a30) == a11 * (a20 * a33) - a11 * (a23 * a30)) by (nonlinear_arith);
    assert(a13 * (a20 * a31 - a21 * a30) == a13 * (a20 * a31) - a13 * (a21 * a30)) by (nonlinear_arith);
    let dh1_r1 = a10 * (a21 * a33) - a10 * (a23 * a31) - a11 * (a20 * a33);
    let dh2_r1 = a11 * (a23 * a30) + a13 * (a20 * a31) - a13 * (a21 * a30);
    assert(d_r1 == dh1_r1 + dh2_r1);
    assert(a02 * d_r1 == a02 * dh1_r1 + a02 * dh2_r1) by (nonlinear_arith)
        requires d_r1 == dh1_r1 + dh2_r1;
    assert(a02 * dh1_r1 == a02 * (a10 * (a21 * a33)) - a02 * (a10 * (a23 * a31)) - a02 * (a11 * (a20 * a33))) by (nonlinear_arith)
        requires dh1_r1 == a10 * (a21 * a33) - a10 * (a23 * a31) - a11 * (a20 * a33);
    assert(a02 * dh2_r1 == a02 * (a11 * (a23 * a30)) + a02 * (a13 * (a20 * a31)) - a02 * (a13 * (a21 * a30))) by (nonlinear_arith)
        requires dh2_r1 == a11 * (a23 * a30) + a13 * (a20 * a31) - a13 * (a21 * a30);
    let d_r2 = idet3(a10, a11, a12, a20, a21, a22, a30, a31, a32);
    assert(a10 * (a21 * a32 - a22 * a31) == a10 * (a21 * a32) - a10 * (a22 * a31)) by (nonlinear_arith);
    assert(a11 * (a20 * a32 - a22 * a30) == a11 * (a20 * a32) - a11 * (a22 * a30)) by (nonlinear_arith);
    assert(a12 * (a20 * a31 - a21 * a30) == a12 * (a20 * a31) - a12 * (a21 * a30)) by (nonlinear_arith);
    let dh1_r2 = a10 * (a21 * a32) - a10 * (a22 * a31) - a11 * (a20 * a32);
    let dh2_r2 = a11 * (a22 * a30) + a12 * (a20 * a31) - a12 * (a21 * a30);
    assert(d_r2 == dh1_r2 + dh2_r2);
    assert(a03 * d_r2 == a03 * dh1_r2 + a03 * dh2_r2) by (nonlinear_arith)
        requires d_r2 == dh1_r2 + dh2_r2;
    assert(a03 * dh1_r2 == a03 * (a10 * (a21 * a32)) - a03 * (a10 * (a22 * a31)) - a03 * (a11 * (a20 * a32))) by (nonlinear_arith)
        requires dh1_r2 == a10 * (a21 * a32) - a10 * (a22 * a31) - a11 * (a20 * a32);
    assert(a03 * dh2_r2 == a03 * (a11 * (a22 * a30)) + a03 * (a12 * (a20 * a31)) - a03 * (a12 * (a21 * a30))) by (nonlinear_arith)
        requires dh2_r2 == a11 * (a22 * a30) + a12 * (a20 * a31) - a12 * (a21 * a30);
    let d_c0 = idet3(a01, a02, a03, a21, a22, a23, a31, a32, a33);
    assert(a01 * (a22 * a33 - a23 * a32) == a01 * (a22 * a33) - a01 * (a23 * a32)) by (nonlinear_arith);
    assert(a02 * (a21 * a33 - a23 * a31) == a02 * (a21 * a33) - a02 * (a23 * a31)) by (nonlinear_arith);
    assert(a03 * (a21 * a32 - a22 * a31) == a03 * (a21 * a32) - a03 * (a22 * a31)) by (nonlinear_arith);
    let dh1_c0 = a01 * (a22 * a33) - a01 * (a23 * a32) - a02 * (a21 * a33);
    let dh2_c0 = a02 * (a23 * a31) + a03 * (a21 * a32) - a03 * (a22 * a31);
    assert(d_c0 == dh1_c0 + dh2_c0);
    assert(a10 * d_c0 == a10 * dh1_c0 + a10 * dh2_c0) by (nonlinear_arith)
        requires d_c0 == dh1_c0 + dh2_c0;
    assert(a10 * dh1_c0 == a10 * (a01 * (a22 * a33)) - a10 * (a01 * (a23 * a32)) - a10 * (a02 * (a21 * a33))) by (nonlinear_arith)
        requires dh1_c0 == a01 * (a22 * a33) - a01 * (a23 * a32) - a02 * (a21 * a33);
    assert(a10 * dh2_c0 == a10 * (a02 * (a23 * a31)) + a10 * (a03 * (a21 * a32)) - a10 * (a03 * (a22 * a31))) by (nonlinear_arith)
        requires dh2_c0 == a02 * (a23 * a31) + a03 * (a21 * a32) - a03 * (a22 * a31);
    assert(a10 * (a01 * (a22 * a33)) == a01 * (a10 * (a22 * a33))) by (nonlinear_arith);
    assert(a10 * (a01 * (a23 * a32)) == a01 * (a10 * (a23 * a32))) by (nonlinear_arith);
    assert(a10 * (a02 * (a21 * a33)) == a02 * (a10 * (a21 * a33))) by (nonlinear_arith);
    assert(a10 * (a02 * (a23 * a31)) == a02 * (a10 * (a23 * a31))) by (nonlinear_arith);
    assert(a10 * (a03 * (a21 * a32)) == a03 * (a10 * (a21 * a32))) by (nonlinear_arith);
    assert(a10 * (a03 * (a22 * a31)) == a03 * (a10 * (a22 * a31))) by (nonlinear_arith);
    let d_c1 = idet3(a01, a02, a03, a11, a12, a13, a31, a32, a33);
    assert(a01 * (a12 * a33 - a13 * a32) == a01 * (a12 * a33) - a01 * (a13 * a32)) by (nonlinear_arith);
    assert(a02 * (a11 * a33 - a13 * a31) == a02 * (a11 * a33) - a02 * (a13 * a31)) by (nonlinear_arith);
    assert(a03 * (a11 * a32 - a12 * a31) == a03 * (a11 * a32) - a03 * (a12 * a31)) by (nonlinear_arith);
    let dh1_c1 = a01 * (a12 * a33) - a01 * (a13 * a32) - a02 * (a11 * a33);
    let dh2_c1 = a02 * (a13 * a31) + a03 * (a11 * a32) - a03 * (a12 * a31);
    assert(d_c1 == dh1_c1 + dh2_c1);
    assert(a20 * d_c1 == a20 * dh1_c1 + a20 * dh2_c1) by (nonlinear_arith)
        requires d_c1 == dh1_c1 + dh2_c1;
    assert(a20 * dh1_c1 == a20 * (a01 * (a12 * a33)) - a20 * (a01 * (a13 * a32)) - a20 * (a02 * (a11 * a33))) by (nonlinear_arith)
        requires dh1_c1 == a01 * (a12 * a33) - a01 * (a13 * a32) - a02 * (a11 * a33);
    assert(a20 * dh2_c1 == a20 * (a02 * (a13 * a31)) + a20 * (a03 * (a11 * a32)) - a20 * (a03 * (a12 * a31))) by (nonlinear_arith)
        requires dh2_c1 == a02 * (a13 * a31) + a03 * (a11 * a32) - a03 * (a12 * a31);
    assert(a20 * (a01 * (a12 * a33)) == a01 * (a12 * (a20 * a33))) by (nonlinear_arith);
    assert(a20 * (a01 * (a13 * a32)) == a01 * (a13 * (a20 * a32))) by (nonlinear_arith);
    assert(a20 * (a02 * (a11 * a33)) == a02 * (a11 * (a20 * a33))) by (nonlinear_arith);
    assert(a20 * (a02 * (a13 * a31)) == a02 * (a13 * (a20 * a31))) by (nonlinear_arith);
    assert(a20 * (a03 * (a11 * a32)) == a03 * (a11 * (a20 * a32))) by (nonlinear_arith);
    assert(a20 * (a03 * (a12 * a31)) == a03 * (a12 * (a20 * a31))) by (nonlinear_arith);
    let d_c2 = idet3(a01, a02, a03, a11, a12, a13, a21, a22, a23);
    assert(a01 * (a12 * a23 - a13 * a22) == a01 * (a12 * a23) - a01 * (a13 * a22)) by (nonlinear_arith);
    assert(a02 * (a11 * a23 - a13 * a21) == a02 * (a11 * a23) - a02 * (a13 * a21)) by (nonlinear_arith);
    assert(a03 * (a11 * a22 - a12 * a21) == a03 * (a11 * a22) - a03 * (a12 * a21)) by (nonlinear_arith);
    let dh1_c2 = a01 * (a12 * a23) - a01 * (a13 * a22) - a02 * (a11 * a23);
    let dh2_c2 = a02 * (a13 * a21) + a03 * (a11 * a22) - a03 * (a12 * a21);
    assert(d_c2 == dh1_c2 + dh2_c2);
    assert(a30 * d_c2 == a30 * dh1_c2 + a30 * dh2_c2) by (nonlinear_arith)
        requires d_c2 == dh1_c2 + dh2_c2;
    assert(a30 * dh1_c2 == a30 * (a01 * (a12 * a23)) - a30 * (a01 * (a13 * a22)) - a30 * (a02 * (a11 * a23))) by (nonlinear_arith)
        requires dh1_c2 == a01 * (a12 * a23) - a01 * (a13 * a22) - a02 * (a11 * a23);
    assert(a30 * dh2_c2 == a30 * (a02 * (a13 * a21)) + a30 * (a03 * (a11 * a22)) - a30 * (a03 * (a12 * a21))) by (nonlinear_arith)
        requires dh2_c2 == a02 * (a13 * a21) + a03 * (a11 * a22) - a03 * (a12 * a21);
    assert(a30 * (a01 * (a12 * a23)) == a01 * (a12 * (a23 * a30))) by (nonlinear_arith);
    assert(a30 * (a01 * (a13 * a22)) == a01 * (a13 * (a22 * a30))) by (nonlinear_arith);
    assert(a30 * (a02 * (a11 * a23)) == a02 * (a11 * (a23 * a30))) by (nonlinear_arith);
    assert(a30 * (a02 * (a13 * a21)) == a02 * (a13 * (a21 * a30))) by (nonlinear_arith);
    assert(a30 * (a03 * (a11 * a22)) == a03 * (a11 * (a22 * a30))) by (nonlinear_arith);
    assert(a30 * (a03 * (a12 * a21)) == a03 * (a12 * (a21 * a30))) by (nonlinear_arith);
}

/// Inverting the transpose is transposing the inverse.  For a matrix of
/// whole units nothing is truncated on either path, and the two agree
/// entry for entry: entry `(i, j)` of the inverse of the transpose equals
/// entry `(j, i)` of the inverse.
pub proof fn lemma_invert_transpose_commutes(m: Matrix, mt: Matrix)
    requires
        mat_whole(m),
        forall|i: int, j: int|
            0 <= i < 4 && 0 <= j < 4 ==> ((#[trigger] mt.0[i][j]) as int) == m.0[j][i] as int,
    ensures
        det4_spec(mt) == det4_spec(m),
        forall|i: int, j: int|
            0 <= i < 4 && 0 <= j < 4 ==> #[trigger] inv_entry(mt, i, j) == inv_entry(m, j, i),
{
    assert forall|i: int, j: int| 0 <= i < 4 && 0 <= j < 4 implies ((#[trigger] mt.0[i][j]) as int)
        % (SCALE as int) == 0 by {
        assert(mt.0[i][j] as int == m.0[j][i] as int);
        assert(sabs((m.0[j][i]) as int) >= 0);
    }
    assert(mat_whole(mt));
    assert forall|i: int, j: int| 0 <= i < 4 && 0 <= j < 4 implies #[trigger] we(mt, i, j) == we(
        m,
        j,
        i,
    ) by {
        assert(mt.0[i][j] as int == m.0[j][i] as int);
    }
    lemma_det4_whole(m);
    lemma_det4_whole(mt);
    lemma_idet4_transpose(m, mt);
    assert forall|i: int, j: int| 0 <= i < 4 && 0 <= j < 4 implies #[trigger] inv_entry(mt, i, j)
        == inv_entry(m, j, i) by {
        lemma_subdet_whole(mt, j, i);
        lemma_subdet_whole(m, i, j);
        lemma_idet3_transpose(
            we(m, skip(0, i), skip(0, j)),
            we(m, skip(0, i), skip(1, j)),
            we(m, skip(0, i), skip(2, j)),
            we(m, skip(1, i), skip(0, j)),
            we(m, skip(1, i), skip(1, j)),
            we(m, skip(1, i), skip(2, j)),
            we(m, skip(2, i), skip(0, j)),
            we(m, skip(2, i), skip(1, j)),
            we(m, skip(2, i), skip(2, j)),
        );
        assert(isub(mt, j, i) == isub(m, i, j));
        assert(subdet_spec(mt, j, i) == subdet_spec(m, i, j));
        assert(cof_spec(mt, j, i) == cof_spec(m, i, j));
    }
}

/// Standard 4x4 matrix product.
pub fn multiply_matrix(a: Matrix, b: Matrix) -> (r: Matrix)
    requires
        mat_bounded(a, MUL_LIMIT as int),
        mat_bounded(b, MUL_LIMIT as int),
    ensures
        forall|i: int, j: int|
            0 <= i < 4 && 0 <= j < 4 ==> (#[trigger] r.0[i][j]) as int == mul_entry(a, b, i, j),
{
    let mut result = Matrix([[0i64; 4]; 4]);
    for row in 0..4usize
        invariant
            mat_bounded(a, MUL_LIMIT as int),
            mat_bounded(b, MUL_LIMIT as int),
            forall|i: int, j: int|
                0 <= i < row && 0 <= j < 4 ==> (#[trigger] result.0[i][j]) as int == mul_entry(a, b, i, j),
    {
        for col in 0..4usize
            invariant
                row < 4,
                mat_bounded(a, MUL_LIMIT as int),
                mat_bounded(b, MUL_LIMIT as int),
                forall|i: int, j: int|
                    0 <= i < row && 0 <= j < 4 ==> (#[trigger] result.0[i][j]) as int == mul_entry(
                        a,
                        b,
                        i,
                        j,
                    ),
                forall|j: int|
                    0 <= j < col ==> (#[trigger] result.0[row as int][j]) as int == mul_entry(
                        a,
                        b,
                        row as int,
                        j,
                    ),
        {
            let v = mul_matrix_entry(&a, &b, row, col);
            result.0[row][col] = v;
        }
    }
    result
}

/// One entry of the matrix product.
fn mul_matrix_entry(a: &Matrix, b: &Matrix, row: usize, col: usize) -> (v: i64)
    requires
        row < 4,
        col < 4,
        mat_bounded(*a, MUL_LIMIT as int),
        mat_bounded(*b, MUL_LIMIT as int),
    ensures
        v as int == mul_entry(*a, *b, row as int, col as int),
{
    proof {
        lemma_fxmul_bound(
            e4(*a, row as int, 0),
            e4(*b, 0, col as int),
            MUL_LIMIT as int,
            MUL_LIMIT as int,
        );
        lemma_fxmul_bound(
            e4(*a, row as int, 1),
            e4(*b, 1, col as int),
            MUL_LIMIT as int,
            MUL_LIMIT as int,
        );
        lemma_fxmul_bound(
            e4(*a, row as int, 2),
            e4(*b, 2, col as int),
            MUL_LIMIT as int,
            MUL_LIMIT as int,
        );
        lemma_fxmul_bound(
            e4(*a, row as int, 3),
            e4(*b, 3, col as int),
            MUL_LIMIT as int,
            MUL_LIMIT as int,
        );
    }
    let s0 = fx_mul_wide(a.0[row][0], b.0[0][col]);
    let s1 = fx_mul_wide(a.0[row][1], b.0[1][col]);
    let s2 = fx_mul_wide(a.0[row][2], b.0[2][col]);
    let s3 = fx_mul_wide(a.0[row][3], b.0[3][col]);
    (s0 + s1 + s2 + s3) as i64
}

/// Matrix times homogeneous tuple: each component is a row-by-tuple dot
/// product.
pub fn multiply_matrix_tup(a: Matrix, b: Tuple) -> (r: Tuple)
    requires
        mat_bounded(a, MUL_LIMIT as int),
        tuple_bounded(b, MUL_LIMIT as int),
    ensures
        r.x == row_dot(a, 0, b),
        r.y == row_dot(a, 1, b),
        r.z == row_dot(a, 2, b),
        r.w == row_dot(a, 3, b),
{
    Tuple {
        x: mul_tup_entry(&a, 0, &b),
        y: mul_tup_entry(&a, 1, &b),
        z: mul_tup_entry(&a, 2, &b),
        w: mul_tup_entry(&a, 3, &b),
    }
}

/// One component of a matrix-tuple product.
fn mul_tup_entry(a: &Matrix, row: usize, t: &Tuple) -> (v: i64)
    requires
        row < 4,
        mat_bounded(*a, MUL_LIMIT as int),
        tuple_bounded(*t, MUL_LIMIT as int),
    ensures
        v as int == row_dot(*a, row as int, *t),
{
    proof {
        lemma_fxmul_bound(e4(*a, row as int, 0), t.x as int, MUL_LIMIT as int, MUL_LIMIT as int);
        lemma_fxmul_bound(e4(*a, row as int, 1), t.y as int, MUL_LIMIT as int, MUL_LIMIT as int);
        lemma_fxmul_bound(e4(*a, row as int, 2), t.z as int, MUL_LIMIT as int, MUL_LIMIT as int);
        lemma_fxmul_bound(e4(*a, row as int, 3), t.w as int, MUL_LIMIT as int, MUL_LIMIT as int);
    }
    let s0 = fx_mul_wide(a.0[row][0], t.x);
    let s1 = fx_mul_wide(a.0[row][1], t.y);
    let s2 = fx_mul_wide(a.0[row][2], t.z);
    let s3 = fx_mul_wide(a.0[row][3], t.w);
    (s0 + s1 + s2 + s3) as i64
}

/// The transpose: rows become columns.
pub fn transpose(a: Matrix) -> (r: Matrix)
    ensures
        forall|i: int, j: int|
            0 <= i < 4 && 0 <= j < 4 ==> (#[trigger] r.0[i][j]) == a.0[j][i],
{
    Matrix(
        [
            [a.0[0][0], a.0[1][0], a.0[2][0], a.0[3][0]],
            [a.0[0][1], a.0[1][1], a.0[2][1], a.0[3][1]],
            [a.0[0][2], a.0[1][2], a.0[2][2], a.0[3][2]],
            [a.0[0][3], a.0[1][3], a.0[2][3], a.0[3][3]],
        ],
    )
}

/// Determinant of a 2x2 matrix.
pub fn determinant_2x2(a: Matrix2) -> (r: i64)
    requires
        mat2_bounded(a, DET2_LIMIT as int),
    ensures
        r as int == det2_spec(a),
{
    proof {
        lemma_fxmul_bound(e2(a, 0, 0), e2(a, 1, 1), DET2_LIMIT as int, DET2_LIMIT as int);
        lemma_fxmul_bound(e2(a, 0, 1), e2(a, 1, 0), DET2_LIMIT as int, DET2_LIMIT as int);
    }
    (fx_mul_wide(a.0[0][0], a.0[1][1]) - fx_mul_wide(a.0[0][1], a.0[1][0])) as i64
}

/// Determinant of a 3x3 matrix, by expansion along the first row.
pub fn determinant_3x3(a: Matrix3) -> (r: i64)
    requires
        mat3_bounded(a, DET3_LIMIT as int),
    ensures
        r as int == det3_spec(a),
{
    let sub1 = determinant_2x2(Matrix2([[a.0[1][1], a.0[1][2]], [a.0[2][1], a.0[2][2]]]));
    let sub2 = determinant_2x2(Matrix2([[a.0[1][0], a.0[1][2]], [a.0[2][0], a.0[2][2]]]));
    let sub3 = determinant_2x2(Matrix2([[a.0[1][0], a.0[1][1]], [a.0[2][0], a.0[2][1]]]));
    proof {
        lemma_det2v_bound(e3(a, 1, 1), e3(a, 1, 2), e3(a, 2, 1), e3(a, 2, 2), DET3_LIMIT as int);
        lemma_det2v_bound(e3(a, 1, 0), e3(a, 1, 2), e3(a, 2, 0), e3(a, 2, 2), DET3_LIMIT as int);
        lemma_det2v_bound(e3(a, 1, 0), e3(a, 1, 1), e3(a, 2, 0), e3(a, 2, 1), DET3_LIMIT as int);
        lemma_fxmul_bound(
            e3(a, 0, 0),
            sub1 as int,
            DET3_LIMIT as int,
            2 * (((DET3_LIMIT as int) * (DET3_LIMIT as int)) / (SCALE as int)),
        );
        lemma_fxmul_bound(
            e3(a, 0, 1),
            sub2 as int,
            DET3_LIMIT as int,
            2 * (((DET3_LIMIT as int) * (DET3_LIMIT as int)) / (SCALE as int)),
        );
        lemma_fxmul_bound(
            e3(a, 0, 2),
            sub3 as int,
            DET3_LIMIT as int,
            2 * (((DET3_LIMIT as int) * (DET3_LIMIT as int)) / (SCALE as int)),
        );
    }
    (fx_mul_wide(a.0[0][0], sub1) - fx_mul_wide(a.0[0][1], sub2) + fx_mul_wide(a.0[0][2], sub3))
        as i64
}

/// Determinant of a 4x4 matrix, by expansion along the first row.
pub fn determinant_4x4(a: Matrix) -> (r: i64)
    requires
        mat_bounded(a, DET_LIMIT as int),
    ensures
        r as int == det4_spec(a),
{
    let sub1 = det_submatrix(a, 0, 0);
    let sub2 = det_submatrix(a, 0, 1);
    let sub3 = det_submatrix(a, 0, 2);
    let sub4 = det_submatrix(a, 0, 3);
    proof {
        lemma_subdet_bound(a, 0, 0);
        lemma_subdet_bound(a, 0, 1);
        lemma_subdet_bound(a, 0, 2);
        lemma_subdet_bound(a, 0, 3);
        lemma_fxmul_bound(e4(a, 0, 0), sub1 as int, DET_LIMIT as int, 0x2_0000_0000_0000);
        lemma_fxmul_bound(e4(a, 0, 1), sub2 as int, DET_LIMIT as int, 0x2_0000_0000_0000);
        lemma_fxmul_bound(e4(a, 0, 2), sub3 as int, DET_LIMIT as int, 0x2_0000_0000_0000);
        lemma_fxmul_bound(e4(a, 0, 3), sub4 as int, DET_LIMIT as int, 0x2_0000_0000_0000);
    }
    (fx_mul_wide(a.0[0][0], sub1) - fx_mul_wide(a.0[0][1], sub2) + fx_mul_wide(a.0[0][2], sub3)
        - fx_mul_wide(a.0[0][3], sub4)) as i64
}

/// The minor's determinant is small when the matrix entries are within
/// `DET_LIMIT`.
proof fn lemma_subdet_bound(a: Matrix, row: int, col: int)
    requires
        mat_bounded(a, DET_LIMIT as int),
        0 <= row < 4,
        0 <= col < 4,
    ensures
        sabs(subdet_spec(a, row, col)) <= 0x2_0000_0000_0000,
{
    lemma_det3v_bound(
        sub_e(a, row, col, 0, 0),
        sub_e(a, row, col, 0, 1),
        sub_e(a, row, col, 0, 2),
        sub_e(a, row, col, 1, 0),
        sub_e(a, row, col, 1, 1),
        sub_e(a, row, col, 1, 2),
        sub_e(a, row, col, 2, 0),
        sub_e(a, row, col, 2, 1),
        sub_e(a, row, col, 2, 2),
        DET_LIMIT as int,
    );
}

/// Determinant of the 3x3 minor left after deleting `row` and `col`.
pub fn det_submatrix(a: Matrix, row: usize, col: usize) -> (r: i64)
    requires
        row < 4,
        col < 4,
        mat_bounded(a, DET3_LIMIT as int),
    ensures
        r as int == subdet_spec(a, row as int, col as int),
{
    let r0: usize = if row == 0 {
        1
    } else {
        0
    };
    let r1: usize = if row <= 1 {
        2
    } else {
        1
    };
    let r2: usize = if row <= 2 {
        3
    } else {
        2
    };
    let c0: usize = if col == 0 {
        1
    } else {
        0
    };
    let c1: usize = if col <= 1 {
        2
    } else {
        1
    };
    let c2: usize = if col <= 2 {
        3
    } else {
        2
    };
    let submatrix = Matrix3(
        [
            [a.0[r0][c0], a.0[r0][c1], a.0[r0][c2]],
            [a.0[r1][c0], a.0[r1][c1], a.0[r1][c2]],
            [a.0[r2][c0], a.0[r2][c1], a.0[r2][c2]],
        ],
    );
    determinant_3x3(submatrix)
}

/// Inverse by the adjugate: each entry is the transposed cofactor divided
/// by the determinant.  A singular matrix has no inverse; an entry that
/// leaves the fixed-point range makes the whole inverse unrepresentable.
pub fn invert(a: Matrix) -> (r: Result<Matrix, MathError>)
    requires
        mat_bounded(a, DET_LIMIT as int),
    ensures
        det4_spec(a) == 0 <==> r == Err::<Matrix, MathError>(MathError::NotInvertible),
        det4_spec(a) != 0 ==> ((r is Ok) <==> (forall|i: int, j: int|
            0 <= i < 4 && 0 <= j < 4 ==> fits64(#[trigger] inv_entry(a, i, j)))),
        r matches Ok(m) ==> (forall|i: int, j: int|
            0 <= i < 4 && 0 <= j < 4 ==> (#[trigger] m.0[i][j]) as int == inv_entry(a, i, j)),
        r is Err ==> r == Err::<Matrix, MathError>(MathError::NotInvertible) || r == Err::<
            Matrix,
            MathError,
        >(MathError::OutOfRange),
{
    let det_a = determinant_4x4(a);
    if det_a == 0 {
        return Err(MathError::NotInvertible);
    }
    let mut out = Matrix([[0i64; 4]; 4]);
    for i in 0..4usize
        invariant
            mat_bounded(a, DET_LIMIT as int),
            det_a as int == det4_spec(a),
            det_a != 0,
            forall|p: int, q: int|
                0 <= p < i && 0 <= q < 4 ==> (#[trigger] out.0[p][q]) as int == inv_entry(a, p, q),
    {
        for j in 0..4usize
            invariant
                i < 4,
                mat_bounded(a, DET_LIMIT as int),
                det_a as int == det4_spec(a),
                det_a != 0,
                forall|p: int, q: int|
                    0 <= p < i && 0 <= q < 4 ==> (#[trigger] out.0[p][q]) as int == inv_entry(a, p, q),
                forall|q: int|
                    0 <= q < j ==> (#[trigger] out.0[i as int][q]) as int == inv_entry(a, i as int, q),
        {
            let sd = det_submatrix(a, j, i);
            proof {
                lemma_subdet_bound(a, j as int, i as int);
            }
            let cof: i64 = if (i + j) % 2 == 0 {
                sd
            } else {
                -sd
            };
            proof {
                assert(cof as int == cof_spec(a, j as int, i as int));
            }
            match fx_div_wide(cof as i128, det_a as i128) {
                Some(v) => {
                    out.0[i][j] = v;
                },
                None => {
                    proof {
                        assert(!fits64(inv_entry(a, i as int, j as int)));
                    }
                    return Err(MathError::OutOfRange);
                },
            }
        }
    }
    proof {
        assert forall|p: int, q: int|
            0 <= p < 4 && 0 <= q < 4 implies fits64(#[trigger] inv_entry(a, p, q)) by {
            assert(out.0[p][q] as int == inv_entry(a, p, q));
        }
    }
    Ok(out)
}

/// The transform that moves a point by `(x, y, z)` and leaves vectors
/// unchanged.
pub fn translation(x: i64, y: i64, z: i64) -> (r: Matrix)
    ensures
        r == (Matrix(
            [
                [SCALE, 0i64, 0i64, x],
                [0i64, SCALE, 0i64, y],
                [0i64, 0i64, SCALE, z],
                [0i64, 0i64, 0i64, SCALE],
            ],
        )),
{
    Matrix(
        [
            [SCALE, 0, 0, x],
            [0, SCALE, 0, y],
            [0, 0, SCALE, z],
            [0, 0, 0, SCALE],
        ],
    )
}

/// The transform that scales each axis by the given fixed-point factor.
pub fn scaling(x: i64, y: i64, z: i64) -> (r: Matrix)
    ensures
        r == (Matrix(
            [
                [x, 0i64, 0i64, 0i64],
                [0i64, y, 0i64, 0i64],
                [0i64, 0i64, z, 0i64],
                [0i64, 0i64, 0i64, SCALE],
            ],
        )),
{
    Matrix([[x, 0, 0, 0], [0, y, 0, 0], [0, 0, z, 0], [0, 0, 0, SCALE]])
}

/// Right-handed rotation about the x axis, from the cosine and sine of the
/// angle.
pub fn rotation_x(cos_t: i64, sin_t: i64) -> (r: Matrix)
    requires
        sin_t > i64::MIN,
    ensures
        r == (Matrix(
            [
                [SCALE, 0i64, 0i64, 0i64],
                [0i64, cos_t, (-sin_t) as i64, 0i64],
                [0i64, sin_t, cos_t, 0i64],
                [0i64, 0i64, 0i64, SCALE],
            ],
        )),
{
    Matrix(
        [
            [SCALE, 0, 0, 0],
            [0, cos_t, -sin_t, 0],
            [0, sin_t, cos_t, 0],
            [0, 0, 0, SCALE],
        ],
    )
}

/// Right-handed rotation about the y axis, from the cosine and sine of the
/// angle.
pub fn rotation_y(cos_t: i64, sin_t: i64) -> (r: Matrix)
    requires
        sin_t > i64::MIN,
    ensures
        r == (Matrix(
            [
                [cos_t, 0i64, sin_t, 0i64],
                [0i64, SCALE, 0i64, 0i64],
                [(-sin_t) as i64, 0i64, cos_t, 0i64],
                [0i64, 0i64, 0i64, SCALE],
            ],
        )),
{
    Matrix(
        [
            [cos_t, 0, sin_t, 0],
            [0, SCALE, 0, 0],
            [-sin_t, 0, cos_t, 0],
            [0, 0, 0, SCALE],
        ],
    )
}

/// Right-handed rotation about the z axis, from the cosine and sine of the
/// angle.
pub fn rotation_z(cos_t: i64, sin_t: i64) -> (r: Matrix)
    requires
        sin_t > i64::MIN,
    ensures
        r == (Matrix(
            [
                [cos_t, (-sin_t) as i64, 0i64, 0i64],
                [sin_t, cos_t, 0i64, 0i64],
                [0i64, 0i64, SCALE, 0i64],
                [0i64, 0i64, 0i64, SCALE],
            ],
        )),
{
    Matrix(
        [
            [cos_t, -sin_t, 0, 0],
            [sin_t, cos_t, 0, 0],
            [0, 0, SCALE, 0],
            [0, 0, 0, SCALE],
        ],
    )
}

} // verus!
