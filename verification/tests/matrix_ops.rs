use raytracer::matrix::{
    determinant_2x2, determinant_3x3, determinant_4x4, det_submatrix, invert, multiply_matrix,
    multiply_matrix_tup, rotation_x, rotation_y, rotation_z, scaling, translation, transpose,
    Matrix, Matrix2, Matrix3,
};
use raytracer::tuples::{point, vector, Tuple};
use raytracer::MathError;

const S: i64 = 65536;

fn whole(rows: [[i64; 4]; 4]) -> Matrix {
    let mut out = [[0i64; 4]; 4];
    let mut i: usize = 0;
    while i < 4 {
        let mut j: usize = 0;
        while j < 4 {
            out[i][j] = rows[i][j] * S;
            j += 1;
        }
        i += 1;
    }
    Matrix(out)
}

fn max_entry_diff(a: &Matrix, b: &Matrix) -> i64 {
    let mut worst: i64 = 0;
    for i in 0..4 {
        for j in 0..4 {
            let d = (a.0[i][j] - b.0[i][j]).abs();
            if d > worst {
                worst = d;
            }
        }
    }
    worst
}

fn identity() -> Matrix {
    whole([[1, 0, 0, 0], [0, 1, 0, 0], [0, 0, 1, 0], [0, 0, 0, 1]])
}

#[test]
fn multiply_two_matrices() {
    let a = whole([[1, 2, 3, 4], [5, 6, 7, 8], [9, 8, 7, 6], [5, 4, 3, 2]]);
    let b = whole([[-2, 1, 2, 3], [3, 2, 1, -1], [4, 3, 6, 5], [1, 2, 7, 8]]);
    let expected = whole(
        [[20, 22, 50, 48], [44, 54, 114, 108], [40, 58, 110, 102], [16, 26, 46, 42]],
    );
    assert_eq!(multiply_matrix(a, b), expected);
}

#[test]
fn multiply_by_identity_is_unchanged() {
    let a = whole([[1, 2, 3, 4], [5, 6, 7, 8], [9, 8, 7, 6], [5, 4, 3, 2]]);
    assert_eq!(multiply_matrix(a, identity()), a);
    assert_eq!(multiply_matrix(identity(), a), a);
}

#[test]
fn multiply_matrix_by_tuple() {
    let c = whole([[1, 2, 3, 4], [2, 4, 4, 2], [8, 6, 4, 1], [0, 0, 0, 1]]);
    let d = point(S, 2 * S, 3 * S);
    assert_eq!(multiply_matrix_tup(c, d), point(18 * S, 24 * S, 33 * S));
}

#[test]
fn transpose_swaps_rows_and_columns() {
    let a = whole([[0, 9, 3, 0], [9, 8, 0, 8], [1, 8, 5, 3], [0, 0, 5, 8]]);
    let expected = whole([[0, 9, 1, 0], [9, 8, 8, 0], [3, 0, 5, 5], [0, 8, 3, 8]]);
    assert_eq!(transpose(a), expected);
    assert_eq!(transpose(identity()), identity());
}

#[test]
fn determinant_of_2x2() {
    let a = Matrix2([[1 * S, 2 * S], [3 * S, 4 * S]]);
    assert_eq!(determinant_2x2(a), -2 * S);
}

#[test]
fn determinant_of_3x3() {
    let b = Matrix3([[1 * S, 2 * S, 6 * S], [-5 * S, 8 * S, -4 * S], [2 * S, 6 * S, 4 * S]]);
    assert_eq!(determinant_3x3(b), -196 * S);
}

#[test]
fn determinant_of_4x4() {
    let e = whole([[-2, -8, 3, 5], [-3, 1, 7, 3], [1, 2, -9, 6], [-6, 7, 7, -9]]);
    assert_eq!(determinant_4x4(e), -4071 * S);
}

#[test]
fn determinant_of_minor() {
    let f1 = whole([[-5, 2, 6, -8], [1, -5, 1, 8], [7, 7, -6, -7], [1, -3, 7, 4]]);
    // minor deleting row 0, column 1: det of [[1,1,8],[7,-6,-7],[1,7,4]]
    assert_eq!(det_submatrix(f1, 0, 1), 430 * S);
}

#[test]
fn invert_singular_matrix_is_rejected() {
    let det0 = whole([[-4, 2, -2, -3], [9, 6, 2, 6], [0, -5, 1, -5], [0, 0, 0, 0]]);
    assert_eq!(invert(det0), Err(MathError::NotInvertible));
}

#[test]
fn invert_identity_is_identity() {
    assert_eq!(invert(identity()).unwrap(), identity());
}

#[test]
fn invert_scaling_is_exact() {
    let m = scaling(2 * S, 4 * S, 8 * S);
    let inv = invert(m).unwrap();
    assert_eq!(inv, Matrix([[S / 2, 0, 0, 0], [0, S / 4, 0, 0], [0, 0, S / 8, 0], [0, 0, 0, S]]));
}

#[test]
fn invert_translation_is_opposite_translation() {
    let m = translation(5 * S, -3 * S, 2 * S);
    assert_eq!(invert(m).unwrap(), translation(-5 * S, 3 * S, -2 * S));
}

#[test]
fn matrix_times_inverse_is_identity_exact() {
    let m = multiply_matrix(translation(5 * S, -3 * S, 2 * S), scaling(2 * S, 4 * S, 8 * S));
    let inv = invert(m).unwrap();
    assert_eq!(multiply_matrix(m, inv), identity());
}

#[test]
fn matrix_times_inverse_is_identity_within_tolerance() {
    let f1 = whole([[-5, 2, 6, -8], [1, -5, 1, 8], [7, 7, -6, -7], [1, -3, 7, 4]]);
    let inv = invert(f1).unwrap();
    let product = multiply_matrix(f1, inv);
    assert!(max_entry_diff(&product, &identity()) <= 64);
}

#[test]
fn invert_of_transpose_is_transpose_of_invert() {
    let f1 = whole([[-5, 2, 6, -8], [1, -5, 1, 8], [7, 7, -6, -7], [1, -3, 7, 4]]);
    let lhs = invert(transpose(f1)).unwrap();
    let rhs = transpose(invert(f1).unwrap());
    assert_eq!(lhs, rhs);
}

#[test]
fn translation_moves_points_and_leaves_vectors() {
    let t = translation(5 * S, -3 * S, 2 * S);
    assert_eq!(multiply_matrix_tup(t, point(-3 * S, 4 * S, 5 * S)), point(2 * S, S, 7 * S));
    let v = vector(-3 * S, 4 * S, 5 * S);
    assert_eq!(multiply_matrix_tup(t, v), v);
}

#[test]
fn scaling_scales_each_axis() {
    let t = scaling(2 * S, 3 * S, 4 * S);
    assert_eq!(
        multiply_matrix_tup(t, point(-4 * S, 6 * S, 8 * S)),
        point(-8 * S, 18 * S, 32 * S),
    );
    assert_eq!(
        multiply_matrix_tup(t, vector(-4 * S, 6 * S, 8 * S)),
        vector(-8 * S, 18 * S, 32 * S),
    );
}

#[test]
fn quarter_rotations_move_axis_points() {
    // a quarter turn has cosine 0 and sine 1
    let rx = rotation_x(0, S);
    assert_eq!(multiply_matrix_tup(rx, point(0, S, 0)), point(0, 0, S));
    let ry = rotation_y(0, S);
    assert_eq!(multiply_matrix_tup(ry, point(0, 0, S)), point(S, 0, 0));
    let rz = rotation_z(0, S);
    assert_eq!(multiply_matrix_tup(rz, point(0, S, 0)), point(-S, 0, 0));
}

#[test]
fn rotation_composes_with_its_inverse() {
    // cosine and sine of 60 degrees, in fixed point
    let cos_t = S / 2;
    let sin_t = 56756;
    let r = rotation_z(cos_t, sin_t);
    let inv = invert(r).unwrap();
    let p = point(3 * S, -2 * S, 5 * S);
    let back = multiply_matrix_tup(inv, multiply_matrix_tup(r, p));
    assert!((back.x - p.x).abs() <= 8);
    assert!((back.y - p.y).abs() <= 8);
    assert!((back.z - p.z).abs() <= 8);
    assert_eq!(back.w, p.w);
}

#[test]
fn tuple_type_is_usable_in_matrix_products() {
    let t = Tuple { x: S, y: 0, z: 0, w: 0 };
    assert_eq!(multiply_matrix_tup(identity(), t), t);
}
