use raytracer::tuples::{
    add, cross_product, dot_product, equal_tuples, float_equal, magnitude, multiply, negate,
    normalize, point, subtract, vector, Tuple,
};
use raytracer::MathError;

const S: i64 = 65536;

#[test]
fn float_equal_within_tolerance() {
    assert!(float_equal(5 * S, 5 * S));
    assert!(float_equal(5 * S, 5 * S + 2));
    assert!(!float_equal(5 * S, 5 * S + 3));
    assert!(float_equal(-7, -8));
}

#[test]
fn point_sets_unit_w() {
    let p = point(4 * S, -4 * S, 3 * S);
    assert_eq!(p, Tuple { x: 4 * S, y: -4 * S, z: 3 * S, w: S });
}

#[test]
fn vector_sets_zero_w() {
    let v = vector(4 * S, -4 * S, 3 * S);
    assert_eq!(v, Tuple { x: 4 * S, y: -4 * S, z: 3 * S, w: 0 });
}

#[test]
fn equal_tuples_compares_componentwise() {
    let p1 = point(32 * S / 10, -42 * S / 10, 3 * S);
    let p2 = point(32 * S / 10, -42 * S / 10, 3 * S);
    let v = vector(45 * S / 10, -10 * S, 0);
    assert!(equal_tuples(p1, p2));
    assert!(!equal_tuples(p1, v));
}

#[test]
fn add_point_and_vector() {
    let p = point(3 * S, -2 * S, 5 * S);
    let v = vector(-2 * S, 3 * S, S);
    assert_eq!(add(p, v), point(S, S, 6 * S));
}

#[test]
fn subtract_points_gives_vector() {
    let p1 = point(3 * S, 2 * S, S);
    let p2 = point(5 * S, 6 * S, 7 * S);
    assert_eq!(subtract(p1, p2), vector(-2 * S, -4 * S, -6 * S));
}

#[test]
fn subtract_from_zero_is_negate() {
    let zero = vector(0, 0, 0);
    let v = vector(S, -2 * S, 3 * S);
    assert_eq!(subtract(zero, v), negate(v));
    assert_eq!(negate(v), vector(-S, 2 * S, -3 * S));
}

#[test]
fn multiply_by_scalar() {
    let v = vector(S, -2 * S, 3 * S);
    assert_eq!(multiply(2 * S, v), vector(2 * S, -4 * S, 6 * S));
    assert_eq!(multiply(S / 2, v), vector(S / 2, -S, 3 * S / 2));
}

#[test]
fn magnitude_of_pythagorean_vector() {
    assert_eq!(magnitude(vector(3 * S, 4 * S, 0)), 5 * S);
    assert_eq!(magnitude(vector(S, 0, 0)), S);
    assert_eq!(magnitude(vector(0, 0, 0)), 0);
}

#[test]
fn magnitude_of_general_vector() {
    // |(1, 2, 3)| = sqrt(14), rounded down in fixed point
    assert_eq!(magnitude(vector(S, 2 * S, 3 * S)), 245213);
}

#[test]
fn normalize_axis_vector() {
    let n = normalize(vector(4 * S, 0, 0)).unwrap();
    assert_eq!(n, vector(S, 0, 0));
}

#[test]
fn normalize_zero_vector_is_rejected() {
    assert_eq!(normalize(vector(0, 0, 0)), Err(MathError::ZeroMagnitude));
}

#[test]
fn normalized_vector_has_unit_magnitude() {
    // an axis direction normalizes exactly
    let n = normalize(vector(4 * S, 0, 0)).unwrap();
    assert_eq!(magnitude(n), S);
    // a representable but rounding direction stays close to one
    let m345 = magnitude(normalize(vector(3 * S, 4 * S, 0)).unwrap());
    assert!((m345 - S).abs() <= 8);
    // a direction that rounds: the magnitude is one within a small error
    let m = magnitude(normalize(vector(S, 2 * S, 3 * S)).unwrap());
    assert!((m - S).abs() <= 32);
}

#[test]
fn normalize_ignores_positive_scaling() {
    let v = vector(3 * S, 4 * S, 0);
    let w = multiply(2 * S, v);
    assert_eq!(normalize(w).unwrap(), normalize(v).unwrap());
    // a rounding direction: the two agree within a few units
    let v2 = vector(S, 2 * S, 3 * S);
    let w2 = multiply(3 * S, v2);
    let n2 = normalize(v2).unwrap();
    let m2 = normalize(w2).unwrap();
    assert!((n2.x - m2.x).abs() <= 4);
    assert!((n2.y - m2.y).abs() <= 4);
    assert!((n2.z - m2.z).abs() <= 4);
    assert!((n2.w - m2.w).abs() <= 4);
}

#[test]
fn dot_product_of_vectors() {
    let a = vector(S, 2 * S, 3 * S);
    let b = vector(2 * S, 3 * S, 4 * S);
    assert_eq!(dot_product(a, b), 20 * S);
}

#[test]
fn cross_product_of_vectors() {
    let a = vector(S, 2 * S, 3 * S);
    let b = vector(2 * S, 3 * S, 4 * S);
    assert_eq!(cross_product(a, b), vector(-S, 2 * S, -S));
    assert_eq!(cross_product(b, a), vector(S, -2 * S, S));
}
