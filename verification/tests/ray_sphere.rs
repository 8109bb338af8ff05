use raytracer::matrix::{scaling, translation};
use raytracer::projectile::projectile_vec;
use raytracer::spheres::{
    hit, intersect, position, set_transform, sphere, transform_ray, Intersection, Ray,
};
use raytracer::tuples::{point, vector};
use raytracer::MathError;

const S: i64 = 65536;

#[test]
fn position_walks_along_the_ray() {
    let r = Ray { origin: point(2 * S, 3 * S, 4 * S), direction: vector(S, 0, 0) };
    assert_eq!(position(r, 0), point(2 * S, 3 * S, 4 * S));
    assert_eq!(position(r, S), point(3 * S, 3 * S, 4 * S));
    assert_eq!(position(r, -S), point(S, 3 * S, 4 * S));
    assert_eq!(position(r, 5 * S / 2), point(9 * S / 2, 3 * S, 4 * S));
}

#[test]
fn new_sphere_has_identity_transform() {
    let s = sphere();
    for i in 0..4 {
        for j in 0..4 {
            assert_eq!(s.transform.0[i][j], if i == j { S } else { 0 });
        }
    }
}

#[test]
fn set_transform_replaces_the_transform() {
    let t = translation(2 * S, 3 * S, 4 * S);
    let s = set_transform(sphere(), t);
    assert_eq!(s.transform, t);
}

#[test]
fn transform_ray_moves_origin_and_direction() {
    let r = Ray { origin: point(S, 2 * S, 3 * S), direction: vector(0, S, 0) };
    let moved = transform_ray(r, translation(3 * S, 4 * S, 5 * S));
    assert_eq!(moved.origin, point(4 * S, 6 * S, 8 * S));
    assert_eq!(moved.direction, vector(0, S, 0));
    let scaled = transform_ray(r, scaling(2 * S, 3 * S, 4 * S));
    assert_eq!(scaled.origin, point(2 * S, 6 * S, 12 * S));
    assert_eq!(scaled.direction, vector(0, 3 * S, 0));
}

#[test]
fn ray_through_sphere_hits_twice() {
    let r = Ray { origin: point(0, 0, -5 * S), direction: vector(0, 0, S) };
    let xs = intersect(sphere(), r).unwrap();
    assert_eq!(xs.len(), 2);
    assert_eq!(xs[0].t, 4 * S);
    assert_eq!(xs[1].t, 6 * S);
}

#[test]
fn tangent_ray_hits_twice_at_same_parameter() {
    let r = Ray { origin: point(0, S, -5 * S), direction: vector(0, 0, S) };
    let xs = intersect(sphere(), r).unwrap();
    assert_eq!(xs.len(), 2);
    assert_eq!(xs[0].t, 5 * S);
    assert_eq!(xs[1].t, 5 * S);
}

#[test]
fn ray_missing_sphere_yields_nothing() {
    let r = Ray { origin: point(0, 2 * S, -5 * S), direction: vector(0, 0, S) };
    let xs = intersect(sphere(), r).unwrap();
    assert_eq!(xs.len(), 0);
}

#[test]
fn ray_starting_inside_sphere_hits_behind_and_ahead() {
    let r = Ray { origin: point(0, 0, 0), direction: vector(0, 0, S) };
    let xs = intersect(sphere(), r).unwrap();
    assert_eq!(xs.len(), 2);
    assert_eq!(xs[0].t, -S);
    assert_eq!(xs[1].t, S);
}

#[test]
fn ray_behind_sphere_hits_at_negative_parameters() {
    let r = Ray { origin: point(0, 0, 5 * S), direction: vector(0, 0, S) };
    let xs = intersect(sphere(), r).unwrap();
    assert_eq!(xs.len(), 2);
    assert_eq!(xs[0].t, -6 * S);
    assert_eq!(xs[1].t, -4 * S);
}

#[test]
fn intersections_carry_their_sphere() {
    let r = Ray { origin: point(0, 0, -5 * S), direction: vector(0, 0, S) };
    let s = sphere();
    let xs = intersect(s, r).unwrap();
    assert_eq!(xs[0].object, s);
    assert_eq!(xs[1].object, s);
}

#[test]
fn scaled_sphere_is_hit_at_scaled_parameters() {
    let r = Ray { origin: point(0, 0, -5 * S), direction: vector(0, 0, S) };
    let s = set_transform(sphere(), scaling(2 * S, 2 * S, 2 * S));
    let xs = intersect(s, r).unwrap();
    assert_eq!(xs.len(), 2);
    assert_eq!(xs[0].t, 3 * S);
    assert_eq!(xs[1].t, 7 * S);
}

#[test]
fn translated_sphere_is_missed() {
    let r = Ray { origin: point(0, 0, -5 * S), direction: vector(0, 0, S) };
    let s = set_transform(sphere(), translation(5 * S, 0, 0));
    let xs = intersect(s, r).unwrap();
    assert_eq!(xs.len(), 0);
}

#[test]
fn degenerate_direction_is_rejected() {
    // components this small square to zero in fixed point
    let r = Ray { origin: point(0, 0, -5 * S), direction: vector(100, 0, 0) };
    assert_eq!(intersect(sphere(), r), Err(MathError::Degenerate));
}

#[test]
fn vanishing_scale_is_rejected() {
    // a sphere squashed almost to nothing has an inverse transform too
    // large to push a ray through
    let r = Ray { origin: point(0, 0, -5 * S), direction: vector(0, 0, S) };
    let s = set_transform(sphere(), scaling(2, S, S));
    assert_eq!(intersect(s, r), Err(MathError::OutOfRange));
}

#[test]
fn hit_picks_smallest_positive_intersection() {
    let s = sphere();
    let i1 = Intersection { t: 5 * S, object: s };
    let i2 = Intersection { t: 7 * S, object: s };
    let i3 = Intersection { t: -3 * S, object: s };
    let i4 = Intersection { t: 2 * S, object: s };
    let h = hit(vec![i1, i2, i3, i4]);
    assert_eq!(h.len(), 1);
    assert_eq!(h[0], i4);
}

#[test]
fn hit_ignores_negative_intersections() {
    let s = sphere();
    let i1 = Intersection { t: -2 * S, object: s };
    let i2 = Intersection { t: -S, object: s };
    assert_eq!(hit(vec![i1, i2]).len(), 0);
}

#[test]
fn hit_of_mixed_signs_takes_the_positive_one() {
    let s = sphere();
    let i1 = Intersection { t: -S, object: s };
    let i2 = Intersection { t: S, object: s };
    let h = hit(vec![i1, i2]);
    assert_eq!(h.len(), 1);
    assert_eq!(h[0], i2);
}

#[test]
fn hit_excludes_zero_parameter() {
    let s = sphere();
    let i1 = Intersection { t: 0, object: s };
    let i2 = Intersection { t: 3 * S, object: s };
    let h = hit(vec![i1, i2]);
    assert_eq!(h.len(), 1);
    assert_eq!(h[0], i2);
}

#[test]
fn hit_of_nothing_is_nothing() {
    assert_eq!(hit(vec![]).len(), 0);
}

#[test]
fn projectile_flight_starts_at_origin_and_lands() {
    let track = projectile_vec();
    assert!(track.len() > 100);
    assert!(track.len() < 4096);
    assert_eq!(track[0], point(0, 0, 0));
    for p in &track {
        assert!(p.y >= 0);
    }
    // it flies up and to the right
    assert!(track[track.len() - 1].x > track[0].x);
}
