use orbit_tracer::fixed::{fx_add, fx_div, fx_mul, fx_neg, fx_sqrt, fx_sub, FX_MAX, SCALE};
use orbit_tracer::common::degrees_to_radians;
use orbit_tracer::vec3::Vec3;

#[test]
fn add_and_sub_exact() {
    assert_eq!(fx_add(SCALE, SCALE), 2 * SCALE);
    assert_eq!(fx_sub(3 * SCALE, SCALE), 2 * SCALE);
    assert_eq!(fx_neg(SCALE), -SCALE);
}

#[test]
fn add_saturates_at_fx_max() {
    assert_eq!(fx_add(FX_MAX, FX_MAX), FX_MAX);
    assert_eq!(fx_sub(-FX_MAX, FX_MAX), -FX_MAX);
}

#[test]
fn mul_exact_values() {
    // 2.0 * 1.5 == 3.0
    assert_eq!(fx_mul(2 * SCALE, 98304), 3 * SCALE);
    // (-2.0) * 1.5 == -3.0, truncation toward zero
    assert_eq!(fx_mul(-2 * SCALE, 98304), -3 * SCALE);
    assert_eq!(fx_mul(0, 12345), 0);
}

#[test]
fn div_exact_values() {
    // 1.0 / 2.0 == 0.5
    assert_eq!(fx_div(SCALE, 2 * SCALE), SCALE / 2);
    // division by zero is defined as zero
    assert_eq!(fx_div(SCALE, 0), 0);
}

#[test]
fn sqrt_exact_values() {
    // sqrt(4.0) == 2.0
    assert_eq!(fx_sqrt(4 * SCALE), 2 * SCALE);
    // sqrt(0.25) == 0.5
    assert_eq!(fx_sqrt(SCALE / 4), SCALE / 2);
    // non-positive inputs map to zero
    assert_eq!(fx_sqrt(0), 0);
    assert_eq!(fx_sqrt(-SCALE), 0);
}

#[test]
fn radians_of_half_turn_is_pi() {
    // 180 degrees -> pi (205887 in fixed point), exactly
    assert_eq!(degrees_to_radians(180 * SCALE), 205887);
}

#[test]
fn vector_dot_and_cross() {
    let x = Vec3::new(SCALE, 0, 0);
    let y = Vec3::new(0, SCALE, 0);
    assert_eq!(x.dot(y), 0);
    let z = x.cross(y);
    assert_eq!((z.x, z.y, z.z), (0, 0, SCALE));
}

#[test]
fn vector_length_three_four_five() {
    let v = Vec3::new(3 * SCALE, 4 * SCALE, 0);
    assert_eq!(v.len_sq(), 25 * SCALE);
    assert_eq!(v.len(), 5 * SCALE);
}

#[test]
fn unit_vector_of_axis() {
    let v = Vec3::new(0, 7 * SCALE, 0);
    let u = v.unit();
    assert_eq!((u.x, u.y, u.z), (0, SCALE, 0));
}
