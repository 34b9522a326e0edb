//! The fixed-point arithmetic the whole binding is built on: exact values,
//! flooring, and saturation at the representable range.

use godot_rapier::math::{
    bump, fp_div, fp_mul, fp_sqrt, recip, sat_add, sat_sub, Basis, Transform, Vec3, SCALE,
};

#[test]
fn products_rescale_exactly() {
    assert_eq!(fp_mul(2 * SCALE, 3 * SCALE), 6 * SCALE);
    assert_eq!(fp_mul(SCALE / 2, SCALE / 2), SCALE / 4);
    assert_eq!(fp_mul(-2 * SCALE, 3 * SCALE), -6 * SCALE);
    assert_eq!(fp_mul(SCALE, 7), 7);
    assert_eq!(fp_mul(0, i64::MAX), 0);
}

#[test]
fn products_floor_toward_negative_infinity() {
    // 1.5 * one third of a unit: the exact product is 1.5 units of 1/65536
    assert_eq!(fp_mul(3 * SCALE / 2, 1), 1);
    assert_eq!(fp_mul(-3 * SCALE / 2, 1), -2);
}

#[test]
fn sums_and_differences_saturate() {
    assert_eq!(sat_add(i64::MAX, 1), i64::MAX);
    assert_eq!(sat_add(i64::MIN, -1), i64::MIN);
    assert_eq!(sat_sub(i64::MIN, 1), i64::MIN);
    assert_eq!(sat_sub(i64::MAX, -1), i64::MAX);
    assert_eq!(sat_add(40, 2), 42);
    let big = Vec3::new(i64::MAX, 0, 0);
    assert_eq!(big.add(big), Vec3::new(i64::MAX, 0, 0));
    assert!(Vec3::zero().is_zero());
    assert!(!big.is_zero());
}

#[test]
fn products_saturate() {
    assert_eq!(fp_mul(i64::MAX, 2 * SCALE), i64::MAX);
    assert_eq!(fp_mul(i64::MAX, -2 * SCALE), i64::MIN);
}

#[test]
fn reciprocals_are_exact_and_total() {
    assert_eq!(recip(SCALE), SCALE);
    assert_eq!(recip(2 * SCALE), SCALE / 2);
    assert_eq!(recip(SCALE / 4), 4 * SCALE);
    assert_eq!(recip(0), 0);
    assert_eq!(recip(-SCALE), 0);
}

#[test]
fn quotients_are_exact() {
    assert_eq!(fp_div(6 * SCALE, 3 * SCALE), 2 * SCALE);
    assert_eq!(fp_div(SCALE, 2 * SCALE), SCALE / 2);
    assert_eq!(fp_div(-6 * SCALE, 3 * SCALE), -2 * SCALE);
    assert_eq!(fp_div(SCALE, 0), 0);
    assert_eq!(fp_div(SCALE, -SCALE), 0);
}

#[test]
fn square_roots_are_exact_on_squares() {
    assert_eq!(fp_sqrt(4 * SCALE), 2 * SCALE);
    assert_eq!(fp_sqrt(SCALE), SCALE);
    assert_eq!(fp_sqrt(0), 0);
    assert_eq!(fp_sqrt(-SCALE), 0);
    // between squares the root is floored: sqrt(2) in 1/65536 units
    assert_eq!(fp_sqrt(2 * SCALE), 92681);
}

#[test]
fn cross_product_of_axes() {
    let x = Vec3::new(SCALE, 0, 0);
    let y = Vec3::new(0, SCALE, 0);
    let z = Vec3::new(0, 0, SCALE);
    assert_eq!(x.cross(y), z);
    assert_eq!(y.cross(x), Vec3::new(0, 0, -SCALE));
    assert_eq!(x.cross(x), Vec3::new(0, 0, 0));
}

#[test]
fn identity_transform_fixes_every_point() {
    let t = Transform::identity();
    let p = Vec3::new(3 * SCALE, -5 * SCALE, 271828);
    assert_eq!(t.xform(p), p);
}

#[test]
fn bases_scale_columns_by_a_diagonal() {
    let b = Basis::identity();
    let d = Vec3::new(2 * SCALE, 3 * SCALE, 4 * SCALE);
    let m = b.mul_diagonal(d);
    assert_eq!(m, Basis::from_diagonal(d));
    assert_eq!(m.xform(Vec3::new(SCALE, SCALE, SCALE)), d);
}

#[test]
fn diagnostic_counter_saturates() {
    assert_eq!(bump(0), 1);
    assert_eq!(bump(u64::MAX), u64::MAX);
}
