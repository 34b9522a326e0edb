//! The override fold: which areas contribute to total gravity, in which
//! order, and how damp values resolve.

use godot_rapier::area::RapierArea;
use godot_rapier::body::RapierBody;
use godot_rapier::math::{Vec3, SCALE};
use godot_rapier::space::RapierSpace;
use godot_rapier::types::{AreaParameter, BodyParameter, Variant};

const COMBINE: i64 = 1;
const COMBINE_REPLACE: i64 = 2;
const REPLACE: i64 = 3;
const REPLACE_COMBINE: i64 = 4;

fn area_with_gravity(rid: u64, mode: i64, gx: i64, gy: i64, gz: i64) -> RapierArea {
    let mut a = RapierArea::new(rid);
    a.set_param(AreaParameter::GravityOverrideMode, Variant::Int(mode));
    a.set_param(AreaParameter::Gravity, Variant::Int(SCALE));
    a.set_param(AreaParameter::GravityVector, Variant::Vector(Vec3::new(gx, gy, gz)));
    a
}

fn attached_body(space: &RapierSpace) -> RapierBody {
    let _ = space;
    let mut b = RapierBody::new(7);
    b.set_handle(0);
    b
}

#[test]
fn combine_areas_sum_with_default() {
    let mut space = RapierSpace::new();
    space.default_area_set_param(AreaParameter::Gravity, Variant::Int(SCALE));
    space.default_area_set_param(
        AreaParameter::GravityVector,
        Variant::Vector(Vec3::new(0, -10 * SCALE, 0)),
    );
    let h0 = space.add_area(area_with_gravity(1, COMBINE, SCALE, 0, 0));
    let h1 = space.add_area(area_with_gravity(2, COMBINE, 0, 2 * SCALE, 0));
    let mut b = attached_body(&space);
    b.add_area(h0);
    b.add_area(h1);
    let g = b.total_gravity(&space);
    assert_eq!(g, Vec3::new(SCALE, 2 * SCALE - 10 * SCALE, 0));
}

#[test]
fn gravity_scale_multiplies_the_total() {
    let mut space = RapierSpace::new();
    let h0 = space.add_area(area_with_gravity(1, COMBINE, 0, -4 * SCALE, 0));
    let mut b = attached_body(&space);
    b.add_area(h0);
    b.set_param(BodyParameter::GravityScale, Variant::Int(SCALE / 2));
    let g = b.total_gravity(&space);
    assert_eq!(g, Vec3::new(0, -2 * SCALE, 0));
}

#[test]
fn replace_masks_later_areas_and_default() {
    let mut space = RapierSpace::new();
    space.default_area_set_param(AreaParameter::Gravity, Variant::Int(SCALE));
    space.default_area_set_param(
        AreaParameter::GravityVector,
        Variant::Vector(Vec3::new(0, -10 * SCALE, 0)),
    );
    let h0 = space.add_area(area_with_gravity(1, COMBINE, SCALE, 0, 0));
    let h1 = space.add_area(area_with_gravity(2, REPLACE, 0, 0, 3 * SCALE));
    let h2 = space.add_area(area_with_gravity(3, COMBINE, 0, 5 * SCALE, 0));
    let mut b = attached_body(&space);
    b.add_area(h0);
    b.add_area(h1);
    b.add_area(h2);
    let g = b.total_gravity(&space);
    assert_eq!(g, Vec3::new(0, 0, 3 * SCALE));
}

#[test]
fn combine_replace_keeps_prefix_and_masks_suffix() {
    let mut space = RapierSpace::new();
    space.default_area_set_param(AreaParameter::Gravity, Variant::Int(SCALE));
    space.default_area_set_param(
        AreaParameter::GravityVector,
        Variant::Vector(Vec3::new(0, -10 * SCALE, 0)),
    );
    let h0 = space.add_area(area_with_gravity(1, COMBINE, SCALE, 0, 0));
    let h1 = space.add_area(area_with_gravity(2, COMBINE_REPLACE, 0, 2 * SCALE, 0));
    let h2 = space.add_area(area_with_gravity(3, COMBINE, 0, 0, 7 * SCALE));
    let mut b = attached_body(&space);
    b.add_area(h0);
    b.add_area(h1);
    b.add_area(h2);
    let g = b.total_gravity(&space);
    // only the first two contribute: the third area and the default are masked
    assert_eq!(g, Vec3::new(SCALE, 2 * SCALE, 0));
}

#[test]
fn replace_combine_overwrites_then_accumulates() {
    let mut space = RapierSpace::new();
    space.default_area_set_param(AreaParameter::Gravity, Variant::Int(SCALE));
    space.default_area_set_param(
        AreaParameter::GravityVector,
        Variant::Vector(Vec3::new(0, -10 * SCALE, 0)),
    );
    let h0 = space.add_area(area_with_gravity(1, COMBINE, SCALE, 0, 0));
    let h1 = space.add_area(area_with_gravity(2, REPLACE_COMBINE, 0, 2 * SCALE, 0));
    let h2 = space.add_area(area_with_gravity(3, COMBINE, 0, 0, 7 * SCALE));
    let mut b = attached_body(&space);
    b.add_area(h0);
    b.add_area(h1);
    b.add_area(h2);
    let g = b.total_gravity(&space);
    // the first area is discarded; the second, third and default all count
    assert_eq!(g, Vec3::new(0, 2 * SCALE - 10 * SCALE, 7 * SCALE));
}

#[test]
fn disabled_areas_contribute_nothing() {
    let mut space = RapierSpace::new();
    let h0 = space.add_area(area_with_gravity(1, 0, SCALE, 0, 0));
    let h1 = space.add_area(area_with_gravity(2, COMBINE, 0, SCALE, 0));
    let mut b = attached_body(&space);
    b.add_area(h0);
    b.add_area(h1);
    let g = b.total_gravity(&space);
    assert_eq!(g, Vec3::new(0, SCALE, 0));
}

#[test]
fn detached_body_gets_zero_gravity() {
    let space = RapierSpace::new();
    let b = RapierBody::new(7);
    let g = b.total_gravity(&space);
    assert_eq!(g, Vec3::new(0, 0, 0));
}

#[test]
fn point_gravity_pulls_toward_the_point() {
    let mut space = RapierSpace::new();
    let mut a = RapierArea::new(1);
    a.set_param(AreaParameter::GravityOverrideMode, Variant::Int(COMBINE));
    a.set_param(AreaParameter::Gravity, Variant::Int(5 * SCALE));
    a.set_param(AreaParameter::GravityIsPoint, Variant::Bool(true));
    // the point sits at (1, 0, 0) in the area's frame, which is at the origin
    a.set_param(AreaParameter::GravityVector, Variant::Vector(Vec3::new(SCALE, 0, 0)));
    let h0 = space.add_area(a);
    let mut b = attached_body(&space);
    b.add_area(h0);
    // body at the origin, one unit from the point, no falloff distance set:
    // full magnitude along +x
    let g = b.total_gravity(&space);
    assert_eq!(g, Vec3::new(5 * SCALE, 0, 0));
}

#[test]
fn point_gravity_at_the_point_itself_is_zero() {
    let mut space = RapierSpace::new();
    let mut a = RapierArea::new(1);
    a.set_param(AreaParameter::GravityOverrideMode, Variant::Int(COMBINE));
    a.set_param(AreaParameter::Gravity, Variant::Int(5 * SCALE));
    a.set_param(AreaParameter::GravityIsPoint, Variant::Bool(true));
    a.set_param(AreaParameter::GravityVector, Variant::Vector(Vec3::new(0, 0, 0)));
    let h0 = space.add_area(a);
    let mut b = attached_body(&space);
    b.add_area(h0);
    let g = b.total_gravity(&space);
    assert_eq!(g, Vec3::new(0, 0, 0));
}

#[test]
fn point_gravity_falls_off_with_the_square_of_distance() {
    let mut space = RapierSpace::new();
    let mut a = RapierArea::new(1);
    a.set_param(AreaParameter::GravityOverrideMode, Variant::Int(COMBINE));
    a.set_param(AreaParameter::Gravity, Variant::Int(8 * SCALE));
    a.set_param(AreaParameter::GravityIsPoint, Variant::Bool(true));
    a.set_param(AreaParameter::GravityPointUnitDistance, Variant::Int(SCALE));
    // the point sits two units along +x; unit distance 1 means quarter
    // strength at distance 2
    a.set_param(AreaParameter::GravityVector, Variant::Vector(Vec3::new(2 * SCALE, 0, 0)));
    let h0 = space.add_area(a);
    let mut b = attached_body(&space);
    b.add_area(h0);
    let g = b.total_gravity(&space);
    assert_eq!(g, Vec3::new(2 * SCALE, 0, 0));
}

#[test]
fn linear_damp_combines_areas_default_and_own() {
    let mut space = RapierSpace::new();
    space.default_area_set_param(AreaParameter::LinearDamp, Variant::Int(SCALE));
    let mut a = RapierArea::new(1);
    a.set_param(AreaParameter::LinearDampOverrideMode, Variant::Int(COMBINE));
    a.set_param(AreaParameter::LinearDamp, Variant::Int(2 * SCALE));
    let h0 = space.add_area(a);
    let mut b = attached_body(&space);
    b.add_area(h0);
    b.set_param(BodyParameter::LinearDamp, Variant::Int(4 * SCALE));
    assert_eq!(b.total_linear_damp(&space), 7 * SCALE);
}

#[test]
fn own_damp_replace_mode_discards_the_fold() {
    let mut space = RapierSpace::new();
    space.default_area_set_param(AreaParameter::AngularDamp, Variant::Int(SCALE));
    let mut a = RapierArea::new(1);
    a.set_param(AreaParameter::AngularDampOverrideMode, Variant::Int(COMBINE));
    a.set_param(AreaParameter::AngularDamp, Variant::Int(2 * SCALE));
    let h0 = space.add_area(a);
    let mut b = attached_body(&space);
    b.add_area(h0);
    b.set_param(BodyParameter::AngularDamp, Variant::Int(4 * SCALE));
    // body damp mode REPLACE: 1 is its wire code
    b.set_param(BodyParameter::AngularDampMode, Variant::Int(1));
    assert_eq!(b.total_angular_damp(&space), 4 * SCALE);
}

#[test]
fn area_damp_replace_masks_default() {
    let mut space = RapierSpace::new();
    space.default_area_set_param(AreaParameter::LinearDamp, Variant::Int(SCALE));
    let mut a = RapierArea::new(1);
    a.set_param(AreaParameter::LinearDampOverrideMode, Variant::Int(REPLACE));
    a.set_param(AreaParameter::LinearDamp, Variant::Int(3 * SCALE));
    let h0 = space.add_area(a);
    let mut b = attached_body(&space);
    b.add_area(h0);
    assert_eq!(b.total_linear_damp(&space), 3 * SCALE);
}

#[test]
fn removing_an_area_takes_it_out_of_the_fold() {
    let mut space = RapierSpace::new();
    let h0 = space.add_area(area_with_gravity(1, COMBINE, SCALE, 0, 0));
    let h1 = space.add_area(area_with_gravity(2, COMBINE, 0, SCALE, 0));
    let mut b = attached_body(&space);
    b.add_area(h0);
    b.add_area(h1);
    b.remove_area(h0);
    let g = b.total_gravity(&space);
    assert_eq!(g, Vec3::new(0, SCALE, 0));
}
