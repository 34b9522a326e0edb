//! Shapes, the area parameter table and the space arena.

use godot_rapier::area::RapierArea;
use godot_rapier::math::{Transform, Vec3, SCALE};
use godot_rapier::shape::{
    RapierBoxShape, RapierCapsuleShape, RapierCylinderShape, RapierShape, RapierShapeInstance,
    RapierSphereShape, ShapeData,
};
use godot_rapier::space::RapierSpace;
use godot_rapier::types::{AreaParameter, ShapeType, Variant};

#[test]
fn each_shape_kind_knows_its_type() {
    assert_eq!(RapierSphereShape::new(1).get_type(), ShapeType::Sphere);
    assert_eq!(RapierBoxShape::new(2).get_type(), ShapeType::Box);
    assert_eq!(RapierCapsuleShape::new(3).get_type(), ShapeType::Capsule);
    assert_eq!(RapierCylinderShape::new(4).get_type(), ShapeType::Cylinder);
}

#[test]
fn sphere_data_round_trip_and_change_flag() {
    let mut s = RapierSphereShape::new(3);
    assert_eq!(s.rid(), 3);
    assert_eq!(s.get_data(), ShapeData::Radius(SCALE / 2));
    assert!(s.set_data(ShapeData::Radius(2 * SCALE)));
    assert_eq!(s.get_data(), ShapeData::Radius(2 * SCALE));
    // writing the same radius again is not a change
    assert!(!s.set_data(ShapeData::Radius(2 * SCALE)));
}

#[test]
fn sphere_rejects_foreign_data() {
    let mut s = RapierSphereShape::new(3);
    assert!(!s.set_data(ShapeData::HalfExtents(Vec3::new(SCALE, SCALE, SCALE))));
    assert_eq!(s.get_data(), ShapeData::Radius(SCALE / 2));
    assert_eq!(s.diags, 1);
}

#[test]
fn box_data_round_trip() {
    let mut b = RapierBoxShape::new(4);
    let he = Vec3::new(SCALE, 2 * SCALE, 3 * SCALE);
    assert!(b.set_data(ShapeData::HalfExtents(he)));
    assert_eq!(b.get_data(), ShapeData::HalfExtents(he));
}

#[test]
fn capsule_and_cylinder_data_round_trip() {
    let mut c = RapierCapsuleShape::new(5);
    assert_eq!(c.get_data(), ShapeData::RadiusHeight { radius: 13107, height: SCALE });
    assert!(c.set_data(ShapeData::RadiusHeight { radius: SCALE / 2, height: 3 * SCALE }));
    assert_eq!(c.get_data(), ShapeData::RadiusHeight { radius: SCALE / 2, height: 3 * SCALE });
    let mut y = RapierCylinderShape::new(6);
    assert!(y.set_data(ShapeData::RadiusHeight { radius: SCALE, height: 4 * SCALE }));
    assert_eq!(y.get_data(), ShapeData::RadiusHeight { radius: SCALE, height: 4 * SCALE });
    assert!(!y.set_data(ShapeData::RadiusHeight { radius: SCALE, height: 4 * SCALE }));
}

#[test]
fn owners_are_added_and_removed() {
    let mut s = RapierSphereShape::new(3);
    s.add_owner(10);
    s.add_owner(11);
    s.add_owner(10);
    assert_eq!(s.owners().as_slice(), &[10, 11, 10]);
    s.remove_owner(10);
    assert_eq!(s.owners().as_slice(), &[11]);
}

#[test]
fn area_param_round_trips() {
    let mut a = RapierArea::new(1);
    let cases: Vec<(AreaParameter, Variant)> = vec![
        (AreaParameter::GravityOverrideMode, Variant::Int(3)),
        (AreaParameter::Gravity, Variant::Int(10 * SCALE)),
        (AreaParameter::GravityVector, Variant::Vector(Vec3::new(0, -SCALE, 0))),
        (AreaParameter::GravityIsPoint, Variant::Bool(true)),
        (AreaParameter::GravityPointUnitDistance, Variant::Int(2 * SCALE)),
        (AreaParameter::LinearDampOverrideMode, Variant::Int(4)),
        (AreaParameter::LinearDamp, Variant::Int(SCALE / 10)),
        (AreaParameter::AngularDampOverrideMode, Variant::Int(1)),
        (AreaParameter::AngularDamp, Variant::Int(SCALE / 5)),
        (AreaParameter::Priority, Variant::Int(2 * SCALE)),
    ];
    for (p, v) in cases {
        a.set_param(p, v);
        assert_eq!(a.get_param(p), v);
    }
}

#[test]
fn wind_params_warn_and_read_as_defaults() {
    let mut a = RapierArea::new(1);
    a.set_param(AreaParameter::WindForceMagnitude, Variant::Int(5 * SCALE));
    assert_eq!(a.diags, 1);
    assert_eq!(a.get_param(AreaParameter::WindForceMagnitude), Variant::Int(0));
    a.set_param(AreaParameter::WindSource, Variant::Vector(Vec3::new(SCALE, 0, 0)));
    assert_eq!(a.diags, 2);
    assert_eq!(a.get_param(AreaParameter::WindSource), Variant::Vector(Vec3::new(0, 0, 0)));
    a.set_param(AreaParameter::WindDirection, Variant::Vector(Vec3::new(SCALE, 0, 0)));
    a.set_param(AreaParameter::WindAttenuationFactor, Variant::Int(SCALE));
    assert_eq!(a.diags, 4);
}

#[test]
fn malformed_area_params_are_rejected() {
    let mut a = RapierArea::new(1);
    a.set_param(AreaParameter::Gravity, Variant::Bool(true));
    assert_eq!(a.get_param(AreaParameter::Gravity), Variant::Int(0));
    assert_eq!(a.diags, 1);
    a.set_param(AreaParameter::Priority, Variant::Nil);
    assert_eq!(a.diags, 2);
    a.set_param(AreaParameter::GravityOverrideMode, Variant::Int(7));
    assert_eq!(a.get_param(AreaParameter::GravityOverrideMode), Variant::Int(0));
    assert_eq!(a.diags, 3);
}

#[test]
fn detached_area_transform_reports_and_defaults() {
    let mut a = RapierArea::new(1);
    assert_eq!(a.get_transform(), None);
    assert_eq!(a.diags, 1);
    a.set_transform(Transform::identity());
    assert_eq!(a.diags, 2);
}

#[test]
fn attached_area_transform_round_trips() {
    let mut space = RapierSpace::new();
    let h = space.add_area(RapierArea::new(1));
    let mut t = Transform::identity();
    t.origin = Vec3::new(0, 5 * SCALE, 0);
    space.area_set_transform(h, t);
    assert_eq!(space.area(h).unwrap().position, t);
}

#[test]
fn stale_area_handles_are_reported() {
    let mut space = RapierSpace::new();
    assert!(space.area(3).is_none());
    space.area_set_param(3, AreaParameter::Gravity, Variant::Int(SCALE));
    assert_eq!(space.diags, 1);
    space.area_set_transform(3, Transform::identity());
    assert_eq!(space.diags, 2);
}

#[test]
fn shape_instances_are_added_removed_and_updated() {
    let mut a = RapierArea::new(1);
    a.add_shape(RapierShapeInstance::new(50, Transform::identity(), false));
    a.add_shape(RapierShapeInstance::new(51, Transform::identity(), false));
    a.add_shape(RapierShapeInstance::new(50, Transform::identity(), true));
    assert_eq!(a.shapes().len(), 3);
    a.remove_shape_rid(50);
    assert_eq!(a.shapes().len(), 1);
    assert_eq!(a.shapes()[0].shape, 51);
    let mut t = Transform::identity();
    t.origin = Vec3::new(SCALE, 0, 0);
    a.set_shape(0, t, true);
    assert!(a.shapes()[0].disabled);
    assert_eq!(a.shapes()[0].isometry, t);
    // an out-of-range index is reported and changes nothing
    a.set_shape(9, t, false);
    assert_eq!(a.diags, 1);
}

#[test]
fn update_shapes_tracks_whether_any_instance_is_live() {
    let mut a = RapierArea::new(1);
    a.set_handle(0);
    a.add_shape(RapierShapeInstance::new(50, Transform::identity(), true));
    a.update_shapes();
    assert!(!a.enabled);
    // re-attaching resets the collider, and a live instance keeps it on
    a.set_handle(0);
    a.add_shape(RapierShapeInstance::new(51, Transform::identity(), false));
    a.update_shapes();
    assert!(a.enabled);
    // detached, the rebuild is reported instead
    a.remove_space();
    let before = a.diags;
    a.update_shapes();
    assert_eq!(a.diags, before + 1);
}
