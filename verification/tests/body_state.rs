//! Body state: the per-step hook, force decomposition, mass queries,
//! detached defaults and the parameter/state round trips.

use godot_rapier::body::RapierBody;
use godot_rapier::math::{Basis, Transform, Vec3, SCALE};
use godot_rapier::space::RapierSpace;
use godot_rapier::types::{AreaParameter, BodyMode, BodyParameter, BodyState, Variant};

fn rigid_attached() -> RapierBody {
    let mut b = RapierBody::new(7);
    b.set_handle(0);
    b.set_body_mode(BodyMode::Rigid);
    b
}

fn shifted() -> Transform {
    let mut t = Transform::identity();
    t.origin = Vec3::new(3 * SCALE, 0, 0);
    t
}

#[test]
fn pre_step_integrates_gravity_into_velocity() {
    let mut space = RapierSpace::new();
    space.default_area_set_param(AreaParameter::Gravity, Variant::Int(10 * SCALE));
    space.default_area_set_param(
        AreaParameter::GravityVector,
        Variant::Vector(Vec3::new(0, -SCALE, 0)),
    );
    let mut b = rigid_attached();
    b.set_linear_velocity(Vec3::new(SCALE, 0, 0));
    // a quarter-second step: dv = 0.25 * (0, -10, 0)
    b.pre_step(SCALE / 4, &space);
    assert_eq!(
        b.get_state(BodyState::LinearVelocity),
        Variant::Vector(Vec3::new(SCALE, -(10 * SCALE) / 4, 0))
    );
}

#[test]
fn pre_step_recommands_constant_force_and_torque() {
    let space = RapierSpace::new();
    let mut b = rigid_attached();
    b.add_constant_central_force(Vec3::new(2 * SCALE, 0, 0));
    b.add_constant_torque(Vec3::new(0, 0, 3 * SCALE));
    b.pre_step(SCALE, &space);
    let (forces, torques) = b.take_forces();
    assert_eq!(forces, Vec3::new(2 * SCALE, 0, 0));
    assert_eq!(torques, Vec3::new(0, 0, 3 * SCALE));
    // constant forces are re-applied every step, not consumed
    b.pre_step(SCALE, &space);
    let (forces2, torques2) = b.take_forces();
    assert_eq!(forces2, Vec3::new(2 * SCALE, 0, 0));
    assert_eq!(torques2, Vec3::new(0, 0, 3 * SCALE));
}

#[test]
fn static_body_pre_step_is_a_no_op() {
    let space = RapierSpace::new();
    let mut b = RapierBody::new(7);
    b.set_handle(0);
    b.set_linear_velocity(Vec3::new(SCALE, 0, 0));
    b.pre_step(SCALE, &space);
    assert_eq!(b.get_state(BodyState::LinearVelocity), Variant::Vector(Vec3::new(SCALE, 0, 0)));
    assert_eq!(b.take_kinematic_move(), None);
}

#[test]
fn kinematic_pre_step_zeroes_velocity_and_issues_one_move() {
    let space = RapierSpace::new();
    let mut b = RapierBody::new(7);
    b.set_handle(0);
    b.set_body_mode(BodyMode::Kinematic);
    b.set_linear_velocity(Vec3::new(SCALE, SCALE, 0));
    b.set_angular_velocity(Vec3::new(0, SCALE, 0));
    let target = shifted();
    b.set_transform(target);
    b.pre_step(SCALE, &space);
    assert_eq!(b.get_state(BodyState::LinearVelocity), Variant::Vector(Vec3::new(0, 0, 0)));
    assert_eq!(b.get_state(BodyState::AngularVelocity), Variant::Vector(Vec3::new(0, 0, 0)));
    // one move command toward the target
    assert_eq!(b.take_kinematic_move(), Some(target));
    // the engine swept the body to the target; an identical pre_step must
    // not re-issue the move
    b.sync_engine_state(target, Vec3::new(0, 0, 0), Vec3::new(0, 0, 0), false);
    b.pre_step(SCALE, &space);
    assert_eq!(b.take_kinematic_move(), None);
}

#[test]
fn off_center_force_induces_the_cross_product_torque() {
    let mut b = rigid_attached();
    let force = Vec3::new(0, 2 * SCALE, 0);
    let point = Vec3::new(3 * SCALE, 0, 0);
    // live pose is the identity and the local center of mass is zero, so
    // the lever arm is the point itself: (3,0,0) x (0,2,0) = (0,0,6)
    b.apply_force(force, point);
    let (forces, torques) = b.take_forces();
    assert_eq!(forces, force);
    assert_eq!(torques, Vec3::new(0, 0, 6 * SCALE));
}

#[test]
fn force_at_the_center_of_mass_induces_no_torque() {
    let mut b = rigid_attached();
    let com = b.center_of_mass();
    b.apply_force(Vec3::new(5 * SCALE, -7 * SCALE, SCALE), com);
    let (_, torques) = b.take_forces();
    assert_eq!(torques, Vec3::new(0, 0, 0));
}

#[test]
fn impulse_at_a_point_induces_the_torque_impulse() {
    let mut b = rigid_attached();
    let imp = Vec3::new(0, 0, SCALE);
    let point = Vec3::new(0, 2 * SCALE, 0);
    // (0,2,0) x (0,0,1) = (2,0,0)
    b.apply_impulse(imp, point);
    let (impulses, torque_impulses) = b.take_impulses();
    assert_eq!(impulses, imp);
    assert_eq!(torque_impulses, Vec3::new(2 * SCALE, 0, 0));
}

#[test]
fn constant_force_at_a_point_accumulates_force_and_torque() {
    let mut b = rigid_attached();
    let force = Vec3::new(0, SCALE, 0);
    let point = Vec3::new(2 * SCALE, 0, 0);
    b.add_constant_force(force, point);
    assert_eq!(b.constant_force(), force);
    assert_eq!(b.constant_torque(), Vec3::new(0, 0, 2 * SCALE));
}

#[test]
fn detached_accessors_return_defaults_and_report_once_each() {
    let mut b = RapierBody::new(7);
    assert_eq!(b.diags, 0);
    assert_eq!(b.transform(), Transform::identity());
    assert_eq!(b.diags, 1);
    assert_eq!(b.linear_velocity(), Vec3::new(0, 0, 0));
    assert_eq!(b.diags, 2);
    assert_eq!(b.angular_velocity(), Vec3::new(0, 0, 0));
    assert_eq!(b.diags, 3);
    assert_eq!(b.center_of_mass(), Vec3::new(0, 0, 0));
    assert_eq!(b.diags, 4);
    assert_eq!(b.local_center_of_mass(), Vec3::new(0, 0, 0));
    assert_eq!(b.diags, 5);
    assert!(!b.is_sleeping());
    assert_eq!(b.diags, 6);
    assert_eq!(b.handle(), None);
    assert_eq!(b.diags, 7);
}

#[test]
fn detached_cached_state_still_reads_back() {
    let mut b = RapierBody::new(7);
    b.set_linear_velocity(Vec3::new(SCALE, 0, 0));
    b.set_is_sleeping(true);
    assert_eq!(b.linear_velocity(), Vec3::new(SCALE, 0, 0));
    assert!(b.is_sleeping());
}

#[test]
fn static_and_kinematic_inverse_mass_and_inertia_are_zero() {
    for mode in [BodyMode::Static, BodyMode::Kinematic] {
        let mut b = RapierBody::new(7);
        b.set_body_mode(mode);
        b.set_param(BodyParameter::Mass, Variant::Int(5 * SCALE));
        b.set_param(
            BodyParameter::Inertia,
            Variant::Vector(Vec3::new(2 * SCALE, 2 * SCALE, 2 * SCALE)),
        );
        assert_eq!(b.inverse_mass(), 0);
        assert_eq!(b.inverse_inertia(), Vec3::new(0, 0, 0));
        assert_eq!(b.inverse_inertia_tensor(), Basis::identity());
        // the same holds attached
        b.set_handle(0);
        assert_eq!(b.inverse_mass(), 0);
        assert_eq!(b.inverse_inertia(), Vec3::new(0, 0, 0));
    }
}

#[test]
fn dynamic_inverse_mass_is_the_reciprocal() {
    let mut b = RapierBody::new(7);
    b.set_body_mode(BodyMode::Rigid);
    b.set_param(BodyParameter::Mass, Variant::Int(2 * SCALE));
    // detached fallback: 1 / 2.0 = 0.5, with one diagnostic
    assert_eq!(b.inverse_mass(), SCALE / 2);
    assert_eq!(b.diags, 1);
    b.set_handle(0);
    assert_eq!(b.inverse_mass(), SCALE / 2);
    assert_eq!(b.diags, 1);
}

#[test]
fn dynamic_inverse_inertia_is_componentwise() {
    let mut b = RapierBody::new(7);
    b.set_body_mode(BodyMode::Rigid);
    b.set_param(
        BodyParameter::Inertia,
        Variant::Vector(Vec3::new(2 * SCALE, 4 * SCALE, 0)),
    );
    b.set_handle(0);
    // a zero component stands for engine-computed inertia and inverts to 0
    assert_eq!(b.inverse_inertia(), Vec3::new(SCALE / 2, SCALE / 4, 0));
}

#[test]
fn param_round_trips() {
    let mut b = RapierBody::new(7);
    let cases: Vec<(BodyParameter, Variant)> = vec![
        (BodyParameter::Bounce, Variant::Int(SCALE / 2)),
        (BodyParameter::Friction, Variant::Int(3 * SCALE / 4)),
        (BodyParameter::Mass, Variant::Int(5 * SCALE)),
        (BodyParameter::Inertia, Variant::Vector(Vec3::new(SCALE, 2 * SCALE, 0))),
        (BodyParameter::GravityScale, Variant::Int(2 * SCALE)),
        (BodyParameter::LinearDampMode, Variant::Int(1)),
        (BodyParameter::AngularDampMode, Variant::Int(0)),
        (BodyParameter::LinearDamp, Variant::Int(SCALE / 4)),
        (BodyParameter::AngularDamp, Variant::Int(SCALE / 8)),
    ];
    for (p, v) in cases {
        b.set_param(p, v);
        assert_eq!(b.get_param(p), v);
    }
}

#[test]
fn center_of_mass_param_reflects_the_custom_value() {
    let mut b = RapierBody::new(7);
    b.set_handle(0);
    let com = Vec3::new(SCALE, 0, -SCALE);
    b.set_param(BodyParameter::CenterOfMass, Variant::Vector(com));
    // the live pose is the identity, so the world center of mass is the
    // custom local one
    assert_eq!(b.get_param(BodyParameter::CenterOfMass), Variant::Vector(com));
    assert!(b.has_custom_center_of_mass());
    b.reset_mass_properties();
    assert!(!b.has_custom_center_of_mass());
    assert_eq!(b.get_param(BodyParameter::CenterOfMass), Variant::Vector(Vec3::new(0, 0, 0)));
}

#[test]
fn state_round_trips() {
    let mut b = RapierBody::new(7);
    b.set_handle(0);
    let t = shifted();
    let cases: Vec<(BodyState, Variant)> = vec![
        (BodyState::Transform, Variant::Xform(t)),
        (BodyState::LinearVelocity, Variant::Vector(Vec3::new(SCALE, 0, 2 * SCALE))),
        (BodyState::AngularVelocity, Variant::Vector(Vec3::new(0, -SCALE, 0))),
        (BodyState::Sleeping, Variant::Bool(true)),
        (BodyState::CanSleep, Variant::Bool(false)),
    ];
    for (s, v) in cases {
        b.set_state(s, v);
        assert_eq!(b.get_state(s), v);
    }
}

#[test]
fn malformed_params_are_rejected_and_reported() {
    let mut b = RapierBody::new(7);
    let before_mass = b.mass();
    b.set_param(BodyParameter::Mass, Variant::Int(0));
    assert_eq!(b.mass(), before_mass);
    assert_eq!(b.diags, 1);
    b.set_param(BodyParameter::Mass, Variant::Int(-SCALE));
    assert_eq!(b.mass(), before_mass);
    assert_eq!(b.diags, 2);
    b.set_param(BodyParameter::Mass, Variant::Bool(true));
    assert_eq!(b.mass(), before_mass);
    assert_eq!(b.diags, 3);
    b.set_param(BodyParameter::Inertia, Variant::Vector(Vec3::new(-SCALE, 0, 0)));
    assert_eq!(b.inertia(), Vec3::new(0, 0, 0));
    assert_eq!(b.diags, 4);
    b.set_param(BodyParameter::LinearDampMode, Variant::Int(9));
    assert_eq!(b.diags, 5);
    b.set_state(BodyState::Sleeping, Variant::Int(1));
    assert_eq!(b.diags, 6);
    assert!(!b.is_sleeping());
}

#[test]
fn remove_space_clears_the_engine_and_the_overlaps() {
    let mut space = RapierSpace::new();
    let h0 = space.add_area(godot_rapier::area::RapierArea::new(1));
    let mut b = RapierBody::new(7);
    b.set_handle(42);
    b.add_area(h0);
    let removed = b.remove_space(true);
    assert_eq!(removed, Some(42));
    assert!(!b.is_attached());
    assert_eq!(b.areas.len(), 0);
    // detaching without engine-side removal hands back no handle
    let mut b2 = RapierBody::new(8);
    b2.set_handle(1);
    assert_eq!(b2.remove_space(false), None);
}

#[test]
fn call_queries_decides_the_per_step_callback() {
    let mut b = RapierBody::new(7);
    assert_eq!(b.call_queries(), None);
    b.set_direct_state(11);
    b.set_body_state_callback(Some(99));
    assert_eq!(b.call_queries(), None);
    b.set_sync_state(true);
    assert_eq!(b.call_queries(), Some(99));
}

#[test]
fn update_damp_pushes_totals_to_the_engine_mirror() {
    let mut space = RapierSpace::new();
    space.default_area_set_param(AreaParameter::LinearDamp, Variant::Int(SCALE));
    space.default_area_set_param(AreaParameter::AngularDamp, Variant::Int(2 * SCALE));
    let mut b = rigid_attached();
    b.set_param(BodyParameter::LinearDamp, Variant::Int(SCALE));
    b.update_damp(&space);
    let e = b.engine.unwrap();
    assert_eq!(e.linear_damp, 2 * SCALE);
    assert_eq!(e.angular_damp, 2 * SCALE);
}
