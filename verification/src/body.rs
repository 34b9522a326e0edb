//! Rigid bodies: the hard core of the binding. A body owns its mass,
//! damping, force and velocity state, the list of areas overlapping it, and
//! a mirror of the engine-side rigid body it drives.
//!
//! The mirror (`EngineBodyState`) is present exactly while the body is
//! inserted in a space, and holds what this binding last pushed to — or
//! last read back from — the external engine: the pose, the velocities,
//! the force accumulators for the coming step, and the live mass
//! properties. The host loop forwards the accumulators to the engine each
//! step and writes simulation results back through the `sync_` functions.

use vstd::prelude::*;
use crate::math::{
    bump, spec_bump, spec_recip, spec_sat_add, spec_transform_identity, spec_transform_xform,
    spec_v3_add, spec_v3_cross, spec_v3_recip, spec_v3_scale, spec_v3_sub, v3_zero, Basis,
    Transform, Vec3,
};
use crate::math::recip;
use crate::shape::RapierShapeInstance;
use crate::space::RapierSpace;
use crate::types::{BodyMode, BodyParameter, BodyState, DampMode, OverrideMode, Variant};

verus! {

/// What the binding knows of the engine-side rigid body while attached.
#[derive(Clone, Copy, Debug)]
pub struct EngineBodyState {
    /// The engine-assigned handle.
    pub handle: u64,
    /// Live pose, as last pushed or last read back.
    pub position: Transform,
    pub linear_velocity: Vec3,
    pub angular_velocity: Vec3,
    pub sleeping: bool,
    /// Central forces commanded for the coming step, to be re-applied by
    /// the host loop every step.
    pub forces: Vec3,
    pub torques: Vec3,
    /// One-shot impulses commanded since the host loop last drained them.
    pub impulses: Vec3,
    pub torque_impulses: Vec3,
    /// A kinematic move command waiting for the host loop, if any.
    pub pending_kinematic_move: Option<Transform>,
    /// Damping actually in force engine-side, as last reconciled.
    pub linear_damp: i64,
    pub angular_damp: i64,
    /// Live mass properties; seeded from the body's own values and
    /// refined by `sync_mass_properties` once the engine has computed
    /// shape-derived ones.
    pub inv_mass: i64,
    pub inv_inertia: Vec3,
    pub local_com: Vec3,
    pub principal_inertia: Vec3,
}

/// A simulated, kinematic or static rigid body.
pub struct RapierBody {
    pub rid: u64,
    /// `Some` exactly while the body is inserted in a space.
    pub engine: Option<EngineBodyState>,
    pub shapes: Vec<RapierShapeInstance>,
    pub body_mode: BodyMode,
    pub instance_id: Option<u64>,
    pub ccd_enabled: bool,
    /// Host callback invoked once per step with the live-state handle.
    pub body_state_callback: Option<u64>,
    pub constant_force: Vec3,
    pub constant_torque: Vec3,
    pub collision_layer: u32,
    pub collision_mask: u32,
    pub collision_priority: i64,
    pub bounce: i64,
    pub friction: i64,
    /// Strictly positive.
    pub mass: i64,
    /// Componentwise non-negative; zero means engine-computed from shapes.
    pub inertia: Vec3,
    pub custom_center_of_mass: Vec3,
    pub has_custom_center_of_mass: bool,
    pub gravity_scale: i64,
    pub linear_damp_mode: DampMode,
    pub angular_damp_mode: DampMode,
    pub linear_damp: i64,
    pub angular_damp: i64,
    /// Handles of the areas currently overlapping this body, in discovery
    /// order; that order is the override precedence.
    pub areas: Vec<usize>,
    /// Cached state, authoritative while detached.
    pub linear_velocity: Vec3,
    pub angular_velocity: Vec3,
    pub transform: Transform,
    /// The pose a kinematic body is being driven toward.
    pub kinematic_target: Transform,
    pub is_sleeping: bool,
    pub can_sleep: bool,
    /// Whether the per-step callback should fire this tick.
    pub sync_state: bool,
    /// Id of the live-state accessor object, once bound.
    pub direct_state: Option<u64>,
    /// Count of recoverable faults reported so far.
    pub diags: u64,
}

impl RapierBody {
    /// The state every body must keep: a positive mass, non-negative
    /// inertia components, and no recorded overlaps while detached.
    pub open spec fn spec_wf(self) -> bool {
        &&& self.mass > 0
        &&& self.inertia.x >= 0
        &&& self.inertia.y >= 0
        &&& self.inertia.z >= 0
        &&& (self.engine is None ==> self.areas@.len() == 0)
    }

    pub open spec fn spec_is_attached(self) -> bool {
        self.engine is Some
    }

    /// The same state with one more diagnostic on record.
    pub open spec fn spec_with_diag(self) -> RapierBody {
        RapierBody { diags: spec_bump(self.diags), ..self }
    }

    /// The detached, all-defaults state, with the given resource id.
    pub open spec fn spec_is_new(self, rid: u64) -> bool {
        &&& self.rid == rid
        &&& self.engine is None
        &&& self.shapes@ == Seq::<RapierShapeInstance>::empty()
        &&& self.body_mode == BodyMode::Static
        &&& self.instance_id is None
        &&& !self.ccd_enabled
        &&& self.body_state_callback is None
        &&& self.constant_force == v3_zero()
        &&& self.constant_torque == v3_zero()
        &&& self.collision_layer == 1
        &&& self.collision_mask == 1
        &&& self.collision_priority == crate::math::SCALE
        &&& self.bounce == 0
        &&& self.friction == 0
        &&& self.mass == crate::math::SCALE
        &&& self.inertia == v3_zero()
        &&& self.custom_center_of_mass == v3_zero()
        &&& !self.has_custom_center_of_mass
        &&& self.gravity_scale == crate::math::SCALE
        &&& self.linear_damp_mode == DampMode::Combine
        &&& self.angular_damp_mode == DampMode::Combine
        &&& self.linear_damp == 0
        &&& self.angular_damp == 0
        &&& self.areas@ == Seq::<usize>::empty()
        &&& self.linear_velocity == v3_zero()
        &&& self.angular_velocity == v3_zero()
        &&& self.transform == spec_transform_identity()
        &&& self.kinematic_target == spec_transform_identity()
        &&& !self.is_sleeping
        &&& self.can_sleep
        &&& !self.sync_state
        &&& self.direct_state is None
        &&& self.diags == 0
    }

    pub fn new(rid: u64) -> (b: RapierBody)
        ensures
            b.spec_is_new(rid),
            b.spec_wf(),
    {
        RapierBody {
            rid,
            engine: None,
            shapes: Vec::new(),
            body_mode: BodyMode::Static,
            instance_id: None,
            ccd_enabled: false,
            body_state_callback: None,
            constant_force: Vec3::zero(),
            constant_torque: Vec3::zero(),
            collision_layer: 1,
            collision_mask: 1,
            collision_priority: crate::math::SCALE,
            bounce: 0,
            friction: 0,
            mass: crate::math::SCALE,
            inertia: Vec3::zero(),
            custom_center_of_mass: Vec3::zero(),
            has_custom_center_of_mass: false,
            gravity_scale: crate::math::SCALE,
            linear_damp_mode: DampMode::Combine,
            angular_damp_mode: DampMode::Combine,
            linear_damp: 0,
            angular_damp: 0,
            areas: Vec::new(),
            linear_velocity: Vec3::zero(),
            angular_velocity: Vec3::zero(),
            transform: Transform::identity(),
            kinematic_target: Transform::identity(),
            is_sleeping: false,
            can_sleep: true,
            sync_state: false,
            direct_state: None,
            diags: 0,
        }
    }

    pub fn rid(&self) -> (r: u64)
        ensures
            r == self.rid,
    {
        self.rid
    }

    pub fn is_static(&self) -> (r: bool)
        ensures
            r == (self.body_mode == BodyMode::Static),
    {
        self.body_mode == BodyMode::Static
    }

    pub fn is_kinematic(&self) -> (r: bool)
        ensures
            r == (self.body_mode == BodyMode::Kinematic),
    {
        self.body_mode == BodyMode::Kinematic
    }

    pub fn body_mode(&self) -> (m: BodyMode)
        ensures
            m == self.body_mode,
    {
        self.body_mode
    }

    pub fn bounce(&self) -> (r: i64)
        ensures
            r == self.bounce,
    {
        self.bounce
    }

    pub fn friction(&self) -> (r: i64)
        ensures
            r == self.friction,
    {
        self.friction
    }

    pub fn mass(&self) -> (r: i64)
        ensures
            r == self.mass,
    {
        self.mass
    }

    pub fn inertia(&self) -> (r: Vec3)
        ensures
            r == self.inertia,
    {
        self.inertia
    }

    pub fn custom_center_of_mass(&self) -> (r: Vec3)
        ensures
            r == self.custom_center_of_mass,
    {
        self.custom_center_of_mass
    }

    pub fn has_custom_center_of_mass(&self) -> (r: bool)
        ensures
            r == self.has_custom_center_of_mass,
    {
        self.has_custom_center_of_mass
    }

    pub fn gravity_scale(&self) -> (r: i64)
        ensures
            r == self.gravity_scale,
    {
        self.gravity_scale
    }

    pub fn linear_damp(&self) -> (r: i64)
        ensures
            r == self.linear_damp,
    {
        self.linear_damp
    }

    pub fn angular_damp(&self) -> (r: i64)
        ensures
            r == self.angular_damp,
    {
        self.angular_damp
    }

    pub fn can_sleep(&self) -> (r: bool)
        ensures
            r == self.can_sleep,
    {
        self.can_sleep
    }

    pub fn is_ccd_enabled(&self) -> (r: bool)
        ensures
            r == self.ccd_enabled,
    {
        self.ccd_enabled
    }

    pub fn collision_priority(&self) -> (r: i64)
        ensures
            r == self.collision_priority,
    {
        self.collision_priority
    }

    pub fn constant_force(&self) -> (r: Vec3)
        ensures
            r == self.constant_force,
    {
        self.constant_force
    }

    pub fn constant_torque(&self) -> (r: Vec3)
        ensures
            r == self.constant_torque,
    {
        self.constant_torque
    }

    pub fn get_collision_layer(&self) -> (r: u32)
        ensures
            r == self.collision_layer,
    {
        self.collision_layer
    }

    pub fn get_collision_mask(&self) -> (r: u32)
        ensures
            r == self.collision_mask,
    {
        self.collision_mask
    }

    pub fn instance_id(&mut self) -> (r: Option<u64>)
        ensures
            r == old(self).instance_id,
            old(self).instance_id is Some ==> *final(self) == *old(self),
            old(self).instance_id is None ==> *final(self) == old(self).spec_with_diag(),
    {
        if self.instance_id.is_none() {
            self.diags = bump(self.diags);
        }
        self.instance_id
    }

    pub fn set_instance_id(&mut self, id: u64)
        ensures
            *final(self) == (RapierBody { instance_id: Some(id), ..*old(self) }),
    {
        self.instance_id = Some(id);
    }

    pub fn direct_state(&self) -> (r: Option<u64>)
        ensures
            r == self.direct_state,
    {
        self.direct_state
    }

    /// Binds the live-state accessor object by id. The accessor itself
    /// holds only a non-owning back-reference to this body.
    pub fn set_direct_state(&mut self, id: u64)
        ensures
            *final(self) == (RapierBody { direct_state: Some(id), ..*old(self) }),
    {
        self.direct_state = Some(id);
    }

    pub fn set_body_state_callback(&mut self, callback: Option<u64>)
        ensures
            *final(self) == (RapierBody { body_state_callback: callback, ..*old(self) }),
    {
        self.body_state_callback = callback;
    }

    pub fn set_sync_state(&mut self, sync_state: bool)
        ensures
            *final(self) == (RapierBody { sync_state, ..*old(self) }),
    {
        self.sync_state = sync_state;
    }

    /// Decides the per-step host callback: the id to invoke with the
    /// live-state handle, if the callback should fire this tick.
    pub fn call_queries(&self) -> (r: Option<u64>)
        ensures
            r == (if self.direct_state is Some && self.sync_state {
                self.body_state_callback
            } else {
                None::<u64>
            }),
    {
        if self.direct_state.is_some() && self.sync_state {
            self.body_state_callback
        } else {
            None
        }
    }

    pub fn set_collision_priority(&mut self, priority: i64)
        ensures
            *final(self) == (RapierBody { collision_priority: priority, ..*old(self) }),
    {
        self.collision_priority = priority;
    }

    /// The engine mirror, while attached.
    pub open spec fn spec_eng(self) -> EngineBodyState
        recommends
            self.spec_is_attached(),
    {
        self.engine.unwrap()
    }

    /// The same state with the engine mirror replaced.
    pub open spec fn spec_with_engine(self, e: EngineBodyState) -> RapierBody {
        RapierBody { engine: Some(e), ..self }
    }

    /// The pose an observer sees: live while attached, cached otherwise.
    pub open spec fn spec_transform_value(self) -> Transform {
        if self.spec_is_attached() {
            self.spec_eng().position
        } else {
            self.transform
        }
    }

    pub open spec fn spec_linear_velocity_value(self) -> Vec3 {
        if self.spec_is_attached() {
            self.spec_eng().linear_velocity
        } else {
            self.linear_velocity
        }
    }

    pub open spec fn spec_angular_velocity_value(self) -> Vec3 {
        if self.spec_is_attached() {
            self.spec_eng().angular_velocity
        } else {
            self.angular_velocity
        }
    }

    pub open spec fn spec_sleeping_value(self) -> bool {
        if self.spec_is_attached() {
            self.spec_eng().sleeping
        } else {
            self.is_sleeping
        }
    }

    /// The world-space center of mass: the live local one mapped through
    /// the live pose while attached, and the zero vector otherwise.
    pub open spec fn spec_center_of_mass_value(self) -> Vec3 {
        if self.spec_is_attached() {
            spec_transform_xform(self.spec_eng().position, self.spec_eng().local_com)
        } else {
            v3_zero()
        }
    }

    /// The engine mirror a fresh insertion starts from: the cached pose,
    /// velocities and sleep state, empty accumulators, and mass properties
    /// derived from the body's own values until the engine refines them.
    pub open spec fn spec_seed_engine(self, handle: u64) -> EngineBodyState {
        EngineBodyState {
            handle,
            position: self.transform,
            linear_velocity: self.linear_velocity,
            angular_velocity: self.angular_velocity,
            sleeping: self.is_sleeping,
            forces: v3_zero(),
            torques: v3_zero(),
            impulses: v3_zero(),
            torque_impulses: v3_zero(),
            pending_kinematic_move: None,
            linear_damp: self.linear_damp,
            angular_damp: self.angular_damp,
            inv_mass: self.spec_mode_inv_mass(),
            inv_inertia: self.spec_mode_inv_inertia(),
            local_com: if self.has_custom_center_of_mass {
                self.custom_center_of_mass
            } else {
                v3_zero()
            },
            principal_inertia: self.inertia,
        }
    }

    /// The inverse mass the body's own values imply: exactly zero for a
    /// static or kinematic body, the reciprocal of the mass otherwise.
    pub open spec fn spec_mode_inv_mass(self) -> i64 {
        if self.body_mode == BodyMode::Static || self.body_mode == BodyMode::Kinematic {
            0
        } else {
            spec_recip(self.mass)
        }
    }

    /// The inverse inertia the body's own values imply, by the same rule.
    pub open spec fn spec_mode_inv_inertia(self) -> Vec3 {
        if self.body_mode == BodyMode::Static || self.body_mode == BodyMode::Kinematic {
            v3_zero()
        } else {
            spec_v3_recip(self.inertia)
        }
    }

    pub fn is_attached(&self) -> (r: bool)
        ensures
            r == self.spec_is_attached(),
    {
        self.engine.is_some()
    }

    /// Records the engine handle the space assigned and seeds the mirror.
    pub fn set_handle(&mut self, handle: u64)
        ensures
            *final(self) == old(self).spec_with_engine(old(self).spec_seed_engine(handle)),
    {
        let inv_mass = if matches!(self.body_mode, BodyMode::Static | BodyMode::Kinematic) {
            0
        } else {
            recip(self.mass)
        };
        let inv_inertia = if matches!(self.body_mode, BodyMode::Static | BodyMode::Kinematic) {
            Vec3::zero()
        } else {
            self.inertia.recip_components()
        };
        let local_com = if self.has_custom_center_of_mass {
            self.custom_center_of_mass
        } else {
            Vec3::zero()
        };
        self.engine = Some(
            EngineBodyState {
                handle,
                position: self.transform,
                linear_velocity: self.linear_velocity,
                angular_velocity: self.angular_velocity,
                sleeping: self.is_sleeping,
                forces: Vec3::zero(),
                torques: Vec3::zero(),
                impulses: Vec3::zero(),
                torque_impulses: Vec3::zero(),
                pending_kinematic_move: None,
                linear_damp: self.linear_damp,
                angular_damp: self.angular_damp,
                inv_mass,
                inv_inertia,
                local_com,
                principal_inertia: self.inertia,
            },
        );
    }

    pub fn handle(&mut self) -> (h: Option<u64>)
        ensures
            old(self).spec_is_attached() ==> h == Some(old(self).spec_eng().handle) && *final(self)
                == *old(self),
            !old(self).spec_is_attached() ==> h is None && *final(self) == old(
                self,
            ).spec_with_diag(),
    {
        match &self.engine {
            Some(e) => Some(e.handle),
            None => {
                self.diags = bump(self.diags);
                None
            },
        }
    }

    /// Detaches from the space: the mirror and the overlap list go
    /// together, so no partial state is observable. Returns the handle the
    /// host loop must remove from the engine, when the caller asked for
    /// engine-side removal and the body was attached.
    pub fn remove_space(&mut self, remove_from_space: bool) -> (removed: Option<u64>)
        ensures
            removed == (if remove_from_space && old(self).spec_is_attached() {
                Some(old(self).spec_eng().handle)
            } else {
                None::<u64>
            }),
            *final(self) == (RapierBody {
                engine: None,
                areas: final(self).areas,
                ..*old(self)
            }),
            final(self).areas@ == Seq::<usize>::empty(),
            final(self).spec_wf() == (old(self).mass > 0 && old(self).inertia.x >= 0
                && old(self).inertia.y >= 0 && old(self).inertia.z >= 0),
    {
        let removed = if remove_from_space {
            match &self.engine {
                Some(e) => Some(e.handle),
                None => None,
            }
        } else {
            None
        };
        self.engine = None;
        self.areas = Vec::new();
        proof {
            assert(final(self).areas@ =~= Seq::<usize>::empty());
        }
        removed
    }

    /// Records one more overlapping area, at the end of the precedence
    /// order.
    pub fn add_area(&mut self, area_handle: usize)
        requires
            old(self).spec_is_attached(),
        ensures
            *final(self) == (RapierBody { areas: final(self).areas, ..*old(self) }),
            final(self).areas@ == old(self).areas@.push(area_handle),
    {
        self.areas.push(area_handle);
    }

    /// Forgets an area whose overlap ended.
    #[verifier::loop_isolation(false)]
    pub fn remove_area(&mut self, area_handle: usize)
        ensures
            *final(self) == (RapierBody { areas: final(self).areas, ..*old(self) }),
            final(self).areas@ == old(self).areas@.filter(|h: usize| h != area_handle),
    {
        let ghost pred = |h: usize| h != area_handle;
        let mut kept: Vec<usize> = Vec::new();
        proof {
            assert(old(self).areas@.subrange(0, 0).filter(pred) =~= Seq::<usize>::empty()) by {
                reveal(Seq::filter);
                assert(old(self).areas@.subrange(0, 0) =~= Seq::<usize>::empty());
            }
        }
        let n = self.areas.len();
        let mut i: usize = 0;
        while i < n
            invariant
                n == self.areas.len(),
                i <= n,
                *self == (RapierBody { areas: self.areas, ..*old(self) }),
                self.areas == old(self).areas,
                kept@ == self.areas@.subrange(0, i as int).filter(pred),
            decreases n - i,
        {
            let h = self.areas[i];
            proof {
                let pre = self.areas@.subrange(0, i as int);
                let cur = self.areas@.subrange(0, i + 1 as int);
                assert(cur.drop_last() =~= pre);
                assert(cur.drop_last() == pre);
                assert(cur.last() == h);
                assert(cur.len() != 0);
                assert(cur.filter(pred) == (if pred(h) {
                    pre.filter(pred).push(h)
                } else {
                    pre.filter(pred)
                })) by {
                    reveal(Seq::filter);
                }
                assert(pred(h) == (h != area_handle));
            }
            if h != area_handle {
                kept.push(h);
            }
            i = i + 1;
        }
        proof {
            assert(self.areas@.subrange(0, n as int) =~= self.areas@);
        }
        self.areas = kept;
    }

    pub fn transform(&mut self) -> (t: Transform)
        ensures
            t == old(self).spec_transform_value(),
            old(self).spec_is_attached() ==> *final(self) == *old(self),
            !old(self).spec_is_attached() ==> *final(self) == old(self).spec_with_diag(),
    {
        match &self.engine {
            Some(e) => e.position,
            None => {
                self.diags = bump(self.diags);
                self.transform
            },
        }
    }

    pub fn linear_velocity(&mut self) -> (v: Vec3)
        ensures
            v == old(self).spec_linear_velocity_value(),
            old(self).spec_is_attached() ==> *final(self) == *old(self),
            !old(self).spec_is_attached() ==> *final(self) == old(self).spec_with_diag(),
    {
        match &self.engine {
            Some(e) => e.linear_velocity,
            None => {
                self.diags = bump(self.diags);
                self.linear_velocity
            },
        }
    }

    pub fn angular_velocity(&mut self) -> (v: Vec3)
        ensures
            v == old(self).spec_angular_velocity_value(),
            old(self).spec_is_attached() ==> *final(self) == *old(self),
            !old(self).spec_is_attached() ==> *final(self) == old(self).spec_with_diag(),
    {
        match &self.engine {
            Some(e) => e.angular_velocity,
            None => {
                self.diags = bump(self.diags);
                self.angular_velocity
            },
        }
    }

    pub fn is_sleeping(&mut self) -> (r: bool)
        ensures
            r == old(self).spec_sleeping_value(),
            old(self).spec_is_attached() ==> *final(self) == *old(self),
            !old(self).spec_is_attached() ==> *final(self) == old(self).spec_with_diag(),
    {
        match &self.engine {
            Some(e) => e.sleeping,
            None => {
                self.diags = bump(self.diags);
                self.is_sleeping
            },
        }
    }

    pub fn center_of_mass(&mut self) -> (c: Vec3)
        ensures
            c == old(self).spec_center_of_mass_value(),
            old(self).spec_is_attached() ==> *final(self) == *old(self),
            !old(self).spec_is_attached() ==> *final(self) == old(self).spec_with_diag(),
    {
        match &self.engine {
            Some(e) => e.position.xform(e.local_com),
            None => {
                self.diags = bump(self.diags);
                Vec3::zero()
            },
        }
    }

    pub fn local_center_of_mass(&mut self) -> (c: Vec3)
        ensures
            old(self).spec_is_attached() ==> c == old(self).spec_eng().local_com && *final(self)
                == *old(self),
            !old(self).spec_is_attached() ==> c == v3_zero() && *final(self) == old(
                self,
            ).spec_with_diag(),
    {
        match &self.engine {
            Some(e) => e.local_com,
            None => {
                self.diags = bump(self.diags);
                Vec3::zero()
            },
        }
    }

    pub fn set_linear_velocity(&mut self, value: Vec3)
        ensures
            old(self).spec_is_attached() ==> *final(self) == (RapierBody {
                linear_velocity: value,
                ..*old(self)
            }).spec_with_engine(
                EngineBodyState { linear_velocity: value, ..old(self).spec_eng() },
            ),
            !old(self).spec_is_attached() ==> *final(self) == (RapierBody {
                linear_velocity: value,
                ..*old(self)
            }),
    {
        self.linear_velocity = value;
        if let Some(e) = &mut self.engine {
            e.linear_velocity = value;
        }
    }

    pub fn set_angular_velocity(&mut self, value: Vec3)
        ensures
            old(self).spec_is_attached() ==> *final(self) == (RapierBody {
                angular_velocity: value,
                ..*old(self)
            }).spec_with_engine(
                EngineBodyState { angular_velocity: value, ..old(self).spec_eng() },
            ),
            !old(self).spec_is_attached() ==> *final(self) == (RapierBody {
                angular_velocity: value,
                ..*old(self)
            }),
    {
        self.angular_velocity = value;
        if let Some(e) = &mut self.engine {
            e.angular_velocity = value;
        }
    }

    /// Caches the pose. A kinematic body retargets its driven pose and
    /// leaves the engine pose to the kinematic integration; any other body
    /// pushes the pose straight to the engine when attached.
    pub fn set_transform(&mut self, value: Transform)
        ensures
            old(self).body_mode == BodyMode::Kinematic ==> *final(self) == (RapierBody {
                transform: value,
                kinematic_target: value,
                ..*old(self)
            }),
            old(self).body_mode != BodyMode::Kinematic && old(self).spec_is_attached()
                ==> *final(self) == (RapierBody { transform: value, ..*old(self) }).spec_with_engine(
                EngineBodyState { position: value, ..old(self).spec_eng() },
            ),
            old(self).body_mode != BodyMode::Kinematic && !old(self).spec_is_attached()
                ==> *final(self) == (RapierBody { transform: value, ..*old(self) }),
    {
        self.transform = value;
        if matches!(self.body_mode, BodyMode::Kinematic) {
            self.kinematic_target = value;
            return;
        }
        if let Some(e) = &mut self.engine {
            e.position = value;
        }
    }

    pub fn set_is_sleeping(&mut self, value: bool)
        ensures
            old(self).spec_is_attached() ==> *final(self) == (RapierBody {
                is_sleeping: value,
                ..*old(self)
            }).spec_with_engine(EngineBodyState { sleeping: value, ..old(self).spec_eng() }),
            !old(self).spec_is_attached() ==> *final(self) == (RapierBody {
                is_sleeping: value,
                ..*old(self)
            }),
    {
        self.is_sleeping = value;
        if let Some(e) = &mut self.engine {
            e.sleeping = value;
        }
    }

    pub fn set_can_sleep(&mut self, value: bool)
        ensures
            *final(self) == (RapierBody { can_sleep: value, ..*old(self) }),
    {
        self.can_sleep = value;
    }

    pub fn set_bounce(&mut self, bounce: i64)
        ensures
            *final(self) == (RapierBody { bounce, ..*old(self) }),
    {
        self.bounce = bounce;
    }

    pub fn set_friction(&mut self, friction: i64)
        ensures
            *final(self) == (RapierBody { friction, ..*old(self) }),
    {
        self.friction = friction;
    }

    pub fn set_gravity_scale(&mut self, gravity_scale: i64)
        ensures
            *final(self) == (RapierBody { gravity_scale, ..*old(self) }),
    {
        self.gravity_scale = gravity_scale;
    }

    pub fn set_enable_ccd(&mut self, enabled: bool)
        ensures
            *final(self) == (RapierBody { ccd_enabled: enabled, ..*old(self) }),
    {
        self.ccd_enabled = enabled;
    }

    pub fn set_linear_damp(&mut self, linear_damp: i64)
        ensures
            *final(self) == (RapierBody { linear_damp, ..*old(self) }),
    {
        self.linear_damp = linear_damp;
    }

    pub fn set_angular_damp(&mut self, angular_damp: i64)
        ensures
            *final(self) == (RapierBody { angular_damp, ..*old(self) }),
    {
        self.angular_damp = angular_damp;
    }

    pub fn set_collision_layer(&mut self, layer: u32)
        ensures
            *final(self) == (RapierBody { collision_layer: layer, ..*old(self) }),
    {
        self.collision_layer = layer;
    }

    pub fn set_collision_mask(&mut self, mask: u32)
        ensures
            *final(self) == (RapierBody { collision_mask: mask, ..*old(self) }),
    {
        self.collision_mask = mask;
    }

    /// Replaces the mass. A non-positive mass is malformed: it is reported
    /// and the prior state is kept. While attached, the live inverse mass
    /// follows (static and kinematic bodies stay at exactly zero).
    pub fn set_mass(&mut self, mass: i64)
        ensures
            mass <= 0 ==> *final(self) == old(self).spec_with_diag(),
            mass > 0 && old(self).spec_is_attached() ==> *final(self) == (RapierBody {
                mass,
                ..*old(self)
            }).spec_with_engine(
                EngineBodyState {
                    inv_mass: (RapierBody { mass, ..*old(self) }).spec_mode_inv_mass(),
                    ..old(self).spec_eng()
                },
            ),
            mass > 0 && !old(self).spec_is_attached() ==> *final(self) == (RapierBody {
                mass,
                ..*old(self)
            }),
            old(self).spec_wf() && mass > 0 ==> final(self).spec_wf(),
    {
        if mass <= 0 {
            self.diags = bump(self.diags);
            return;
        }
        self.mass = mass;
        let inv = if matches!(self.body_mode, BodyMode::Static | BodyMode::Kinematic) {
            0
        } else {
            recip(mass)
        };
        if let Some(e) = &mut self.engine {
            e.inv_mass = inv;
        }
    }

    /// Replaces the inertia vector; the zero vector asks the engine to
    /// compute inertia from the shapes. A negative component is malformed:
    /// it is reported and the prior state is kept.
    pub fn set_inertia(&mut self, inertia: Vec3)
        ensures
            !(inertia.x >= 0 && inertia.y >= 0 && inertia.z >= 0) ==> *final(self) == old(
                self,
            ).spec_with_diag(),
            inertia.x >= 0 && inertia.y >= 0 && inertia.z >= 0 && old(self).spec_is_attached()
                ==> *final(self) == (RapierBody { inertia, ..*old(self) }).spec_with_engine(
                EngineBodyState {
                    inv_inertia: (RapierBody { inertia, ..*old(self) }).spec_mode_inv_inertia(),
                    principal_inertia: inertia,
                    ..old(self).spec_eng()
                },
            ),
            inertia.x >= 0 && inertia.y >= 0 && inertia.z >= 0 && !old(self).spec_is_attached()
                ==> *final(self) == (RapierBody { inertia, ..*old(self) }),
            old(self).spec_wf() && inertia.x >= 0 && inertia.y >= 0 && inertia.z >= 0 ==> final(self).spec_wf(),
    {
        if !(inertia.x >= 0 && inertia.y >= 0 && inertia.z >= 0) {
            self.diags = bump(self.diags);
            return;
        }
        self.inertia = inertia;
        let inv = if matches!(self.body_mode, BodyMode::Static | BodyMode::Kinematic) {
            Vec3::zero()
        } else {
            inertia.recip_components()
        };
        if let Some(e) = &mut self.engine {
            e.inv_inertia = inv;
            e.principal_inertia = inertia;
        }
    }

    /// Installs a custom center of mass; while attached the live local
    /// center of mass reflects it at once.
    pub fn set_center_of_mass(&mut self, center_of_mass: Vec3)
        ensures
            old(self).spec_is_attached() ==> *final(self) == (RapierBody {
                custom_center_of_mass: center_of_mass,
                has_custom_center_of_mass: true,
                ..*old(self)
            }).spec_with_engine(
                EngineBodyState { local_com: center_of_mass, ..old(self).spec_eng() },
            ),
            !old(self).spec_is_attached() ==> *final(self) == (RapierBody {
                custom_center_of_mass: center_of_mass,
                has_custom_center_of_mass: true,
                ..*old(self)
            }),
    {
        self.custom_center_of_mass = center_of_mass;
        self.has_custom_center_of_mass = true;
        if let Some(e) = &mut self.engine {
            e.local_com = center_of_mass;
        }
    }

    /// Drops custom inertia and center of mass, handing both back to the
    /// engine to derive from the shapes.
    pub fn reset_mass_properties(&mut self)
        ensures
            old(self).spec_is_attached() ==> *final(self) == (RapierBody {
                inertia: v3_zero(),
                custom_center_of_mass: v3_zero(),
                has_custom_center_of_mass: false,
                ..*old(self)
            }).spec_with_engine(
                EngineBodyState {
                    inv_mass: old(self).spec_mode_inv_mass(),
                    inv_inertia: v3_zero(),
                    principal_inertia: v3_zero(),
                    local_com: v3_zero(),
                    ..old(self).spec_eng()
                },
            ),
            !old(self).spec_is_attached() ==> *final(self) == (RapierBody {
                inertia: v3_zero(),
                custom_center_of_mass: v3_zero(),
                has_custom_center_of_mass: false,
                ..*old(self)
            }),
            old(self).mass > 0 && old(self).spec_wf() ==> final(self).spec_wf(),
    {
        self.inertia = Vec3::zero();
        self.custom_center_of_mass = Vec3::zero();
        self.has_custom_center_of_mass = false;
        let inv_mass = if matches!(self.body_mode, BodyMode::Static | BodyMode::Kinematic) {
            0
        } else {
            recip(self.mass)
        };
        if let Some(e) = &mut self.engine {
            e.inv_mass = inv_mass;
            e.inv_inertia = Vec3::zero();
            e.principal_inertia = Vec3::zero();
            e.local_com = Vec3::zero();
        }
    }

    /// Switches the drive mode. While attached the live inverse mass and
    /// inertia follow the new mode, and a body turning kinematic starts
    /// driving toward its current live pose.
    pub fn set_body_mode(&mut self, mode: BodyMode)
        ensures
            old(self).spec_is_attached() ==> *final(self) == (RapierBody {
                body_mode: mode,
                kinematic_target: (if mode == BodyMode::Kinematic {
                    old(self).spec_eng().position
                } else {
                    old(self).kinematic_target
                }),
                ..*old(self)
            }).spec_with_engine(
                EngineBodyState {
                    inv_mass: (RapierBody { body_mode: mode, ..*old(self) }).spec_mode_inv_mass(),
                    inv_inertia: (RapierBody {
                        body_mode: mode,
                        ..*old(self)
                    }).spec_mode_inv_inertia(),
                    ..old(self).spec_eng()
                },
            ),
            !old(self).spec_is_attached() ==> *final(self) == (RapierBody {
                body_mode: mode,
                ..*old(self)
            }),
    {
        self.body_mode = mode;
        let inv_mass = if matches!(mode, BodyMode::Static | BodyMode::Kinematic) {
            0
        } else {
            recip(self.mass)
        };
        let inv_inertia = if matches!(mode, BodyMode::Static | BodyMode::Kinematic) {
            Vec3::zero()
        } else {
            self.inertia.recip_components()
        };
        if let Some(e) = &mut self.engine {
            e.inv_mass = inv_mass;
            e.inv_inertia = inv_inertia;
            if matches!(mode, BodyMode::Kinematic) {
                self.kinematic_target = e.position;
            }
        }
    }

    /// Adds to the constant central force re-applied every step.
    pub fn add_constant_central_force(&mut self, force: Vec3)
        ensures
            *final(self) == (RapierBody {
                constant_force: spec_v3_add(old(self).constant_force, force),
                ..*old(self)
            }),
    {
        self.constant_force = self.constant_force.add(force);
    }

    /// Adds a constant force applied at a position given relative to the
    /// body origin: the force itself, plus the torque it induces about the
    /// center of mass, `(position - com) x force`. Detached, the center of
    /// mass defaults to the zero vector and one diagnostic is reported.
    pub fn add_constant_force(&mut self, force: Vec3, position: Vec3)
        ensures
            ({
                let com_rel = spec_v3_sub(
                    old(self).spec_center_of_mass_value(),
                    old(self).spec_transform_value().origin,
                );
                let torque = spec_v3_cross(spec_v3_sub(position, com_rel), force);
                let updated = RapierBody {
                    constant_force: spec_v3_add(old(self).constant_force, force),
                    constant_torque: spec_v3_add(old(self).constant_torque, torque),
                    ..*old(self)
                };
                if old(self).spec_is_attached() {
                    *final(self) == updated
                } else {
                    *final(self) == updated.spec_with_diag()
                }
            }),
    {
        let attached = self.engine.is_some();
        let com = match &self.engine {
            Some(e) => e.position.xform(e.local_com),
            None => Vec3::zero(),
        };
        let origin = match &self.engine {
            Some(e) => e.position.origin,
            None => self.transform.origin,
        };
        let com_rel = com.sub(origin);
        self.constant_force = self.constant_force.add(force);
        self.constant_torque = self.constant_torque.add(position.sub(com_rel).cross(force));
        if !attached {
            self.diags = bump(self.diags);
        }
    }

    /// Adds to the constant torque re-applied every step.
    pub fn add_constant_torque(&mut self, torque: Vec3)
        ensures
            *final(self) == (RapierBody {
                constant_torque: spec_v3_add(old(self).constant_torque, torque),
                ..*old(self)
            }),
    {
        self.constant_torque = self.constant_torque.add(torque);
    }

    pub fn set_constant_force(&mut self, force: Vec3)
        ensures
            *final(self) == (RapierBody { constant_force: force, ..*old(self) }),
    {
        self.constant_force = force;
    }

    pub fn set_constant_torque(&mut self, torque: Vec3)
        ensures
            *final(self) == (RapierBody { constant_torque: torque, ..*old(self) }),
    {
        self.constant_torque = torque;
    }

    /// Commands a central force for the coming step; it induces no torque.
    pub fn apply_central_force(&mut self, force: Vec3)
        ensures
            old(self).spec_is_attached() ==> *final(self) == old(self).spec_with_engine(
                EngineBodyState {
                    forces: spec_v3_add(old(self).spec_eng().forces, force),
                    ..old(self).spec_eng()
                },
            ),
            !old(self).spec_is_attached() ==> *final(self) == old(self).spec_with_diag(),
    {
        match &mut self.engine {
            Some(e) => {
                e.forces = e.forces.add(force);
            },
            None => {
                self.diags = bump(self.diags);
            },
        }
    }

    /// Commands a force at a world position: the force, plus the torque
    /// `(position - com) x force` about the live center of mass.
    pub fn apply_force(&mut self, force: Vec3, position: Vec3)
        ensures
            old(self).spec_is_attached() ==> *final(self) == old(self).spec_with_engine(
                EngineBodyState {
                    forces: spec_v3_add(old(self).spec_eng().forces, force),
                    torques: spec_v3_add(
                        old(self).spec_eng().torques,
                        spec_v3_cross(
                            spec_v3_sub(position, old(self).spec_center_of_mass_value()),
                            force,
                        ),
                    ),
                    ..old(self).spec_eng()
                },
            ),
            !old(self).spec_is_attached() ==> *final(self) == old(self).spec_with_diag(),
    {
        match &mut self.engine {
            Some(e) => {
                let com = e.position.xform(e.local_com);
                e.forces = e.forces.add(force);
                e.torques = e.torques.add(position.sub(com).cross(force));
            },
            None => {
                self.diags = bump(self.diags);
            },
        }
    }

    /// Commands a one-shot central impulse; it induces no torque impulse.
    pub fn apply_central_impulse(&mut self, impulse: Vec3)
        ensures
            old(self).spec_is_attached() ==> *final(self) == old(self).spec_with_engine(
                EngineBodyState {
                    impulses: spec_v3_add(old(self).spec_eng().impulses, impulse),
                    ..old(self).spec_eng()
                },
            ),
            !old(self).spec_is_attached() ==> *final(self) == old(self).spec_with_diag(),
    {
        match &mut self.engine {
            Some(e) => {
                e.impulses = e.impulses.add(impulse);
            },
            None => {
                self.diags = bump(self.diags);
            },
        }
    }

    /// Commands a one-shot impulse at a world position: the impulse, plus
    /// the torque impulse `(position - com) x impulse`.
    pub fn apply_impulse(&mut self, impulse: Vec3, position: Vec3)
        ensures
            old(self).spec_is_attached() ==> *final(self) == old(self).spec_with_engine(
                EngineBodyState {
                    impulses: spec_v3_add(old(self).spec_eng().impulses, impulse),
                    torque_impulses: spec_v3_add(
                        old(self).spec_eng().torque_impulses,
                        spec_v3_cross(
                            spec_v3_sub(position, old(self).spec_center_of_mass_value()),
                            impulse,
                        ),
                    ),
                    ..old(self).spec_eng()
                },
            ),
            !old(self).spec_is_attached() ==> *final(self) == old(self).spec_with_diag(),
    {
        match &mut self.engine {
            Some(e) => {
                let com = e.position.xform(e.local_com);
                e.impulses = e.impulses.add(impulse);
                e.torque_impulses = e.torque_impulses.add(position.sub(com).cross(impulse));
            },
            None => {
                self.diags = bump(self.diags);
            },
        }
    }

    pub fn apply_torque(&mut self, torque: Vec3)
        ensures
            old(self).spec_is_attached() ==> *final(self) == old(self).spec_with_engine(
                EngineBodyState {
                    torques: spec_v3_add(old(self).spec_eng().torques, torque),
                    ..old(self).spec_eng()
                },
            ),
            !old(self).spec_is_attached() ==> *final(self) == old(self).spec_with_diag(),
    {
        match &mut self.engine {
            Some(e) => {
                e.torques = e.torques.add(torque);
            },
            None => {
                self.diags = bump(self.diags);
            },
        }
    }

    pub fn apply_torque_impulse(&mut self, impulse: Vec3)
        ensures
            old(self).spec_is_attached() ==> *final(self) == old(self).spec_with_engine(
                EngineBodyState {
                    torque_impulses: spec_v3_add(old(self).spec_eng().torque_impulses, impulse),
                    ..old(self).spec_eng()
                },
            ),
            !old(self).spec_is_attached() ==> *final(self) == old(self).spec_with_diag(),
    {
        match &mut self.engine {
            Some(e) => {
                e.torque_impulses = e.torque_impulses.add(impulse);
            },
            None => {
                self.diags = bump(self.diags);
            },
        }
    }

    /// Takes in what the engine reported after a step: pose, velocities
    /// and sleep state. Detached, reports and changes nothing.
    pub fn sync_engine_state(
        &mut self,
        position: Transform,
        linear_velocity: Vec3,
        angular_velocity: Vec3,
        sleeping: bool,
    )
        ensures
            old(self).spec_is_attached() ==> *final(self) == old(self).spec_with_engine(
                EngineBodyState {
                    position,
                    linear_velocity,
                    angular_velocity,
                    sleeping,
                    ..old(self).spec_eng()
                },
            ),
            !old(self).spec_is_attached() ==> *final(self) == old(self).spec_with_diag(),
    {
        match &mut self.engine {
            Some(e) => {
                e.position = position;
                e.linear_velocity = linear_velocity;
                e.angular_velocity = angular_velocity;
                e.sleeping = sleeping;
            },
            None => {
                self.diags = bump(self.diags);
            },
        }
    }

    /// Takes in the mass properties the engine derived from the shapes.
    /// Detached, reports and changes nothing.
    pub fn sync_mass_properties(
        &mut self,
        inv_mass: i64,
        inv_inertia: Vec3,
        local_com: Vec3,
        principal_inertia: Vec3,
    )
        ensures
            old(self).spec_is_attached() ==> *final(self) == old(self).spec_with_engine(
                EngineBodyState {
                    inv_mass,
                    inv_inertia,
                    local_com,
                    principal_inertia,
                    ..old(self).spec_eng()
                },
            ),
            !old(self).spec_is_attached() ==> *final(self) == old(self).spec_with_diag(),
    {
        match &mut self.engine {
            Some(e) => {
                e.inv_mass = inv_mass;
                e.inv_inertia = inv_inertia;
                e.local_com = local_com;
                e.principal_inertia = principal_inertia;
            },
            None => {
                self.diags = bump(self.diags);
            },
        }
    }

    /// Hands the commanded per-step forces and torques to the host loop
    /// and clears the accumulators. Detached, reports and yields zeros.
    pub fn take_forces(&mut self) -> (r: (Vec3, Vec3))
        ensures
            old(self).spec_is_attached() ==> r == (old(self).spec_eng().forces, old(
                self,
            ).spec_eng().torques) && *final(self) == old(self).spec_with_engine(
                EngineBodyState {
                    forces: v3_zero(),
                    torques: v3_zero(),
                    ..old(self).spec_eng()
                },
            ),
            !old(self).spec_is_attached() ==> r == (v3_zero(), v3_zero()) && *final(self) == old(
                self,
            ).spec_with_diag(),
    {
        match &mut self.engine {
            Some(e) => {
                let r = (e.forces, e.torques);
                e.forces = Vec3::zero();
                e.torques = Vec3::zero();
                r
            },
            None => {
                self.diags = bump(self.diags);
                (Vec3::zero(), Vec3::zero())
            },
        }
    }

    /// Hands the commanded one-shot impulses to the host loop and clears
    /// them. Detached, reports and yields zeros.
    pub fn take_impulses(&mut self) -> (r: (Vec3, Vec3))
        ensures
            old(self).spec_is_attached() ==> r == (old(self).spec_eng().impulses, old(
                self,
            ).spec_eng().torque_impulses) && *final(self) == old(self).spec_with_engine(
                EngineBodyState {
                    impulses: v3_zero(),
                    torque_impulses: v3_zero(),
                    ..old(self).spec_eng()
                },
            ),
            !old(self).spec_is_attached() ==> r == (v3_zero(), v3_zero()) && *final(self) == old(
                self,
            ).spec_with_diag(),
    {
        match &mut self.engine {
            Some(e) => {
                let r = (e.impulses, e.torque_impulses);
                e.impulses = Vec3::zero();
                e.torque_impulses = Vec3::zero();
                r
            },
            None => {
                self.diags = bump(self.diags);
                (Vec3::zero(), Vec3::zero())
            },
        }
    }

    /// Hands the pending kinematic move command to the host loop, if one
    /// is waiting, and clears it. Detached, reports and yields nothing.
    pub fn take_kinematic_move(&mut self) -> (r: Option<Transform>)
        ensures
            old(self).spec_is_attached() ==> r == old(self).spec_eng().pending_kinematic_move
                && *final(self) == old(self).spec_with_engine(
                EngineBodyState { pending_kinematic_move: None, ..old(self).spec_eng() },
            ),
            !old(self).spec_is_attached() ==> r is None && *final(self) == old(
                self,
            ).spec_with_diag(),
    {
        match &mut self.engine {
            Some(e) => {
                let r = e.pending_kinematic_move;
                e.pending_kinematic_move = None;
                r
            },
            None => {
                self.diags = bump(self.diags);
                None
            },
        }
    }

    /// Every recorded overlap points at a live slot of the space's area
    /// arena.
    pub open spec fn spec_areas_valid(self, space: RapierSpace) -> bool {
        forall|i: int|
            0 <= i < self.areas@.len() ==> (self.areas@[i] as int) < space.areas@.len()
    }

    /// The override fold for gravity, from area `i` on with running total
    /// `acc`: COMBINE accumulates and goes on, COMBINE_REPLACE accumulates
    /// and stops, REPLACE starts over and stops, REPLACE_COMBINE starts
    /// over and goes on, DISABLED contributes nothing. A fold that runs
    /// off the end of the list takes the space default area's gravity as
    /// well — for an attached body; a detached one has no space to ask.
    pub open spec fn spec_gravity_rec(
        self,
        space: RapierSpace,
        position: Vec3,
        i: int,
        acc: Vec3,
    ) -> Vec3
        decreases self.areas@.len() - i,
    {
        if i < 0 || i >= self.areas@.len() {
            if self.spec_is_attached() {
                spec_v3_add(acc, space.default_area.spec_compute_gravity(position))
            } else {
                acc
            }
        } else {
            let a = space.areas@[self.areas@[i] as int];
            let c = a.spec_compute_gravity(position);
            match a.gravity_mode {
                OverrideMode::Combine => self.spec_gravity_rec(
                    space,
                    position,
                    i + 1,
                    spec_v3_add(acc, c),
                ),
                OverrideMode::CombineReplace => spec_v3_add(acc, c),
                OverrideMode::Replace => c,
                OverrideMode::ReplaceCombine => self.spec_gravity_rec(space, position, i + 1, c),
                OverrideMode::Disabled => self.spec_gravity_rec(space, position, i + 1, acc),
            }
        }
    }

    /// Total gravity at the body's position: the override fold over the
    /// overlapping areas, scaled by the body's own gravity scale.
    pub open spec fn spec_total_gravity(self, space: RapierSpace) -> Vec3 {
        spec_v3_scale(
            self.spec_gravity_rec(space, self.spec_transform_value().origin, 0, v3_zero()),
            self.gravity_scale,
        )
    }

    #[verifier::loop_isolation(false)]
    pub fn total_gravity(&self, space: &RapierSpace) -> (g: Vec3)
        requires
            self.spec_areas_valid(*space),
        ensures
            g == self.spec_total_gravity(*space),
    {
        let position = match &self.engine {
            Some(e) => e.position.origin,
            None => self.transform.origin,
        };
        let mut acc = Vec3::zero();
        let mut done = false;
        let n = self.areas.len();
        let mut i: usize = 0;
        while i < n && !done
            invariant
                i <= n,
                !done ==> self.spec_gravity_rec(*space, position, i as int, acc)
                    == self.spec_gravity_rec(*space, position, 0, v3_zero()),
                done ==> acc == self.spec_gravity_rec(*space, position, 0, v3_zero()),
            decreases n - i,
        {
            let a = &space.areas[self.areas[i]];
            let c = a.compute_gravity(position);
            match a.gravity_mode {
                OverrideMode::Combine => {
                    acc = acc.add(c);
                },
                OverrideMode::CombineReplace => {
                    acc = acc.add(c);
                    done = true;
                },
                OverrideMode::Replace => {
                    acc = c;
                    done = true;
                },
                OverrideMode::ReplaceCombine => {
                    acc = c;
                },
                OverrideMode::Disabled => {},
            }
            i = i + 1;
        }
        let total = if done {
            acc
        } else {
            match &self.engine {
                Some(_) => acc.add(space.default_area.compute_gravity(position)),
                None => acc,
            }
        };
        total.scale(self.gravity_scale)
    }

    /// An area's damp value for the chosen axis kind.
    pub open spec fn spec_area_damp(a: crate::area::RapierArea, linear: bool) -> i64 {
        if linear {
            a.linear_damp
        } else {
            a.angular_damp
        }
    }

    /// An area's damp override mode for the chosen axis kind.
    pub open spec fn spec_area_damp_mode(a: crate::area::RapierArea, linear: bool) -> OverrideMode {
        if linear {
            a.linear_damp_mode
        } else {
            a.angular_damp_mode
        }
    }

    /// The override fold for damping, shaped exactly like the gravity one.
    pub open spec fn spec_damp_rec(self, space: RapierSpace, linear: bool, i: int, acc: i64) -> i64
        decreases self.areas@.len() - i,
    {
        if i < 0 || i >= self.areas@.len() {
            if self.spec_is_attached() {
                spec_sat_add(acc, Self::spec_area_damp(space.default_area, linear))
            } else {
                acc
            }
        } else {
            let a = space.areas@[self.areas@[i] as int];
            let c = Self::spec_area_damp(a, linear);
            match Self::spec_area_damp_mode(a, linear) {
                OverrideMode::Combine => self.spec_damp_rec(space, linear, i + 1, spec_sat_add(acc, c)),
                OverrideMode::CombineReplace => spec_sat_add(acc, c),
                OverrideMode::Replace => c,
                OverrideMode::ReplaceCombine => self.spec_damp_rec(space, linear, i + 1, c),
                OverrideMode::Disabled => self.spec_damp_rec(space, linear, i + 1, acc),
            }
        }
    }

    /// Total damp for one axis kind: the body's own damp mode has the last
    /// word — REPLACE discards the area fold entirely, COMBINE adds the
    /// body's own value to it.
    pub open spec fn spec_total_damp(self, space: RapierSpace, linear: bool) -> i64 {
        let own_mode = if linear {
            self.linear_damp_mode
        } else {
            self.angular_damp_mode
        };
        let own = if linear {
            self.linear_damp
        } else {
            self.angular_damp
        };
        match own_mode {
            DampMode::Replace => own,
            DampMode::Combine => spec_sat_add(self.spec_damp_rec(space, linear, 0, 0), own),
        }
    }

    #[verifier::loop_isolation(false)]
    fn fold_damp(&self, space: &RapierSpace, linear: bool) -> (d: i64)
        requires
            self.spec_areas_valid(*space),
        ensures
            d == self.spec_total_damp(*space, linear),
    {
        let own_mode = if linear {
            self.linear_damp_mode
        } else {
            self.angular_damp_mode
        };
        let own = if linear {
            self.linear_damp
        } else {
            self.angular_damp
        };
        if matches!(own_mode, DampMode::Replace) {
            return own;
        }
        let mut acc: i64 = 0;
        let mut done = false;
        let n = self.areas.len();
        let mut i: usize = 0;
        while i < n && !done
            invariant
                i <= n,
                !done ==> self.spec_damp_rec(*space, linear, i as int, acc) == self.spec_damp_rec(
                    *space,
                    linear,
                    0,
                    0,
                ),
                done ==> acc == self.spec_damp_rec(*space, linear, 0, 0),
            decreases n - i,
        {
            let a = &space.areas[self.areas[i]];
            let c = if linear {
                a.linear_damp
            } else {
                a.angular_damp
            };
            let mode = if linear {
                a.linear_damp_mode
            } else {
                a.angular_damp_mode
            };
            match mode {
                OverrideMode::Combine => {
                    acc = crate::math::sat_add(acc, c);
                },
                OverrideMode::CombineReplace => {
                    acc = crate::math::sat_add(acc, c);
                    done = true;
                },
                OverrideMode::Replace => {
                    acc = c;
                    done = true;
                },
                OverrideMode::ReplaceCombine => {
                    acc = c;
                },
                OverrideMode::Disabled => {},
            }
            i = i + 1;
        }
        let folded = if done {
            acc
        } else {
            match &self.engine {
                Some(_) => crate::math::sat_add(
                    acc,
                    if linear {
                        space.default_area.linear_damp
                    } else {
                        space.default_area.angular_damp
                    },
                ),
                None => acc,
            }
        };
        crate::math::sat_add(folded, own)
    }

    /// Total linear damp across the overlapping areas, the space default
    /// and the body's own damp mode.
    pub fn total_linear_damp(&self, space: &RapierSpace) -> (d: i64)
        requires
            self.spec_areas_valid(*space),
        ensures
            d == self.spec_total_damp(*space, true),
    {
        self.fold_damp(space, true)
    }

    /// Total angular damp across the overlapping areas, the space default
    /// and the body's own damp mode.
    pub fn total_angular_damp(&self, space: &RapierSpace) -> (d: i64)
        requires
            self.spec_areas_valid(*space),
        ensures
            d == self.spec_total_damp(*space, false),
    {
        self.fold_damp(space, false)
    }

    /// Reconciles both damp values and pushes them to the engine mirror.
    /// Detached, reports and changes nothing.
    pub fn update_damp(&mut self, space: &RapierSpace)
        requires
            old(self).spec_areas_valid(*space),
        ensures
            old(self).spec_is_attached() ==> *final(self) == old(self).spec_with_engine(
                EngineBodyState {
                    linear_damp: old(self).spec_total_damp(*space, true),
                    angular_damp: old(self).spec_total_damp(*space, false),
                    ..old(self).spec_eng()
                },
            ),
            !old(self).spec_is_attached() ==> *final(self) == old(self).spec_with_diag(),
    {
        if self.engine.is_none() {
            self.diags = bump(self.diags);
            return;
        }
        let lin = self.total_linear_damp(space);
        let ang = self.total_angular_damp(space);
        if let Some(e) = &mut self.engine {
            e.linear_damp = lin;
            e.angular_damp = ang;
        }
    }

    /// Integrates gravity into the engine velocity and re-commands the
    /// constant force and torque for this step. Detached, reports and
    /// changes nothing.
    fn integrate_forces(&mut self, step: i64, space: &RapierSpace)
        requires
            old(self).spec_areas_valid(*space),
        ensures
            old(self).spec_is_attached() ==> *final(self) == old(self).spec_with_engine(
                EngineBodyState {
                    linear_velocity: spec_v3_add(
                        old(self).spec_eng().linear_velocity,
                        spec_v3_scale(old(self).spec_total_gravity(*space), step),
                    ),
                    forces: spec_v3_add(old(self).spec_eng().forces, old(self).constant_force),
                    torques: spec_v3_add(old(self).spec_eng().torques, old(self).constant_torque),
                    ..old(self).spec_eng()
                },
            ),
            !old(self).spec_is_attached() ==> *final(self) == old(self).spec_with_diag(),
    {
        if self.engine.is_none() {
            self.diags = bump(self.diags);
            return;
        }
        let gravity = self.total_gravity(space);
        let dv = gravity.scale(step);
        let cf = self.constant_force;
        let ct = self.constant_torque;
        if let Some(e) = &mut self.engine {
            e.linear_velocity = e.linear_velocity.add(dv);
            e.forces = e.forces.add(cf);
            e.torques = e.torques.add(ct);
        }
    }

    /// The outcome of the kinematic pre-step: both engine velocities
    /// zeroed and, only when the live pose differs from the target, a move
    /// command toward the target — a body already at its target re-issues
    /// nothing. Detached, one diagnostic instead.
    pub open spec fn spec_kinematic_prestep(self) -> RapierBody {
        if !self.spec_is_attached() {
            self.spec_with_diag()
        } else {
            let e = self.spec_eng();
            self.spec_with_engine(
                EngineBodyState {
                    linear_velocity: v3_zero(),
                    angular_velocity: v3_zero(),
                    pending_kinematic_move: if e.position == self.kinematic_target {
                        e.pending_kinematic_move
                    } else {
                        Some(self.kinematic_target)
                    },
                    ..e
                },
            )
        }
    }

    /// Zeroes the engine velocities and, only when the live pose differs
    /// from the target, commands a kinematic move toward the target; a
    /// body already at its target re-issues nothing. Detached, reports and
    /// changes nothing.
    fn move_kinematic(&mut self)
        ensures
            *final(self) == old(self).spec_kinematic_prestep(),
    {
        let target = self.kinematic_target;
        match &mut self.engine {
            Some(e) => {
                e.linear_velocity = Vec3::zero();
                e.angular_velocity = Vec3::zero();
                if !(e.position == target) {
                    e.pending_kinematic_move = Some(target);
                }
            },
            None => {
                self.diags = bump(self.diags);
            },
        }
    }

    /// The per-step hook: a rigid body integrates gravity and constant
    /// forces, a kinematic body is driven toward its target pose, a static
    /// body does nothing.
    pub fn pre_step(&mut self, step: i64, space: &RapierSpace)
        requires
            old(self).spec_areas_valid(*space),
        ensures
            (old(self).body_mode == BodyMode::Rigid || old(self).body_mode
                == BodyMode::RigidLinear) ==> {
                &&& old(self).spec_is_attached() ==> *final(self) == old(self).spec_with_engine(
                    EngineBodyState {
                        linear_velocity: spec_v3_add(
                            old(self).spec_eng().linear_velocity,
                            spec_v3_scale(old(self).spec_total_gravity(*space), step),
                        ),
                        forces: spec_v3_add(old(self).spec_eng().forces, old(self).constant_force),
                        torques: spec_v3_add(
                            old(self).spec_eng().torques,
                            old(self).constant_torque,
                        ),
                        ..old(self).spec_eng()
                    },
                )
                &&& !old(self).spec_is_attached() ==> *final(self) == old(self).spec_with_diag()
            },
            old(self).body_mode == BodyMode::Kinematic ==> *final(self) == old(
                self,
            ).spec_kinematic_prestep(),
            old(self).body_mode == BodyMode::Static ==> *final(self) == *old(self),
    {
        match self.body_mode {
            BodyMode::Rigid | BodyMode::RigidLinear => {
                self.integrate_forces(step, space);
            },
            BodyMode::Kinematic => {
                self.move_kinematic();
            },
            BodyMode::Static => {},
        }
    }

    /// The live inverse mass. A static or kinematic body is not subject to
    /// dynamics and reports exactly zero whatever its stored mass; a
    /// dynamic one reports the engine's value while attached and the
    /// reciprocal of its own mass otherwise, with one diagnostic for the
    /// missing engine context.
    pub fn inverse_mass(&mut self) -> (r: i64)
        ensures
            (old(self).body_mode == BodyMode::Static || old(self).body_mode
                == BodyMode::Kinematic) ==> r == 0 && *final(self) == *old(self),
            !(old(self).body_mode == BodyMode::Static || old(self).body_mode
                == BodyMode::Kinematic) && old(self).spec_is_attached() ==> r == old(
                self,
            ).spec_eng().inv_mass && *final(self) == *old(self),
            !(old(self).body_mode == BodyMode::Static || old(self).body_mode
                == BodyMode::Kinematic) && !old(self).spec_is_attached() ==> r == spec_recip(
                old(self).mass,
            ) && *final(self) == old(self).spec_with_diag(),
    {
        if matches!(self.body_mode, BodyMode::Static | BodyMode::Kinematic) {
            return 0;
        }
        match &self.engine {
            Some(e) => e.inv_mass,
            None => {
                self.diags = bump(self.diags);
                recip(self.mass)
            },
        }
    }

    /// The live inverse principal inertia, by the same rule as
    /// `inverse_mass`: exactly zero for static and kinematic bodies.
    pub fn inverse_inertia(&mut self) -> (r: Vec3)
        ensures
            (old(self).body_mode == BodyMode::Static || old(self).body_mode
                == BodyMode::Kinematic) ==> r == v3_zero() && *final(self) == *old(self),
            !(old(self).body_mode == BodyMode::Static || old(self).body_mode
                == BodyMode::Kinematic) && old(self).spec_is_attached() ==> r == old(
                self,
            ).spec_eng().inv_inertia && *final(self) == *old(self),
            !(old(self).body_mode == BodyMode::Static || old(self).body_mode
                == BodyMode::Kinematic) && !old(self).spec_is_attached() ==> r == spec_v3_recip(
                old(self).inertia,
            ) && *final(self) == old(self).spec_with_diag(),
    {
        if matches!(self.body_mode, BodyMode::Static | BodyMode::Kinematic) {
            return Vec3::zero();
        }
        match &self.engine {
            Some(e) => e.inv_inertia,
            None => {
                self.diags = bump(self.diags);
                self.inertia.recip_components()
            },
        }
    }

    /// The inverse inertia as a diagonal tensor; the identity basis for
    /// static and kinematic bodies.
    pub fn inverse_inertia_tensor(&mut self) -> (r: Basis)
        ensures
            (old(self).body_mode == BodyMode::Static || old(self).body_mode
                == BodyMode::Kinematic) ==> r == crate::math::spec_basis_identity() && *final(self)
                == *old(self),
            !(old(self).body_mode == BodyMode::Static || old(self).body_mode
                == BodyMode::Kinematic) && old(self).spec_is_attached() ==> r
                == crate::math::spec_basis_from_diagonal(old(self).spec_eng().inv_inertia)
                && *final(self) == *old(self),
            !(old(self).body_mode == BodyMode::Static || old(self).body_mode
                == BodyMode::Kinematic) && !old(self).spec_is_attached() ==> r
                == crate::math::spec_basis_from_diagonal(spec_v3_recip(old(self).inertia))
                && *final(self) == old(self).spec_with_diag(),
    {
        if matches!(self.body_mode, BodyMode::Static | BodyMode::Kinematic) {
            return Basis::identity();
        }
        match &self.engine {
            Some(e) => Basis::from_diagonal(e.inv_inertia),
            None => {
                self.diags = bump(self.diags);
                Basis::from_diagonal(self.inertia.recip_components())
            },
        }
    }

    /// The principal inertia axes: the observed basis scaled column-wise
    /// by the principal inertia; the identity basis for static and
    /// kinematic bodies.
    pub fn principal_inertia_axes(&mut self) -> (r: Basis)
        ensures
            (old(self).body_mode == BodyMode::Static || old(self).body_mode
                == BodyMode::Kinematic) ==> r == crate::math::spec_basis_identity() && *final(self)
                == *old(self),
            !(old(self).body_mode == BodyMode::Static || old(self).body_mode
                == BodyMode::Kinematic) && old(self).spec_is_attached() ==> r
                == crate::math::spec_basis_mul_diagonal(
                old(self).spec_eng().position.basis,
                old(self).spec_eng().principal_inertia,
            ) && *final(self) == *old(self),
            !(old(self).body_mode == BodyMode::Static || old(self).body_mode
                == BodyMode::Kinematic) && !old(self).spec_is_attached() ==> r
                == crate::math::spec_basis_mul_diagonal(old(self).transform.basis, old(self).inertia)
                && *final(self) == old(self).spec_with_diag(),
    {
        if matches!(self.body_mode, BodyMode::Static | BodyMode::Kinematic) {
            return Basis::identity();
        }
        match &self.engine {
            Some(e) => e.position.basis.mul_diagonal(e.principal_inertia),
            None => {
                self.diags = bump(self.diags);
                self.transform.basis.mul_diagonal(self.inertia)
            },
        }
    }

    /// What `get_param` answers for each parameter id.
    pub open spec fn spec_get_param(self, param: BodyParameter) -> Variant {
        match param {
            BodyParameter::Bounce => Variant::Int(self.bounce),
            BodyParameter::Friction => Variant::Int(self.friction),
            BodyParameter::Mass => Variant::Int(self.mass),
            BodyParameter::Inertia => Variant::Vector(self.inertia),
            BodyParameter::CenterOfMass => Variant::Vector(self.spec_center_of_mass_value()),
            BodyParameter::GravityScale => Variant::Int(self.gravity_scale),
            BodyParameter::LinearDampMode => Variant::Int(
                crate::types::spec_damp_mode_code(self.linear_damp_mode),
            ),
            BodyParameter::AngularDampMode => Variant::Int(
                crate::types::spec_damp_mode_code(self.angular_damp_mode),
            ),
            BodyParameter::LinearDamp => Variant::Int(self.linear_damp),
            BodyParameter::AngularDamp => Variant::Int(self.angular_damp),
        }
    }

    pub fn get_param(&mut self, param: BodyParameter) -> (v: Variant)
        ensures
            v == old(self).spec_get_param(param),
            param == BodyParameter::CenterOfMass && !old(self).spec_is_attached() ==> *final(self)
                == old(self).spec_with_diag(),
            !(param == BodyParameter::CenterOfMass && !old(self).spec_is_attached()) ==> *final(self) == *old(self),
    {
        match param {
            BodyParameter::Bounce => Variant::Int(self.bounce),
            BodyParameter::Friction => Variant::Int(self.friction),
            BodyParameter::Mass => Variant::Int(self.mass),
            BodyParameter::Inertia => Variant::Vector(self.inertia),
            BodyParameter::CenterOfMass => Variant::Vector(self.center_of_mass()),
            BodyParameter::GravityScale => Variant::Int(self.gravity_scale),
            BodyParameter::LinearDampMode => Variant::Int(self.linear_damp_mode.code()),
            BodyParameter::AngularDampMode => Variant::Int(self.angular_damp_mode.code()),
            BodyParameter::LinearDamp => Variant::Int(self.linear_damp),
            BodyParameter::AngularDamp => Variant::Int(self.angular_damp),
        }
    }

    /// What `set_param` leaves behind. A malformed value — the wrong kind,
    /// a non-positive mass, a negative inertia component, an unknown damp
    /// mode code — is reported and the prior state kept; mass, inertia and
    /// center-of-mass writes keep the live mass properties in step while
    /// attached.
    pub open spec fn spec_set_param(self, param: BodyParameter, value: Variant) -> RapierBody {
        match param {
            BodyParameter::Bounce => match value {
                Variant::Int(b) => RapierBody { bounce: b, ..self },
                _ => self.spec_with_diag(),
            },
            BodyParameter::Friction => match value {
                Variant::Int(f) => RapierBody { friction: f, ..self },
                _ => self.spec_with_diag(),
            },
            BodyParameter::Mass => match value {
                Variant::Int(m) => if m > 0 {
                    let b2 = RapierBody { mass: m, ..self };
                    if self.spec_is_attached() {
                        b2.spec_with_engine(
                            EngineBodyState { inv_mass: b2.spec_mode_inv_mass(), ..self.spec_eng() },
                        )
                    } else {
                        b2
                    }
                } else {
                    self.spec_with_diag()
                },
                _ => self.spec_with_diag(),
            },
            BodyParameter::Inertia => match value {
                Variant::Vector(v) => if v.x >= 0 && v.y >= 0 && v.z >= 0 {
                    let b2 = RapierBody { inertia: v, ..self };
                    if self.spec_is_attached() {
                        b2.spec_with_engine(
                            EngineBodyState {
                                inv_inertia: b2.spec_mode_inv_inertia(),
                                principal_inertia: v,
                                ..self.spec_eng()
                            },
                        )
                    } else {
                        b2
                    }
                } else {
                    self.spec_with_diag()
                },
                _ => self.spec_with_diag(),
            },
            BodyParameter::CenterOfMass => match value {
                Variant::Vector(v) => {
                    let b2 = RapierBody {
                        custom_center_of_mass: v,
                        has_custom_center_of_mass: true,
                        ..self
                    };
                    if self.spec_is_attached() {
                        b2.spec_with_engine(EngineBodyState { local_com: v, ..self.spec_eng() })
                    } else {
                        b2
                    }
                },
                _ => self.spec_with_diag(),
            },
            BodyParameter::GravityScale => match value {
                Variant::Int(g) => RapierBody { gravity_scale: g, ..self },
                _ => self.spec_with_diag(),
            },
            BodyParameter::LinearDampMode => match value {
                Variant::Int(c) => match crate::types::spec_damp_mode_from_code(c) {
                    Some(m) => RapierBody { linear_damp_mode: m, ..self },
                    None => self.spec_with_diag(),
                },
                _ => self.spec_with_diag(),
            },
            BodyParameter::AngularDampMode => match value {
                Variant::Int(c) => match crate::types::spec_damp_mode_from_code(c) {
                    Some(m) => RapierBody { angular_damp_mode: m, ..self },
                    None => self.spec_with_diag(),
                },
                _ => self.spec_with_diag(),
            },
            BodyParameter::LinearDamp => match value {
                Variant::Int(d) => RapierBody { linear_damp: d, ..self },
                _ => self.spec_with_diag(),
            },
            BodyParameter::AngularDamp => match value {
                Variant::Int(d) => RapierBody { angular_damp: d, ..self },
                _ => self.spec_with_diag(),
            },
        }
    }

    pub fn set_param(&mut self, param: BodyParameter, value: Variant)
        ensures
            *final(self) == old(self).spec_set_param(param, value),
    {
        match param {
            BodyParameter::Bounce => {
                match value {
                    Variant::Int(b) => self.set_bounce(b),
                    _ => {
                        self.diags = bump(self.diags);
                    },
                }
            },
            BodyParameter::Friction => {
                match value {
                    Variant::Int(f) => self.set_friction(f),
                    _ => {
                        self.diags = bump(self.diags);
                    },
                }
            },
            BodyParameter::Mass => {
                match value {
                    Variant::Int(m) => self.set_mass(m),
                    _ => {
                        self.diags = bump(self.diags);
                    },
                }
            },
            BodyParameter::Inertia => {
                match value {
                    Variant::Vector(v) => self.set_inertia(v),
                    _ => {
                        self.diags = bump(self.diags);
                    },
                }
            },
            BodyParameter::CenterOfMass => {
                match value {
                    Variant::Vector(v) => self.set_center_of_mass(v),
                    _ => {
                        self.diags = bump(self.diags);
                    },
                }
            },
            BodyParameter::GravityScale => {
                match value {
                    Variant::Int(g) => self.set_gravity_scale(g),
                    _ => {
                        self.diags = bump(self.diags);
                    },
                }
            },
            BodyParameter::LinearDampMode => {
                match value {
                    Variant::Int(c) => match DampMode::from_code(c) {
                        Some(m) => {
                            self.linear_damp_mode = m;
                        },
                        None => {
                            self.diags = bump(self.diags);
                        },
                    },
                    _ => {
                        self.diags = bump(self.diags);
                    },
                }
            },
            BodyParameter::AngularDampMode => {
                match value {
                    Variant::Int(c) => match DampMode::from_code(c) {
                        Some(m) => {
                            self.angular_damp_mode = m;
                        },
                        None => {
                            self.diags = bump(self.diags);
                        },
                    },
                    _ => {
                        self.diags = bump(self.diags);
                    },
                }
            },
            BodyParameter::LinearDamp => {
                match value {
                    Variant::Int(d) => self.set_linear_damp(d),
                    _ => {
                        self.diags = bump(self.diags);
                    },
                }
            },
            BodyParameter::AngularDamp => {
                match value {
                    Variant::Int(d) => self.set_angular_damp(d),
                    _ => {
                        self.diags = bump(self.diags);
                    },
                }
            },
        }
    }

    /// What `get_state` answers for each state id.
    pub open spec fn spec_get_state(self, state: BodyState) -> Variant {
        match state {
            BodyState::Transform => Variant::Xform(self.spec_transform_value()),
            BodyState::LinearVelocity => Variant::Vector(self.spec_linear_velocity_value()),
            BodyState::AngularVelocity => Variant::Vector(self.spec_angular_velocity_value()),
            BodyState::Sleeping => Variant::Bool(self.spec_sleeping_value()),
            BodyState::CanSleep => Variant::Bool(self.can_sleep),
        }
    }

    pub fn get_state(&mut self, state: BodyState) -> (v: Variant)
        ensures
            v == old(self).spec_get_state(state),
            state != BodyState::CanSleep && !old(self).spec_is_attached() ==> *final(self) == old(
                self,
            ).spec_with_diag(),
            !(state != BodyState::CanSleep && !old(self).spec_is_attached()) ==> *final(self)
                == *old(self),
    {
        match state {
            BodyState::Transform => Variant::Xform(self.transform()),
            BodyState::LinearVelocity => Variant::Vector(self.linear_velocity()),
            BodyState::AngularVelocity => Variant::Vector(self.angular_velocity()),
            BodyState::Sleeping => Variant::Bool(self.is_sleeping()),
            BodyState::CanSleep => Variant::Bool(self.can_sleep),
        }
    }

    /// What `set_state` leaves behind; a value of the wrong kind is
    /// reported and the prior state kept.
    pub open spec fn spec_set_state(self, state: BodyState, value: Variant) -> RapierBody {
        match state {
            BodyState::Transform => match value {
                Variant::Xform(t) => if self.body_mode == BodyMode::Kinematic {
                    RapierBody { transform: t, kinematic_target: t, ..self }
                } else if self.spec_is_attached() {
                    (RapierBody { transform: t, ..self }).spec_with_engine(
                        EngineBodyState { position: t, ..self.spec_eng() },
                    )
                } else {
                    RapierBody { transform: t, ..self }
                },
                _ => self.spec_with_diag(),
            },
            BodyState::LinearVelocity => match value {
                Variant::Vector(v) => if self.spec_is_attached() {
                    (RapierBody { linear_velocity: v, ..self }).spec_with_engine(
                        EngineBodyState { linear_velocity: v, ..self.spec_eng() },
                    )
                } else {
                    RapierBody { linear_velocity: v, ..self }
                },
                _ => self.spec_with_diag(),
            },
            BodyState::AngularVelocity => match value {
                Variant::Vector(v) => if self.spec_is_attached() {
                    (RapierBody { angular_velocity: v, ..self }).spec_with_engine(
                        EngineBodyState { angular_velocity: v, ..self.spec_eng() },
                    )
                } else {
                    RapierBody { angular_velocity: v, ..self }
                },
                _ => self.spec_with_diag(),
            },
            BodyState::Sleeping => match value {
                Variant::Bool(b) => if self.spec_is_attached() {
                    (RapierBody { is_sleeping: b, ..self }).spec_with_engine(
                        EngineBodyState { sleeping: b, ..self.spec_eng() },
                    )
                } else {
                    RapierBody { is_sleeping: b, ..self }
                },
                _ => self.spec_with_diag(),
            },
            BodyState::CanSleep => match value {
                Variant::Bool(b) => RapierBody { can_sleep: b, ..self },
                _ => self.spec_with_diag(),
            },
        }
    }

    pub fn set_state(&mut self, state: BodyState, value: Variant)
        ensures
            *final(self) == old(self).spec_set_state(state, value),
    {
        match state {
            BodyState::Transform => {
                match value {
                    Variant::Xform(t) => self.set_transform(t),
                    _ => {
                        self.diags = bump(self.diags);
                    },
                }
            },
            BodyState::LinearVelocity => {
                match value {
                    Variant::Vector(v) => self.set_linear_velocity(v),
                    _ => {
                        self.diags = bump(self.diags);
                    },
                }
            },
            BodyState::AngularVelocity => {
                match value {
                    Variant::Vector(v) => self.set_angular_velocity(v),
                    _ => {
                        self.diags = bump(self.diags);
                    },
                }
            },
            BodyState::Sleeping => {
                match value {
                    Variant::Bool(b) => self.set_is_sleeping(b),
                    _ => {
                        self.diags = bump(self.diags);
                    },
                }
            },
            BodyState::CanSleep => {
                match value {
                    Variant::Bool(b) => self.set_can_sleep(b),
                    _ => {
                        self.diags = bump(self.diags);
                    },
                }
            },
        }
    }

    pub fn shapes(&self) -> (s: &Vec<RapierShapeInstance>)
        ensures
            s == &self.shapes,
    {
        &self.shapes
    }

    /// Mounts one more shape instance at the end of the list.
    pub fn add_shape(&mut self, instance: RapierShapeInstance)
        ensures
            *final(self) == (RapierBody { shapes: final(self).shapes, ..*old(self) }),
            final(self).shapes@ == old(self).shapes@.push(instance),
    {
        self.shapes.push(instance);
    }

    /// Unmounts every instance of the shape with the given resource id.
    #[verifier::loop_isolation(false)]
    pub fn remove_shape_rid(&mut self, shape_rid: u64)
        ensures
            *final(self) == (RapierBody { shapes: final(self).shapes, ..*old(self) }),
            final(self).shapes@ == old(self).shapes@.filter(
                |i: RapierShapeInstance| i.shape != shape_rid,
            ),
    {
        let ghost pred = |i: RapierShapeInstance| i.shape != shape_rid;
        let mut kept: Vec<RapierShapeInstance> = Vec::new();
        proof {
            assert(old(self).shapes@.subrange(0, 0).filter(pred)
                =~= Seq::<RapierShapeInstance>::empty()) by {
                reveal(Seq::filter);
                assert(old(self).shapes@.subrange(0, 0) =~= Seq::<RapierShapeInstance>::empty());
            }
        }
        let n = self.shapes.len();
        let mut i: usize = 0;
        while i < n
            invariant
                n == self.shapes.len(),
                i <= n,
                *self == (RapierBody { shapes: self.shapes, ..*old(self) }),
                self.shapes == old(self).shapes,
                kept@ == self.shapes@.subrange(0, i as int).filter(pred),
            decreases n - i,
        {
            let inst = self.shapes[i];
            proof {
                let pre = self.shapes@.subrange(0, i as int);
                let cur = self.shapes@.subrange(0, i + 1 as int);
                assert(cur.drop_last() =~= pre);
                assert(cur.drop_last() == pre);
                assert(cur.last() == inst);
                assert(cur.len() != 0);
                assert(cur.filter(pred) == (if pred(inst) {
                    pre.filter(pred).push(inst)
                } else {
                    pre.filter(pred)
                })) by {
                    reveal(Seq::filter);
                }
                assert(pred(inst) == (inst.shape != shape_rid));
            }
            if inst.shape != shape_rid {
                kept.push(inst);
            }
            i = i + 1;
        }
        proof {
            assert(self.shapes@.subrange(0, n as int) =~= self.shapes@);
        }
        self.shapes = kept;
    }

    /// Replaces the pose and enabled flag of the shape instance at
    /// `index`; an out-of-range index is reported and changes nothing.
    pub fn set_shape(&mut self, index: usize, isometry: Transform, disabled: bool)
        ensures
            index < old(self).shapes@.len() ==> {
                &&& *final(self) == (RapierBody { shapes: final(self).shapes, ..*old(self) })
                &&& final(self).shapes@ == old(self).shapes@.update(
                    index as int,
                    RapierShapeInstance {
                        isometry,
                        disabled,
                        ..old(self).shapes@[index as int]
                    },
                )
            },
            index >= old(self).shapes@.len() ==> *final(self) == old(self).spec_with_diag(),
    {
        if index < self.shapes.len() {
            let shape = self.shapes[index].shape;
            self.shapes.set(index, RapierShapeInstance { shape, isometry, disabled });
        } else {
            self.diags = bump(self.diags);
        }
    }
}

} // verus!
