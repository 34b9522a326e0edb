//! Areas: regions that override gravity and damping for the bodies they
//! overlap. An area is a pure state holder; the fold that blends several
//! areas lives with the body.

use vstd::prelude::*;
use crate::math::{
    bump, spec_bump, spec_fp_div, spec_fp_mul, spec_fp_sqrt, spec_transform_xform, spec_v3_dot,
    spec_v3_scale, spec_v3_sub, v3_zero, Transform, Vec3,
};
use crate::math::{fp_div, fp_mul, fp_sqrt};
use crate::shape::RapierShapeInstance;
use crate::types::{AreaParameter, OverrideMode, Variant};

verus! {

/// A gravity/damping override region.
///
/// `handle` is `Some` exactly while the area is inserted in a space; the
/// `position` and `enabled` fields mirror what was last pushed to the
/// engine-side collider and are meaningful only while attached.
pub struct RapierArea {
    pub rid: u64,
    pub handle: Option<u64>,
    pub position: Transform,
    pub enabled: bool,
    pub shapes: Vec<RapierShapeInstance>,
    pub instance_id: Option<u64>,
    pub priority: i64,
    pub gravity: i64,
    pub gravity_vector: Vec3,
    pub is_point_gravity: bool,
    pub point_gravity_distance: i64,
    pub gravity_mode: OverrideMode,
    pub linear_damp: i64,
    pub linear_damp_mode: OverrideMode,
    pub angular_damp: i64,
    pub angular_damp_mode: OverrideMode,
    pub body_monitor_callback: Option<u64>,
    pub area_monitor_callback: Option<u64>,
    pub monitorable: bool,
    /// Count of recoverable faults reported so far (missing engine context,
    /// malformed parameter data, unsupported parameters).
    pub diags: u64,
}

impl RapierArea {
    /// The detached, all-defaults state, with the given resource id.
    pub open spec fn spec_is_new(self, rid: u64) -> bool {
        &&& self.rid == rid
        &&& self.handle is None
        &&& self.position == crate::math::spec_transform_identity()
        &&& self.enabled
        &&& self.shapes@ == Seq::<RapierShapeInstance>::empty()
        &&& self.instance_id is None
        &&& self.priority == 0
        &&& self.gravity == 0
        &&& self.gravity_vector == v3_zero()
        &&& !self.is_point_gravity
        &&& self.point_gravity_distance == 0
        &&& self.gravity_mode == OverrideMode::Disabled
        &&& self.linear_damp == 0
        &&& self.linear_damp_mode == OverrideMode::Disabled
        &&& self.angular_damp == 0
        &&& self.angular_damp_mode == OverrideMode::Disabled
        &&& self.body_monitor_callback is None
        &&& self.area_monitor_callback is None
        &&& !self.monitorable
        &&& self.diags == 0
    }

    pub fn new(rid: u64) -> (a: RapierArea)
        ensures
            a.spec_is_new(rid),
    {
        RapierArea {
            rid,
            handle: None,
            position: Transform::identity(),
            enabled: true,
            shapes: Vec::new(),
            instance_id: None,
            priority: 0,
            gravity: 0,
            gravity_vector: Vec3::zero(),
            is_point_gravity: false,
            point_gravity_distance: 0,
            gravity_mode: OverrideMode::Disabled,
            linear_damp: 0,
            linear_damp_mode: OverrideMode::Disabled,
            angular_damp: 0,
            angular_damp_mode: OverrideMode::Disabled,
            body_monitor_callback: None,
            area_monitor_callback: None,
            monitorable: false,
            diags: 0,
        }
    }

    /// The same state with one more diagnostic on record.
    pub open spec fn spec_with_diag(self) -> RapierArea {
        RapierArea { diags: spec_bump(self.diags), ..self }
    }

    pub open spec fn spec_is_attached(self) -> bool {
        self.handle is Some
    }

    pub fn is_attached(&self) -> (r: bool)
        ensures
            r == self.spec_is_attached(),
    {
        self.handle.is_some()
    }

    pub fn rid(&self) -> (r: u64)
        ensures
            r == self.rid,
    {
        self.rid
    }

    pub fn handle(&self) -> (h: Option<u64>)
        ensures
            h == self.handle,
    {
        self.handle
    }

    /// Records the engine handle the space assigned; the collider mirror
    /// starts at the identity pose, enabled.
    pub fn set_handle(&mut self, handle: u64)
        ensures
            *final(self) == (RapierArea {
                handle: Some(handle),
                position: crate::math::spec_transform_identity(),
                enabled: true,
                ..*old(self)
            }),
    {
        self.handle = Some(handle);
        self.position = Transform::identity();
        self.enabled = true;
    }

    /// Detaches from the space: handle and space reference are dropped
    /// together, so no partial state is observable.
    pub fn remove_space(&mut self)
        ensures
            *final(self) == (RapierArea { handle: None, ..*old(self) }),
    {
        self.handle = None;
    }

    pub fn set_instance_id(&mut self, id: u64)
        ensures
            *final(self) == (RapierArea { instance_id: Some(id), ..*old(self) }),
    {
        self.instance_id = Some(id);
    }

    pub fn instance_id(&self) -> (r: Option<u64>)
        ensures
            r == self.instance_id,
    {
        self.instance_id
    }

    pub fn set_monitorable(&mut self, monitorable: bool)
        ensures
            *final(self) == (RapierArea { monitorable, ..*old(self) }),
    {
        self.monitorable = monitorable;
    }

    pub fn set_body_monitor_callback(&mut self, callback: Option<u64>)
        ensures
            *final(self) == (RapierArea { body_monitor_callback: callback, ..*old(self) }),
    {
        self.body_monitor_callback = callback;
    }

    pub fn set_area_monitor_callback(&mut self, callback: Option<u64>)
        ensures
            *final(self) == (RapierArea { area_monitor_callback: callback, ..*old(self) }),
    {
        self.area_monitor_callback = callback;
    }

    /// Pushes a pose to the engine collider; detached, reports and keeps
    /// everything unchanged.
    pub fn set_transform(&mut self, transform: Transform)
        ensures
            old(self).spec_is_attached() ==> *final(self) == (RapierArea {
                position: transform,
                ..*old(self)
            }),
            !old(self).spec_is_attached() ==> *final(self) == old(self).spec_with_diag(),
    {
        if self.handle.is_some() {
            self.position = transform;
        } else {
            self.diags = bump(self.diags);
        }
    }

    /// Reads the engine collider pose; detached, reports and yields nothing.
    pub fn get_transform(&mut self) -> (t: Option<Transform>)
        ensures
            old(self).spec_is_attached() ==> t == Some(old(self).position) && *final(self)
                == *old(self),
            !old(self).spec_is_attached() ==> t is None && *final(self) == old(
                self,
            ).spec_with_diag(),
    {
        if self.handle.is_some() {
            Some(self.position)
        } else {
            self.diags = bump(self.diags);
            None
        }
    }

    pub fn gravity_mode(&self) -> (m: OverrideMode)
        ensures
            m == self.gravity_mode,
    {
        self.gravity_mode
    }

    pub fn linear_damp_mode(&self) -> (m: OverrideMode)
        ensures
            m == self.linear_damp_mode,
    {
        self.linear_damp_mode
    }

    pub fn angular_damp_mode(&self) -> (m: OverrideMode)
        ensures
            m == self.angular_damp_mode,
    {
        self.angular_damp_mode
    }

    pub fn linear_damp(&self) -> (d: i64)
        ensures
            d == self.linear_damp,
    {
        self.linear_damp
    }

    pub fn angular_damp(&self) -> (d: i64)
        ensures
            d == self.angular_damp,
    {
        self.angular_damp
    }

    pub fn priority(&self) -> (p: i64)
        ensures
            p == self.priority,
    {
        self.priority
    }

    /// The gravity this area contributes at a world position.
    ///
    /// Directional gravity is the direction vector scaled by the magnitude.
    /// Point gravity pulls toward the point `gravity_vector` placed in the
    /// area's frame, with inverse-square falloff once a positive unit
    /// distance is set; a body standing on the point itself feels nothing.
    pub open spec fn spec_compute_gravity(self, position: Vec3) -> Vec3 {
        if !self.is_point_gravity {
            spec_v3_scale(self.gravity_vector, self.gravity)
        } else {
            let center = spec_transform_xform(self.position, self.gravity_vector);
            let d = spec_v3_sub(center, position);
            let d2 = spec_v3_dot(d, d);
            if d2 == 0 {
                v3_zero()
            } else {
                let len = spec_fp_sqrt(d2);
                let strength = if self.point_gravity_distance > 0 {
                    spec_fp_mul(
                        self.gravity,
                        spec_fp_div(
                            spec_fp_mul(self.point_gravity_distance, self.point_gravity_distance),
                            d2,
                        ),
                    )
                } else {
                    self.gravity
                };
                let scaled = spec_v3_scale(d, strength);
                Vec3 {
                    x: spec_fp_div(scaled.x, len),
                    y: spec_fp_div(scaled.y, len),
                    z: spec_fp_div(scaled.z, len),
                }
            }
        }
    }

    pub fn compute_gravity(&self, position: Vec3) -> (g: Vec3)
        ensures
            g == self.spec_compute_gravity(position),
    {
        if !self.is_point_gravity {
            self.gravity_vector.scale(self.gravity)
        } else {
            let center = self.position.xform(self.gravity_vector);
            let d = center.sub(position);
            let d2 = d.dot(d);
            if d2 == 0 {
                Vec3::zero()
            } else {
                let len = fp_sqrt(d2);
                let strength = if self.point_gravity_distance > 0 {
                    fp_mul(
                        self.gravity,
                        fp_div(
                            fp_mul(self.point_gravity_distance, self.point_gravity_distance),
                            d2,
                        ),
                    )
                } else {
                    self.gravity
                };
                let scaled = d.scale(strength);
                Vec3 {
                    x: fp_div(scaled.x, len),
                    y: fp_div(scaled.y, len),
                    z: fp_div(scaled.z, len),
                }
            }
        }
    }

    /// What `get_param` answers for each parameter id. Mode parameters
    /// travel as their integer wire codes; the unsupported wind parameters
    /// read as their fixed defaults.
    pub open spec fn spec_get_param(self, param: AreaParameter) -> Variant {
        match param {
            AreaParameter::GravityOverrideMode => Variant::Int(
                crate::types::spec_override_mode_code(self.gravity_mode),
            ),
            AreaParameter::Gravity => Variant::Int(self.gravity),
            AreaParameter::GravityVector => Variant::Vector(self.gravity_vector),
            AreaParameter::GravityIsPoint => Variant::Bool(self.is_point_gravity),
            AreaParameter::GravityPointUnitDistance => Variant::Int(self.point_gravity_distance),
            AreaParameter::LinearDampOverrideMode => Variant::Int(
                crate::types::spec_override_mode_code(self.linear_damp_mode),
            ),
            AreaParameter::LinearDamp => Variant::Int(self.linear_damp),
            AreaParameter::AngularDampOverrideMode => Variant::Int(
                crate::types::spec_override_mode_code(self.angular_damp_mode),
            ),
            AreaParameter::AngularDamp => Variant::Int(self.angular_damp),
            AreaParameter::Priority => Variant::Int(self.priority),
            AreaParameter::WindForceMagnitude => Variant::Int(0),
            AreaParameter::WindSource => Variant::Vector(v3_zero()),
            AreaParameter::WindDirection => Variant::Vector(v3_zero()),
            AreaParameter::WindAttenuationFactor => Variant::Int(0),
        }
    }

    pub fn get_param(&self, param: AreaParameter) -> (v: Variant)
        ensures
            v == self.spec_get_param(param),
    {
        match param {
            AreaParameter::GravityOverrideMode => Variant::Int(self.gravity_mode.code()),
            AreaParameter::Gravity => Variant::Int(self.gravity),
            AreaParameter::GravityVector => Variant::Vector(self.gravity_vector),
            AreaParameter::GravityIsPoint => Variant::Bool(self.is_point_gravity),
            AreaParameter::GravityPointUnitDistance => Variant::Int(self.point_gravity_distance),
            AreaParameter::LinearDampOverrideMode => Variant::Int(self.linear_damp_mode.code()),
            AreaParameter::LinearDamp => Variant::Int(self.linear_damp),
            AreaParameter::AngularDampOverrideMode => Variant::Int(self.angular_damp_mode.code()),
            AreaParameter::AngularDamp => Variant::Int(self.angular_damp),
            AreaParameter::Priority => Variant::Int(self.priority),
            AreaParameter::WindForceMagnitude => Variant::Int(0),
            AreaParameter::WindSource => Variant::Vector(Vec3::zero()),
            AreaParameter::WindDirection => Variant::Vector(Vec3::zero()),
            AreaParameter::WindAttenuationFactor => Variant::Int(0),
        }
    }

    /// What `set_param` leaves behind: the field replaced on a well-typed
    /// value, and otherwise — a value of the wrong kind, an unknown mode
    /// code, or an unsupported wind parameter — one diagnostic and no other
    /// change.
    pub open spec fn spec_set_param(self, param: AreaParameter, value: Variant) -> RapierArea {
        match param {
            AreaParameter::GravityOverrideMode => match value {
                Variant::Int(c) => match crate::types::spec_override_mode_from_code(c) {
                    Some(m) => RapierArea { gravity_mode: m, ..self },
                    None => self.spec_with_diag(),
                },
                _ => self.spec_with_diag(),
            },
            AreaParameter::Gravity => match value {
                Variant::Int(g) => RapierArea { gravity: g, ..self },
                _ => self.spec_with_diag(),
            },
            AreaParameter::GravityVector => match value {
                Variant::Vector(v) => RapierArea { gravity_vector: v, ..self },
                _ => self.spec_with_diag(),
            },
            AreaParameter::GravityIsPoint => match value {
                Variant::Bool(b) => RapierArea { is_point_gravity: b, ..self },
                _ => self.spec_with_diag(),
            },
            AreaParameter::GravityPointUnitDistance => match value {
                Variant::Int(d) => RapierArea { point_gravity_distance: d, ..self },
                _ => self.spec_with_diag(),
            },
            AreaParameter::LinearDampOverrideMode => match value {
                Variant::Int(c) => match crate::types::spec_override_mode_from_code(c) {
                    Some(m) => RapierArea { linear_damp_mode: m, ..self },
                    None => self.spec_with_diag(),
                },
                _ => self.spec_with_diag(),
            },
            AreaParameter::LinearDamp => match value {
                Variant::Int(d) => RapierArea { linear_damp: d, ..self },
                _ => self.spec_with_diag(),
            },
            AreaParameter::AngularDampOverrideMode => match value {
                Variant::Int(c) => match crate::types::spec_override_mode_from_code(c) {
                    Some(m) => RapierArea { angular_damp_mode: m, ..self },
                    None => self.spec_with_diag(),
                },
                _ => self.spec_with_diag(),
            },
            AreaParameter::AngularDamp => match value {
                Variant::Int(d) => RapierArea { angular_damp: d, ..self },
                _ => self.spec_with_diag(),
            },
            AreaParameter::Priority => match value {
                Variant::Int(p) => RapierArea { priority: p, ..self },
                _ => self.spec_with_diag(),
            },
            AreaParameter::WindForceMagnitude => self.spec_with_diag(),
            AreaParameter::WindSource => self.spec_with_diag(),
            AreaParameter::WindDirection => self.spec_with_diag(),
            AreaParameter::WindAttenuationFactor => self.spec_with_diag(),
        }
    }

    pub fn set_param(&mut self, param: AreaParameter, value: Variant)
        ensures
            *final(self) == old(self).spec_set_param(param, value),
    {
        match param {
            AreaParameter::GravityOverrideMode => {
                match value {
                    Variant::Int(c) => match OverrideMode::from_code(c) {
                        Some(m) => {
                            self.gravity_mode = m;
                        },
                        None => {
                            self.diags = bump(self.diags);
                        },
                    },
                    _ => {
                        self.diags = bump(self.diags);
                    },
                }
            },
            AreaParameter::Gravity => {
                match value {
                    Variant::Int(g) => {
                        self.gravity = g;
                    },
                    _ => {
                        self.diags = bump(self.diags);
                    },
                }
            },
            AreaParameter::GravityVector => {
                match value {
                    Variant::Vector(v) => {
                        self.gravity_vector = v;
                    },
                    _ => {
                        self.diags = bump(self.diags);
                    },
                }
            },
            AreaParameter::GravityIsPoint => {
                match value {
                    Variant::Bool(b) => {
                        self.is_point_gravity = b;
                    },
                    _ => {
                        self.diags = bump(self.diags);
                    },
                }
            },
            AreaParameter::GravityPointUnitDistance => {
                match value {
                    Variant::Int(d) => {
                        self.point_gravity_distance = d;
                    },
                    _ => {
                        self.diags = bump(self.diags);
                    },
                }
            },
            AreaParameter::LinearDampOverrideMode => {
                match value {
                    Variant::Int(c) => match OverrideMode::from_code(c) {
                        Some(m) => {
                            self.linear_damp_mode = m;
                        },
                        None => {
                            self.diags = bump(self.diags);
                        },
                    },
                    _ => {
                        self.diags = bump(self.diags);
                    },
                }
            },
            AreaParameter::LinearDamp => {
                match value {
                    Variant::Int(d) => {
                        self.linear_damp = d;
                    },
                    _ => {
                        self.diags = bump(self.diags);
                    },
                }
            },
            AreaParameter::AngularDampOverrideMode => {
                match value {
                    Variant::Int(c) => match OverrideMode::from_code(c) {
                        Some(m) => {
                            self.angular_damp_mode = m;
                        },
                        None => {
                            self.diags = bump(self.diags);
                        },
                    },
                    _ => {
                        self.diags = bump(self.diags);
                    },
                }
            },
            AreaParameter::AngularDamp => {
                match value {
                    Variant::Int(d) => {
                        self.angular_damp = d;
                    },
                    _ => {
                        self.diags = bump(self.diags);
                    },
                }
            },
            AreaParameter::Priority => {
                match value {
                    Variant::Int(p) => {
                        self.priority = p;
                    },
                    _ => {
                        self.diags = bump(self.diags);
                    },
                }
            },
            AreaParameter::WindForceMagnitude => {
                self.diags = bump(self.diags);
            },
            AreaParameter::WindSource => {
                self.diags = bump(self.diags);
            },
            AreaParameter::WindDirection => {
                self.diags = bump(self.diags);
            },
            AreaParameter::WindAttenuationFactor => {
                self.diags = bump(self.diags);
            },
        }
    }
    pub fn shapes(&self) -> (s: &Vec<RapierShapeInstance>)
        ensures
            s == &self.shapes,
    {
        &self.shapes
    }

    /// Mounts one more shape instance at the end of the list.
    pub fn add_shape(&mut self, instance: RapierShapeInstance)
        ensures
            *final(self) == (RapierArea { shapes: final(self).shapes, ..*old(self) }),
            final(self).shapes@ == old(self).shapes@.push(instance),
    {
        self.shapes.push(instance);
    }

    /// Unmounts every instance of the shape with the given resource id.
    #[verifier::loop_isolation(false)]
    pub fn remove_shape_rid(&mut self, shape_rid: u64)
        ensures
            *final(self) == (RapierArea { shapes: final(self).shapes, ..*old(self) }),
            final(self).shapes@ == old(self).shapes@.filter(|inst0: RapierShapeInstance| inst0.shape != shape_rid),
    {
        let ghost pred = |inst0: RapierShapeInstance| inst0.shape != shape_rid;
        let mut kept: Vec<RapierShapeInstance> = Vec::new();
        proof {
            assert(old(self).shapes@.subrange(0, 0).filter(pred) =~= Seq::<RapierShapeInstance>::empty()) by {
                reveal(Seq::filter);
                assert(old(self).shapes@.subrange(0, 0) =~= Seq::<RapierShapeInstance>::empty());
            }
        }
        let n = self.shapes.len();
        let mut i: usize = 0;
        while i < n
            invariant
                n == self.shapes.len(),
                i <= n,
                *self == (RapierArea { shapes: self.shapes, ..*old(self) }),
                self.shapes == old(self).shapes,
                kept@ == self.shapes@.subrange(0, i as int).filter(pred),
            decreases n - i,
        {
            let inst = self.shapes[i];
            proof {
                let pre = self.shapes@.subrange(0, i as int);
                let cur = self.shapes@.subrange(0, i + 1 as int);
                assert(cur.drop_last() =~= pre);
                assert(cur.drop_last() == pre);
                assert(cur.last() == inst);
                assert(cur.len() != 0);
                assert(cur.filter(pred) == (if pred(inst) {
                    pre.filter(pred).push(inst)
                } else {
                    pre.filter(pred)
                })) by {
                    reveal(Seq::filter);
                }
                assert(pred(inst) == (inst.shape != shape_rid));
            }
            if inst.shape != shape_rid {
                kept.push(inst);
            }
            i = i + 1;
        }
        proof {
            assert(self.shapes@.subrange(0, n as int) =~= self.shapes@);
        }
        self.shapes = kept;
    }

    /// Replaces the pose and enabled flag of the shape instance at `index`;
    /// an out-of-range index is reported and changes nothing.
    pub fn set_shape(&mut self, index: usize, isometry: Transform, disabled: bool)
        ensures
            index < old(self).shapes@.len() ==> {
                &&& *final(self) == (RapierArea { shapes: final(self).shapes, ..*old(self) })
                &&& final(self).shapes@ == old(self).shapes@.update(
                    index as int,
                    RapierShapeInstance {
                        isometry,
                        disabled,
                        ..old(self).shapes@[index as int]
                    },
                )
            },
            index >= old(self).shapes@.len() ==> *final(self) == old(self).spec_with_diag(),
    {
        if index < self.shapes.len() {
            let shape = self.shapes[index].shape;
            self.shapes.set(index, RapierShapeInstance { shape, isometry, disabled });
        } else {
            self.diags = bump(self.diags);
        }
    }

    /// Whether any mounted instance still collides.
    pub open spec fn spec_any_enabled(shapes: Seq<RapierShapeInstance>) -> bool {
        exists|i: int| 0 <= i < shapes.len() && !shapes[i].disabled
    }

    /// Rebuilds the engine-side collider from the shape list: with no
    /// enabled instance left the collider is switched off, otherwise its
    /// enabled state is kept. Detached, reports and changes nothing.
    pub fn update_shapes(&mut self)
        ensures
            old(self).spec_is_attached() ==> *final(self) == (RapierArea {
                enabled: old(self).enabled && Self::spec_any_enabled(old(self).shapes@),
                ..*old(self)
            }),
            !old(self).spec_is_attached() ==> *final(self) == old(self).spec_with_diag(),
    {
        if self.handle.is_none() {
            self.diags = bump(self.diags);
            return;
        }
        let n = self.shapes.len();
        let mut any: bool = false;
        let mut i: usize = 0;
        while i < n
            invariant
                n == self.shapes.len(),
                i <= n,
                any == (exists|j: int| 0 <= j < i && !self.shapes@[j].disabled),
            decreases n - i,
        {
            if !self.shapes[i].disabled {
                any = true;
            }
            i = i + 1;
        }
        self.enabled = self.enabled && any;
    }
}

/// The all-defaults area, carrying the reserved invalid resource id.
impl Default for RapierArea {
    fn default() -> (a: RapierArea)
        ensures
            a.spec_is_new(0),
    {
        RapierArea::new(0)
    }
}

} // verus!
