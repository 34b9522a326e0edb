//! The enumerated ids and the tagged parameter value that the host passes
//! through the server boundary.

use vstd::prelude::*;
use crate::math::{Transform, Vec3};

verus! {

/// How a body is driven by the simulation.
#[derive(Clone, Copy, Debug, PartialEq, Eq, Structural)]
pub enum BodyMode {
    Static,
    Kinematic,
    Rigid,
    RigidLinear,
}

/// How a body's own damp value blends with the area-resolved damp.
#[derive(Clone, Copy, Debug, PartialEq, Eq, Structural)]
pub enum DampMode {
    Combine,
    Replace,
}

pub open spec fn spec_damp_mode_code(m: DampMode) -> i64 {
    match m {
        DampMode::Combine => 0,
        DampMode::Replace => 1,
    }
}

pub open spec fn spec_damp_mode_from_code(c: i64) -> Option<DampMode> {
    if c == 0 {
        Some(DampMode::Combine)
    } else if c == 1 {
        Some(DampMode::Replace)
    } else {
        None
    }
}

impl DampMode {
    pub fn code(self) -> (c: i64)
        ensures
            c == spec_damp_mode_code(self),
    {
        match self {
            DampMode::Combine => 0,
            DampMode::Replace => 1,
        }
    }

    pub fn from_code(c: i64) -> (m: Option<DampMode>)
        ensures
            m == spec_damp_mode_from_code(c),
    {
        if c == 0 {
            Some(DampMode::Combine)
        } else if c == 1 {
            Some(DampMode::Replace)
        } else {
            None
        }
    }
}

/// How an area's gravity or damp field blends with the fields of the areas
/// after it and with the space default.
#[derive(Clone, Copy, Debug, PartialEq, Eq, Structural)]
pub enum OverrideMode {
    Disabled,
    Combine,
    CombineReplace,
    Replace,
    ReplaceCombine,
}

pub open spec fn spec_override_mode_code(m: OverrideMode) -> i64 {
    match m {
        OverrideMode::Disabled => 0,
        OverrideMode::Combine => 1,
        OverrideMode::CombineReplace => 2,
        OverrideMode::Replace => 3,
        OverrideMode::ReplaceCombine => 4,
    }
}

pub open spec fn spec_override_mode_from_code(c: i64) -> Option<OverrideMode> {
    if c == 0 {
        Some(OverrideMode::Disabled)
    } else if c == 1 {
        Some(OverrideMode::Combine)
    } else if c == 2 {
        Some(OverrideMode::CombineReplace)
    } else if c == 3 {
        Some(OverrideMode::Replace)
    } else if c == 4 {
        Some(OverrideMode::ReplaceCombine)
    } else {
        None
    }
}

impl OverrideMode {
    pub fn code(self) -> (c: i64)
        ensures
            c == spec_override_mode_code(self),
    {
        match self {
            OverrideMode::Disabled => 0,
            OverrideMode::Combine => 1,
            OverrideMode::CombineReplace => 2,
            OverrideMode::Replace => 3,
            OverrideMode::ReplaceCombine => 4,
        }
    }

    pub fn from_code(c: i64) -> (m: Option<OverrideMode>)
        ensures
            m == spec_override_mode_from_code(c),
    {
        if c == 0 {
            Some(OverrideMode::Disabled)
        } else if c == 1 {
            Some(OverrideMode::Combine)
        } else if c == 2 {
            Some(OverrideMode::CombineReplace)
        } else if c == 3 {
            Some(OverrideMode::Replace)
        } else if c == 4 {
            Some(OverrideMode::ReplaceCombine)
        } else {
            None
        }
    }
}

/// The per-body parameters the host can get and set.
#[derive(Clone, Copy, Debug, PartialEq, Eq, Structural)]
pub enum BodyParameter {
    Bounce,
    Friction,
    Mass,
    Inertia,
    CenterOfMass,
    GravityScale,
    LinearDampMode,
    AngularDampMode,
    LinearDamp,
    AngularDamp,
}

/// The per-body state entries the host can get and set.
#[derive(Clone, Copy, Debug, PartialEq, Eq, Structural)]
pub enum BodyState {
    Transform,
    LinearVelocity,
    AngularVelocity,
    Sleeping,
    CanSleep,
}

/// The per-area parameters the host can get and set.
#[derive(Clone, Copy, Debug, PartialEq, Eq, Structural)]
pub enum AreaParameter {
    GravityOverrideMode,
    Gravity,
    GravityVector,
    GravityIsPoint,
    GravityPointUnitDistance,
    LinearDampOverrideMode,
    LinearDamp,
    AngularDampOverrideMode,
    AngularDamp,
    Priority,
    WindForceMagnitude,
    WindSource,
    WindDirection,
    WindAttenuationFactor,
}

/// The closed set of shape kinds the binding supports.
#[derive(Clone, Copy, Debug, PartialEq, Eq, Structural)]
pub enum ShapeType {
    Sphere,
    Box,
    Capsule,
    Cylinder,
}

/// A dynamically typed host value. Mode parameters travel as their integer
/// wire codes, scalars as fixed-point integers.
#[derive(Clone, Copy, Debug, PartialEq, Eq, Structural)]
pub enum Variant {
    Nil,
    Bool(bool),
    Int(i64),
    Vector(Vec3),
    Xform(Transform),
}

} // verus!
