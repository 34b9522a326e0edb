//! The laws of the reconciliation core, stated and proved once for all
//! inputs: how the override fold composes, what force decomposition
//! induces, and that every parameter and state table reads back what was
//! stored.

use vstd::prelude::*;
use crate::area::RapierArea;
use crate::body::RapierBody;
use crate::math::{
    spec_fp_mul, spec_transform_identity, spec_transform_xform, spec_v3_add, spec_v3_cross,
    spec_v3_scale, spec_v3_sub, v3_zero, Vec3, SCALE,
};
use crate::space::RapierSpace;
use crate::types::{
    spec_damp_mode_from_code, spec_override_mode_from_code, AreaParameter, BodyMode,
    BodyParameter, BodyState, OverrideMode, Variant,
};

verus! {

/// Multiplying a fixed-point scalar by 1.0 gives it back exactly.
pub proof fn lemma_fp_mul_one(x: i64)
    ensures
        spec_fp_mul(SCALE, x) == x,
        spec_fp_mul(x, SCALE) == x,
{
    assert((SCALE as int) * (x as int) == (x as int) * (SCALE as int)) by (nonlinear_arith);
    assert(((x as int) * (SCALE as int)) / (SCALE as int) == x as int) by (nonlinear_arith)
        requires
            SCALE == 65536,
    ;
}

/// Multiplying by a zero scalar gives the zero scalar.
pub proof fn lemma_fp_mul_zero(x: i64)
    ensures
        spec_fp_mul(0, x) == 0,
        spec_fp_mul(x, 0) == 0,
{
    assert((0 as int) * (x as int) == 0) by (nonlinear_arith);
    assert((x as int) * (0 as int) == 0) by (nonlinear_arith);
}

/// The identity pose maps every point to itself.
pub proof fn lemma_xform_identity(v: Vec3)
    ensures
        spec_transform_xform(spec_transform_identity(), v) == v,
{
    lemma_fp_mul_one(v.x);
    lemma_fp_mul_one(v.y);
    lemma_fp_mul_one(v.z);
    lemma_fp_mul_zero(v.x);
    lemma_fp_mul_zero(v.y);
    lemma_fp_mul_zero(v.z);
}

/// A force applied at the center of mass induces no torque: the lever arm
/// `position - com` vanishes when `position == com`, and the cross product
/// with a zero lever arm is the zero vector, whatever the force.
pub proof fn lemma_central_force_no_torque(com: Vec3, force: Vec3)
    ensures
        spec_v3_cross(spec_v3_sub(com, com), force) == v3_zero(),
{
    lemma_fp_mul_zero(force.x);
    lemma_fp_mul_zero(force.y);
    lemma_fp_mul_zero(force.z);
}

/// The values an area's `set_param` stores rather than rejects.
pub open spec fn spec_area_param_accepts(param: AreaParameter, value: Variant) -> bool {
    match param {
        AreaParameter::GravityOverrideMode
        | AreaParameter::LinearDampOverrideMode
        | AreaParameter::AngularDampOverrideMode => match value {
            Variant::Int(c) => spec_override_mode_from_code(c) is Some,
            _ => false,
        },
        AreaParameter::Gravity
        | AreaParameter::GravityPointUnitDistance
        | AreaParameter::LinearDamp
        | AreaParameter::AngularDamp
        | AreaParameter::Priority => value is Int,
        AreaParameter::GravityVector => value is Vector,
        AreaParameter::GravityIsPoint => value is Bool,
        AreaParameter::WindForceMagnitude
        | AreaParameter::WindSource
        | AreaParameter::WindDirection
        | AreaParameter::WindAttenuationFactor => false,
    }
}

/// Round trip: every accepted area parameter reads back exactly the value
/// just set.
pub proof fn lemma_area_param_round_trip(a: RapierArea, param: AreaParameter, value: Variant)
    requires
        spec_area_param_accepts(param, value),
    ensures
        a.spec_set_param(param, value).spec_get_param(param) == value,
{
}

/// The values a body's `set_param` stores rather than rejects.
pub open spec fn spec_body_param_accepts(param: BodyParameter, value: Variant) -> bool {
    match param {
        BodyParameter::Bounce
        | BodyParameter::Friction
        | BodyParameter::GravityScale
        | BodyParameter::LinearDamp
        | BodyParameter::AngularDamp => value is Int,
        BodyParameter::Mass => match value {
            Variant::Int(m) => m > 0,
            _ => false,
        },
        BodyParameter::Inertia => match value {
            Variant::Vector(v) => v.x >= 0 && v.y >= 0 && v.z >= 0,
            _ => false,
        },
        BodyParameter::CenterOfMass => value is Vector,
        BodyParameter::LinearDampMode | BodyParameter::AngularDampMode => match value {
            Variant::Int(c) => spec_damp_mode_from_code(c) is Some,
            _ => false,
        },
    }
}

/// Round trip: every accepted body parameter reads back exactly the value
/// just set. The one engine-derived entry, the center of mass, reads back
/// the custom value through the live pose, so it is stated here for a
/// body whose live pose is the identity.
pub proof fn lemma_body_param_round_trip(b: RapierBody, param: BodyParameter, value: Variant)
    requires
        spec_body_param_accepts(param, value),
        param == BodyParameter::CenterOfMass ==> b.spec_is_attached() && b.spec_eng().position
            == spec_transform_identity(),
    ensures
        b.spec_set_param(param, value).spec_get_param(param) == value,
{
    if param == BodyParameter::CenterOfMass {
        if let Variant::Vector(v) = value {
            lemma_xform_identity(v);
        }
    }
}

/// The values a body's `set_state` stores rather than rejects.
pub open spec fn spec_body_state_accepts(state: BodyState, value: Variant) -> bool {
    match state {
        BodyState::Transform => value is Xform,
        BodyState::LinearVelocity | BodyState::AngularVelocity => value is Vector,
        BodyState::Sleeping | BodyState::CanSleep => value is Bool,
    }
}

/// Round trip: every accepted body state entry reads back exactly the
/// value just set. The pose of an attached kinematic body is the one
/// exception: its `set` retargets the kinematic drive while its `get`
/// reads the live engine pose, which only the kinematic integration moves.
pub proof fn lemma_body_state_round_trip(b: RapierBody, state: BodyState, value: Variant)
    requires
        spec_body_state_accepts(state, value),
        state == BodyState::Transform ==> !(b.body_mode == BodyMode::Kinematic
            && b.spec_is_attached()),
    ensures
        b.spec_set_state(state, value).spec_get_state(state) == value,
{
}

/// The gravity contribution of the area behind the body's `k`-th overlap.
pub open spec fn spec_contrib(b: RapierBody, s: RapierSpace, position: Vec3, k: int) -> Vec3 {
    s.areas@[b.areas@[k] as int].spec_compute_gravity(position)
}

/// The gravity override mode of the area behind the body's `k`-th overlap.
pub open spec fn spec_mode_of(b: RapierBody, s: RapierSpace, k: int) -> OverrideMode {
    s.areas@[b.areas@[k] as int].gravity_mode
}

/// The default area's contribution at a position.
pub open spec fn spec_default_contrib(s: RapierSpace, position: Vec3) -> Vec3 {
    s.default_area.spec_compute_gravity(position)
}

/// A mode that lets the fold continue to the areas after it.
pub open spec fn spec_non_stopping(m: OverrideMode) -> bool {
    m == OverrideMode::Combine || m == OverrideMode::Disabled || m == OverrideMode::ReplaceCombine
}

proof fn lemma_replace_from(b: RapierBody, s: RapierSpace, position: Vec3, k: int, j: int, acc: Vec3)
    requires
        0 <= j <= k < b.areas@.len(),
        spec_mode_of(b, s, k) == OverrideMode::Replace,
        forall|m: int| j <= m < k ==> spec_non_stopping(spec_mode_of(b, s, m)),
    ensures
        b.spec_gravity_rec(s, position, j, acc) == spec_contrib(b, s, position, k),
    decreases k - j,
{
    if j == k {
    } else {
        let a = s.areas@[b.areas@[j] as int];
        let c = a.spec_compute_gravity(position);
        assert(spec_non_stopping(spec_mode_of(b, s, j)));
        match a.gravity_mode {
            OverrideMode::Combine => {
                lemma_replace_from(b, s, position, k, j + 1, spec_v3_add(acc, c));
            },
            OverrideMode::ReplaceCombine => {
                lemma_replace_from(b, s, position, k, j + 1, c);
            },
            OverrideMode::Disabled => {
                lemma_replace_from(b, s, position, k, j + 1, acc);
            },
            _ => {
                assert(false);
            },
        }
    }
}

/// An area in REPLACE mode masks every area after it in iteration order
/// and the default area, whenever the fold reaches it: the total is that
/// one area's contribution alone, scaled by the body's gravity scale.
pub proof fn lemma_replace_masks(b: RapierBody, s: RapierSpace, k: int)
    requires
        0 <= k < b.areas@.len(),
        spec_mode_of(b, s, k) == OverrideMode::Replace,
        forall|m: int| 0 <= m < k ==> spec_non_stopping(spec_mode_of(b, s, m)),
    ensures
        b.spec_total_gravity(s) == spec_v3_scale(
            spec_contrib(b, s, b.spec_transform_value().origin, k),
            b.gravity_scale,
        ),
{
    let position = b.spec_transform_value().origin;
    lemma_replace_from(b, s, position, k, 0, v3_zero());
}

/// The sum of the contributions of the COMBINE areas among overlaps
/// `j .. k`, folded left to right onto `acc`; DISABLED areas add nothing.
pub open spec fn spec_prefix_combine(
    b: RapierBody,
    s: RapierSpace,
    position: Vec3,
    j: int,
    k: int,
    acc: Vec3,
) -> Vec3
    decreases k - j,
{
    if j < 0 || j >= k {
        acc
    } else if spec_mode_of(b, s, j) == OverrideMode::Combine {
        spec_prefix_combine(b, s, position, j + 1, k, spec_v3_add(acc, spec_contrib(b, s, position, j)))
    } else {
        spec_prefix_combine(b, s, position, j + 1, k, acc)
    }
}

proof fn lemma_combine_replace_from(
    b: RapierBody,
    s: RapierSpace,
    position: Vec3,
    k: int,
    j: int,
    acc: Vec3,
)
    requires
        0 <= j <= k < b.areas@.len(),
        spec_mode_of(b, s, k) == OverrideMode::CombineReplace,
        forall|m: int|
            j <= m < k ==> spec_mode_of(b, s, m) == OverrideMode::Combine || spec_mode_of(b, s, m)
                == OverrideMode::Disabled,
    ensures
        b.spec_gravity_rec(s, position, j, acc) == spec_v3_add(
            spec_prefix_combine(b, s, position, j, k, acc),
            spec_contrib(b, s, position, k),
        ),
    decreases k - j,
{
    if j == k {
    } else {
        let a = s.areas@[b.areas@[j] as int];
        let c = a.spec_compute_gravity(position);
        assert(spec_mode_of(b, s, j) == OverrideMode::Combine || spec_mode_of(b, s, j)
            == OverrideMode::Disabled);
        match a.gravity_mode {
            OverrideMode::Combine => {
                lemma_combine_replace_from(b, s, position, k, j + 1, spec_v3_add(acc, c));
            },
            OverrideMode::Disabled => {
                lemma_combine_replace_from(b, s, position, k, j + 1, acc);
            },
            _ => {
                assert(false);
            },
        }
    }
}

/// An area in COMBINE_REPLACE mode includes its own contribution on top of
/// the COMBINE areas before it, then masks every area after it and the
/// default area.
pub proof fn lemma_combine_replace_masks(b: RapierBody, s: RapierSpace, k: int)
    requires
        0 <= k < b.areas@.len(),
        spec_mode_of(b, s, k) == OverrideMode::CombineReplace,
        forall|m: int|
            0 <= m < k ==> spec_mode_of(b, s, m) == OverrideMode::Combine || spec_mode_of(b, s, m)
                == OverrideMode::Disabled,
    ensures
        b.spec_total_gravity(s) == spec_v3_scale(
            spec_v3_add(
                spec_prefix_combine(b, s, b.spec_transform_value().origin, 0, k, v3_zero()),
                spec_contrib(b, s, b.spec_transform_value().origin, k),
            ),
            b.gravity_scale,
        ),
{
    let position = b.spec_transform_value().origin;
    lemma_combine_replace_from(b, s, position, k, 0, v3_zero());
}

proof fn lemma_replace_combine_from(
    b: RapierBody,
    s: RapierSpace,
    position: Vec3,
    k: int,
    j: int,
    acc: Vec3,
)
    requires
        0 <= j <= k < b.areas@.len(),
        spec_mode_of(b, s, k) == OverrideMode::ReplaceCombine,
        forall|m: int| j <= m < k ==> spec_non_stopping(spec_mode_of(b, s, m)),
    ensures
        b.spec_gravity_rec(s, position, j, acc) == b.spec_gravity_rec(
            s,
            position,
            k + 1,
            spec_contrib(b, s, position, k),
        ),
    decreases k - j,
{
    if j == k {
    } else {
        let a = s.areas@[b.areas@[j] as int];
        let c = a.spec_compute_gravity(position);
        assert(spec_non_stopping(spec_mode_of(b, s, j)));
        match a.gravity_mode {
            OverrideMode::Combine => {
                lemma_replace_combine_from(b, s, position, k, j + 1, spec_v3_add(acc, c));
            },
            OverrideMode::ReplaceCombine => {
                lemma_replace_combine_from(b, s, position, k, j + 1, c);
            },
            OverrideMode::Disabled => {
                lemma_replace_combine_from(b, s, position, k, j + 1, acc);
            },
            _ => {
                assert(false);
            },
        }
    }
}

/// An area in REPLACE_COMBINE mode overwrites the running total with its
/// own contribution — discarding everything before it — and the fold then
/// continues through the areas after it as usual.
pub proof fn lemma_replace_combine_restarts(b: RapierBody, s: RapierSpace, k: int)
    requires
        0 <= k < b.areas@.len(),
        spec_mode_of(b, s, k) == OverrideMode::ReplaceCombine,
        forall|m: int| 0 <= m < k ==> spec_non_stopping(spec_mode_of(b, s, m)),
    ensures
        b.spec_total_gravity(s) == spec_v3_scale(
            b.spec_gravity_rec(
                s,
                b.spec_transform_value().origin,
                k + 1,
                spec_contrib(b, s, b.spec_transform_value().origin, k),
            ),
            b.gravity_scale,
        ),
{
    let position = b.spec_transform_value().origin;
    lemma_replace_combine_from(b, s, position, k, 0, v3_zero());
}

/// The plain sum of every overlap's contribution from `j` on, associated
/// to the right.
pub open spec fn spec_contrib_sum(b: RapierBody, s: RapierSpace, position: Vec3, j: int) -> Vec3
    decreases b.areas@.len() - j,
{
    if j < 0 || j >= b.areas@.len() {
        v3_zero()
    } else {
        spec_v3_add(spec_contrib(b, s, position, j), spec_contrib_sum(b, s, position, j + 1))
    }
}

/// Every component of `v` lies within `[-m, m]`.
pub open spec fn spec_v3_bounded(v: Vec3, m: int) -> bool {
    &&& -m <= v.x <= m
    &&& -m <= v.y <= m
    &&& -m <= v.z <= m
}

proof fn lemma_contrib_sum_bounded(b: RapierBody, s: RapierSpace, position: Vec3, j: int, m: int)
    requires
        0 <= m,
        0 <= j <= b.areas@.len(),
        forall|k: int|
            0 <= k < b.areas@.len() ==> spec_v3_bounded(#[trigger] spec_contrib(b, s, position, k), m),
    ensures
        spec_v3_bounded(spec_contrib_sum(b, s, position, j), (b.areas@.len() - j) * m),
    decreases b.areas@.len() - j,
{
    let len = b.areas@.len() as int;
    if j >= len {
        assert((len - j) * m == 0) by (nonlinear_arith)
            requires
                j == len,
        ;
    } else {
        lemma_contrib_sum_bounded(b, s, position, j + 1, m);
        assert((len - j) * m == m + (len - j - 1) * m) by (nonlinear_arith);
        assert(spec_v3_bounded(spec_contrib(b, s, position, j), m));
    }
}

proof fn lemma_combine_from(
    b: RapierBody,
    s: RapierSpace,
    position: Vec3,
    j: int,
    acc: Vec3,
    acc_m: int,
    m: int,
)
    requires
        b.spec_is_attached(),
        0 <= j <= b.areas@.len(),
        forall|k: int| 0 <= k < b.areas@.len() ==> spec_mode_of(b, s, k) == OverrideMode::Combine,
        0 <= m,
        0 <= acc_m,
        acc_m + (b.areas@.len() - j + 1) * m <= i64::MAX,
        forall|k: int|
            0 <= k < b.areas@.len() ==> spec_v3_bounded(#[trigger] spec_contrib(b, s, position, k), m),
        spec_v3_bounded(spec_default_contrib(s, position), m),
        spec_v3_bounded(acc, acc_m),
    ensures
        b.spec_gravity_rec(s, position, j, acc) == spec_v3_add(
            acc,
            spec_v3_add(spec_contrib_sum(b, s, position, j), spec_default_contrib(s, position)),
        ),
    decreases b.areas@.len() - j,
{
    let len = b.areas@.len() as int;
    let d = spec_default_contrib(s, position);
    if j >= len {
        assert(spec_contrib_sum(b, s, position, j) == v3_zero());
        assert((len - j + 1) * m == m) by (nonlinear_arith)
            requires
                j == len,
        ;
        assert(spec_v3_add(v3_zero(), d) == d);
    } else {
        let c = spec_contrib(b, s, position, j);
        assert(spec_mode_of(b, s, j) == OverrideMode::Combine);
        assert(spec_v3_bounded(c, m));
        let acc2 = spec_v3_add(acc, c);
        assert((len - j + 1) * m == m + (len - j) * m) by (nonlinear_arith);
        assert(spec_v3_bounded(acc2, acc_m + m));
        lemma_combine_from(b, s, position, j + 1, acc2, acc_m + m, m);
        lemma_contrib_sum_bounded(b, s, position, j + 1, m);
        assert((len - j - 1) * m + m == (len - j) * m) by (nonlinear_arith);
        let tail = spec_contrib_sum(b, s, position, j + 1);
        assert(spec_v3_bounded(tail, (len - j - 1) * m));
        assert(spec_contrib_sum(b, s, position, j) == spec_v3_add(c, tail));
        assert(spec_v3_add(acc2, spec_v3_add(tail, d)) == spec_v3_add(
            acc,
            spec_v3_add(spec_v3_add(c, tail), d),
        ));
    }
}

/// With every overlapping area in COMBINE mode, the total gravity is the
/// plain sum of each area's contribution plus the default area's, scaled
/// by the body's gravity scale — provided the sums stay inside the
/// representable range (`m` bounds every contribution, and room for all of
/// them is available), so that no saturation intervenes.
pub proof fn lemma_total_gravity_all_combine(b: RapierBody, s: RapierSpace, m: int)
    requires
        b.spec_is_attached(),
        forall|k: int| 0 <= k < b.areas@.len() ==> spec_mode_of(b, s, k) == OverrideMode::Combine,
        0 <= m,
        (b.areas@.len() + 1) * m <= i64::MAX,
        forall|k: int|
            0 <= k < b.areas@.len() ==> spec_v3_bounded(
                #[trigger] spec_contrib(b, s, b.spec_transform_value().origin, k),
                m,
            ),
        spec_v3_bounded(spec_default_contrib(s, b.spec_transform_value().origin), m),
    ensures
        b.spec_total_gravity(s) == spec_v3_scale(
            spec_v3_add(
                spec_contrib_sum(b, s, b.spec_transform_value().origin, 0),
                spec_default_contrib(s, b.spec_transform_value().origin),
            ),
            b.gravity_scale,
        ),
{
    let position = b.spec_transform_value().origin;
    let len = b.areas@.len() as int;
    assert((len - 0 + 1) * m == (len + 1) * m) by (nonlinear_arith);
    lemma_combine_from(b, s, position, 0, v3_zero(), 0, m);
    lemma_contrib_sum_bounded(b, s, position, 0, m);
    let total = spec_v3_add(
        spec_contrib_sum(b, s, position, 0),
        spec_default_contrib(s, position),
    );
    assert(len * m + m == (len + 1) * m) by (nonlinear_arith);
    assert(spec_v3_add(v3_zero(), total) == total);
}

/// Driving a kinematic body is idempotent: once a pre-step has zeroed the
/// velocities and decided on the move command, an identical pre-step with
/// no engine activity in between leaves exactly the same state — in
/// particular, a body whose live pose already equals its target pose never
/// has a move command re-issued.
pub proof fn lemma_kinematic_prestep_idempotent(b: RapierBody)
    requires
        b.spec_is_attached(),
    ensures
        b.spec_kinematic_prestep().spec_kinematic_prestep() == b.spec_kinematic_prestep(),
{
}

} // verus!
