//! Shape geometry: the closed set of shape kinds the binding supports,
//! each owning its geometry data and the list of collision objects
//! mounting it, and the per-object shape instances.

use vstd::prelude::*;
use crate::math::{bump, spec_bump, Transform, Vec3};
use crate::types::ShapeType;

verus! {

/// One shape mounted on a collision object: which shape, where it sits in
/// the object's local frame, and whether it currently collides.
#[derive(Clone, Copy, Debug)]
pub struct RapierShapeInstance {
    /// Resource id of the shape in the shape registry.
    pub shape: u64,
    /// Local pose of the shape within its owner.
    pub isometry: Transform,
    /// A disabled instance keeps its slot but does not collide.
    pub disabled: bool,
}

impl RapierShapeInstance {
    pub fn new(shape: u64, isometry: Transform, disabled: bool) -> (r: RapierShapeInstance)
        ensures
            r.shape == shape,
            r.isometry == isometry,
            r.disabled == disabled,
    {
        RapierShapeInstance { shape, isometry, disabled }
    }
}

/// The geometry payload a shape exchanges with the host: a ball is a
/// radius, a box a vector of half extents, a capsule or cylinder a radius
/// and a full height.
#[derive(Clone, Copy, Debug, PartialEq, Eq, Structural)]
pub enum ShapeData {
    Radius(i64),
    HalfExtents(Vec3),
    RadiusHeight { radius: i64, height: i64 },
}

/// A list of owner ids with every occurrence of `x` dropped.
pub open spec fn spec_without_id(s: Seq<u64>, x: u64) -> Seq<u64> {
    s.filter(|y: u64| y != x)
}

/// Drops every occurrence of `x` from a list of owner ids.
#[verifier::loop_isolation(false)]
fn remove_id(v: &mut Vec<u64>, x: u64)
    ensures
        final(v)@ == spec_without_id(old(v)@, x),
{
    let mut kept: Vec<u64> = Vec::new();
    proof {
        assert(spec_without_id(old(v)@.subrange(0, 0), x) =~= Seq::<u64>::empty()) by {
            reveal(Seq::filter);
            assert(old(v)@.subrange(0, 0) =~= Seq::<u64>::empty());
        }
    }
    let n = v.len();
    let mut i: usize = 0;
    while i < n
        invariant
            n == v@.len(),
            i <= n,
            v@ == old(v)@,
            kept@ == spec_without_id(v@.subrange(0, i as int), x),
        decreases n - i,
    {
        let y = v[i];
        proof {
            let pre = v@.subrange(0, i as int);
            let cur = v@.subrange(0, i + 1 as int);
            assert(cur.drop_last() =~= pre);
            assert(cur.drop_last() == pre);
            assert(cur.last() == y);
            assert(cur.len() != 0);
            assert(spec_without_id(cur, x) == (if y != x {
                spec_without_id(pre, x).push(y)
            } else {
                spec_without_id(pre, x)
            })) by {
                reveal(Seq::filter);
            }
        }
        if y != x {
            kept.push(y);
        }
        i = i + 1;
    }
    proof {
        assert(v@.subrange(0, n as int) =~= v@);
    }
    *v = kept;
}

/// The contract every shape kind meets: it knows its resource id, exposes
/// its geometry as a `ShapeData`, accepts well-formed data back, and keeps
/// the list of owners to notify on geometry change. `set_data` says
/// whether the geometry actually changed, so the registry knows when the
/// owners must rebuild; malformed data is reported and leaves the
/// geometry as it was.
pub trait RapierShape: Sized {
    spec fn spec_rid(&self) -> u64;

    spec fn spec_data(&self) -> ShapeData;

    spec fn spec_accepts(&self, data: ShapeData) -> bool;

    spec fn spec_with_data(&self, data: ShapeData) -> Self;

    spec fn spec_rejected(&self) -> Self;

    spec fn spec_owners(&self) -> Seq<u64>;

    spec fn spec_type(&self) -> ShapeType;

    fn get_type(&self) -> (t: ShapeType)
        ensures
            t == self.spec_type(),
    ;

    fn rid(&self) -> (r: u64)
        ensures
            r == self.spec_rid(),
    ;

    fn get_data(&self) -> (d: ShapeData)
        ensures
            d == self.spec_data(),
    ;

    fn set_data(&mut self, data: ShapeData) -> (changed: bool)
        ensures
            old(self).spec_accepts(data) ==> *final(self) == old(self).spec_with_data(data)
                && changed == (old(self).spec_data() != final(self).spec_data()),
            !old(self).spec_accepts(data) ==> *final(self) == old(self).spec_rejected() && !changed,
    ;

    fn owners(&self) -> (o: &Vec<u64>)
        ensures
            o@ == self.spec_owners(),
    ;

    fn add_owner(&mut self, owner: u64)
        ensures
            final(self).spec_owners() == old(self).spec_owners().push(owner),
            final(self).spec_rid() == old(self).spec_rid(),
            final(self).spec_data() == old(self).spec_data(),
    ;

    fn remove_owner(&mut self, owner: u64)
        ensures
            final(self).spec_owners() == spec_without_id(old(self).spec_owners(), owner),
            final(self).spec_rid() == old(self).spec_rid(),
            final(self).spec_data() == old(self).spec_data(),
    ;
}

/// A ball, given by its radius.
pub struct RapierSphereShape {
    pub radius: i64,
    pub owners: Vec<u64>,
    pub rid: u64,
    pub diags: u64,
}

impl RapierSphereShape {
    /// A new ball of radius 0.5 (in fixed-point units).
    pub fn new(rid: u64) -> (s: RapierSphereShape)
        ensures
            s.rid == rid,
            s.radius == 32768,
            s.owners@ == Seq::<u64>::empty(),
            s.diags == 0,
    {
        RapierSphereShape { radius: 32768, owners: Vec::new(), rid, diags: 0 }
    }
}

impl RapierShape for RapierSphereShape {
    open spec fn spec_rid(&self) -> u64 {
        self.rid
    }

    open spec fn spec_type(&self) -> ShapeType {
        ShapeType::Sphere
    }

    fn get_type(&self) -> ShapeType {
        ShapeType::Sphere
    }

    open spec fn spec_data(&self) -> ShapeData {
        ShapeData::Radius(self.radius)
    }

    open spec fn spec_accepts(&self, data: ShapeData) -> bool {
        data is Radius
    }

    open spec fn spec_with_data(&self, data: ShapeData) -> Self {
        match data {
            ShapeData::Radius(r) => RapierSphereShape { radius: r, ..*self },
            _ => *self,
        }
    }

    open spec fn spec_rejected(&self) -> Self {
        RapierSphereShape { diags: spec_bump(self.diags), ..*self }
    }

    open spec fn spec_owners(&self) -> Seq<u64> {
        self.owners@
    }

    fn rid(&self) -> u64 {
        self.rid
    }

    fn get_data(&self) -> ShapeData {
        ShapeData::Radius(self.radius)
    }

    fn set_data(&mut self, data: ShapeData) -> bool {
        match data {
            ShapeData::Radius(r) => {
                let changed = self.radius != r;
                self.radius = r;
                changed
            },
            _ => {
                self.diags = bump(self.diags);
                false
            },
        }
    }

    fn owners(&self) -> &Vec<u64> {
        &self.owners
    }

    fn add_owner(&mut self, owner: u64) {
        self.owners.push(owner);
    }

    fn remove_owner(&mut self, owner: u64) {
        remove_id(&mut self.owners, owner);
    }
}

/// A box, given by its half extents.
pub struct RapierBoxShape {
    pub half_extents: Vec3,
    pub owners: Vec<u64>,
    pub rid: u64,
    pub diags: u64,
}

impl RapierBoxShape {
    /// A new cube of half extent 0.5 on every axis.
    pub fn new(rid: u64) -> (s: RapierBoxShape)
        ensures
            s.rid == rid,
            s.half_extents == crate::math::v3(32768, 32768, 32768),
            s.owners@ == Seq::<u64>::empty(),
            s.diags == 0,
    {
        RapierBoxShape {
            half_extents: Vec3::new(32768, 32768, 32768),
            owners: Vec::new(),
            rid,
            diags: 0,
        }
    }
}

impl RapierShape for RapierBoxShape {
    open spec fn spec_rid(&self) -> u64 {
        self.rid
    }

    open spec fn spec_type(&self) -> ShapeType {
        ShapeType::Box
    }

    fn get_type(&self) -> ShapeType {
        ShapeType::Box
    }

    open spec fn spec_data(&self) -> ShapeData {
        ShapeData::HalfExtents(self.half_extents)
    }

    open spec fn spec_accepts(&self, data: ShapeData) -> bool {
        data is HalfExtents
    }

    open spec fn spec_with_data(&self, data: ShapeData) -> Self {
        match data {
            ShapeData::HalfExtents(v) => RapierBoxShape { half_extents: v, ..*self },
            _ => *self,
        }
    }

    open spec fn spec_rejected(&self) -> Self {
        RapierBoxShape { diags: spec_bump(self.diags), ..*self }
    }

    open spec fn spec_owners(&self) -> Seq<u64> {
        self.owners@
    }

    fn rid(&self) -> u64 {
        self.rid
    }

    fn get_data(&self) -> ShapeData {
        ShapeData::HalfExtents(self.half_extents)
    }

    fn set_data(&mut self, data: ShapeData) -> bool {
        match data {
            ShapeData::HalfExtents(v) => {
                let changed = !(self.half_extents == v);
                self.half_extents = v;
                changed
            },
            _ => {
                self.diags = bump(self.diags);
                false
            },
        }
    }

    fn owners(&self) -> &Vec<u64> {
        &self.owners
    }

    fn add_owner(&mut self, owner: u64) {
        self.owners.push(owner);
    }

    fn remove_owner(&mut self, owner: u64) {
        remove_id(&mut self.owners, owner);
    }
}

/// A capsule, given by its radius and full height.
pub struct RapierCapsuleShape {
    pub radius: i64,
    pub height: i64,
    pub owners: Vec<u64>,
    pub rid: u64,
    pub diags: u64,
}

impl RapierCapsuleShape {
    /// A new capsule of radius about 0.2 and full height 1.0.
    pub fn new(rid: u64) -> (s: RapierCapsuleShape)
        ensures
            s.rid == rid,
            s.radius == 13107,
            s.height == crate::math::SCALE,
            s.owners@ == Seq::<u64>::empty(),
            s.diags == 0,
    {
        RapierCapsuleShape {
            radius: 13107,
            height: crate::math::SCALE,
            owners: Vec::new(),
            rid,
            diags: 0,
        }
    }
}

impl RapierShape for RapierCapsuleShape {
    open spec fn spec_rid(&self) -> u64 {
        self.rid
    }

    open spec fn spec_type(&self) -> ShapeType {
        ShapeType::Capsule
    }

    fn get_type(&self) -> ShapeType {
        ShapeType::Capsule
    }

    open spec fn spec_data(&self) -> ShapeData {
        ShapeData::RadiusHeight { radius: self.radius, height: self.height }
    }

    open spec fn spec_accepts(&self, data: ShapeData) -> bool {
        data is RadiusHeight
    }

    open spec fn spec_with_data(&self, data: ShapeData) -> Self {
        match data {
            ShapeData::RadiusHeight { radius, height } => RapierCapsuleShape {
                radius,
                height,
                ..*self
            },
            _ => *self,
        }
    }

    open spec fn spec_rejected(&self) -> Self {
        RapierCapsuleShape { diags: spec_bump(self.diags), ..*self }
    }

    open spec fn spec_owners(&self) -> Seq<u64> {
        self.owners@
    }

    fn rid(&self) -> u64 {
        self.rid
    }

    fn get_data(&self) -> ShapeData {
        ShapeData::RadiusHeight { radius: self.radius, height: self.height }
    }

    fn set_data(&mut self, data: ShapeData) -> bool {
        match data {
            ShapeData::RadiusHeight { radius, height } => {
                let changed = self.radius != radius || self.height != height;
                self.radius = radius;
                self.height = height;
                changed
            },
            _ => {
                self.diags = bump(self.diags);
                false
            },
        }
    }

    fn owners(&self) -> &Vec<u64> {
        &self.owners
    }

    fn add_owner(&mut self, owner: u64) {
        self.owners.push(owner);
    }

    fn remove_owner(&mut self, owner: u64) {
        remove_id(&mut self.owners, owner);
    }
}

/// A cylinder, given by its radius and full height.
pub struct RapierCylinderShape {
    pub radius: i64,
    pub height: i64,
    pub owners: Vec<u64>,
    pub rid: u64,
    pub diags: u64,
}

impl RapierCylinderShape {
    /// A new cylinder of radius about 0.2 and full height 1.0.
    pub fn new(rid: u64) -> (s: RapierCylinderShape)
        ensures
            s.rid == rid,
            s.radius == 13107,
            s.height == crate::math::SCALE,
            s.owners@ == Seq::<u64>::empty(),
            s.diags == 0,
    {
        RapierCylinderShape {
            radius: 13107,
            height: crate::math::SCALE,
            owners: Vec::new(),
            rid,
            diags: 0,
        }
    }
}

impl RapierShape for RapierCylinderShape {
    open spec fn spec_rid(&self) -> u64 {
        self.rid
    }

    open spec fn spec_type(&self) -> ShapeType {
        ShapeType::Cylinder
    }

    fn get_type(&self) -> ShapeType {
        ShapeType::Cylinder
    }

    open spec fn spec_data(&self) -> ShapeData {
        ShapeData::RadiusHeight { radius: self.radius, height: self.height }
    }

    open spec fn spec_accepts(&self, data: ShapeData) -> bool {
        data is RadiusHeight
    }

    open spec fn spec_with_data(&self, data: ShapeData) -> Self {
        match data {
            ShapeData::RadiusHeight { radius, height } => RapierCylinderShape {
                radius,
                height,
                ..*self
            },
            _ => *self,
        }
    }

    open spec fn spec_rejected(&self) -> Self {
        RapierCylinderShape { diags: spec_bump(self.diags), ..*self }
    }

    open spec fn spec_owners(&self) -> Seq<u64> {
        self.owners@
    }

    fn rid(&self) -> u64 {
        self.rid
    }

    fn get_data(&self) -> ShapeData {
        ShapeData::RadiusHeight { radius: self.radius, height: self.height }
    }

    fn set_data(&mut self, data: ShapeData) -> bool {
        match data {
            ShapeData::RadiusHeight { radius, height } => {
                let changed = self.radius != radius || self.height != height;
                self.radius = radius;
                self.height = height;
                changed
            },
            _ => {
                self.diags = bump(self.diags);
                false
            },
        }
    }

    fn owners(&self) -> &Vec<u64> {
        &self.owners
    }

    fn add_owner(&mut self, owner: u64) {
        self.owners.push(owner);
    }

    fn remove_owner(&mut self, owner: u64) {
        remove_id(&mut self.owners, owner);
    }
}

} // verus!
