//! The space: owner of the area arena and of the always-present default
//! area that supplies fallback gravity and damping.
//!
//! The engine world itself (solver, collision detection) is an external
//! collaborator; bodies talk to it through their own engine mirror, and the
//! space here holds only what the reconciliation fold reads.

use vstd::prelude::*;
use crate::area::RapierArea;
use crate::math::{bump, spec_bump, Transform};
use crate::types::{AreaParameter, Variant};

verus! {

/// A simulation space. Area handles are indices into `areas`; a slot is
/// never reused, so a handle stays valid for the life of the space.
pub struct RapierSpace {
    pub areas: Vec<RapierArea>,
    pub default_area: RapierArea,
    /// Count of recoverable faults reported so far (stale handles).
    pub diags: u64,
}

impl RapierSpace {
    pub fn new() -> (s: RapierSpace)
        ensures
            s.areas@.len() == 0,
            s.default_area.spec_is_new(0),
            s.diags == 0,
    {
        RapierSpace { areas: Vec::new(), default_area: RapierArea::new(0), diags: 0 }
    }

    /// The same state with one more diagnostic on record.
    pub open spec fn spec_with_diag(self) -> RapierSpace {
        RapierSpace { diags: spec_bump(self.diags), ..self }
    }

    /// Inserts an area and hands out its handle; the area's engine mirror
    /// is seeded by `RapierArea::set_handle`.
    pub fn add_area(&mut self, area: RapierArea) -> (h: usize)
        ensures
            h == old(self).areas@.len(),
            final(self).areas@.len() == h + 1,
            final(self).areas@[h as int] == (RapierArea {
                handle: Some(h as u64),
                position: crate::math::spec_transform_identity(),
                enabled: true,
                ..area
            }),
            forall|i: int|
                0 <= i < h ==> final(self).areas@[i] == old(self).areas@[i],
            final(self).default_area == old(self).default_area,
            final(self).diags == old(self).diags,
    {
        let h = self.areas.len();
        let mut area = area;
        area.set_handle(h as u64);
        self.areas.push(area);
        h
    }

    pub fn area(&self, handle: usize) -> (a: Option<&RapierArea>)
        ensures
            handle < self.areas@.len() ==> a == Some(&self.areas@[handle as int]),
            handle >= self.areas@.len() ==> a is None,
    {
        if handle < self.areas.len() {
            Some(&self.areas[handle])
        } else {
            None
        }
    }

    /// Forwards a parameter write to the area behind the handle; a stale
    /// handle is reported and changes nothing.
    pub fn area_set_param(&mut self, handle: usize, param: AreaParameter, value: Variant)
        ensures
            handle < old(self).areas@.len() ==> {
                &&& final(self).areas@ == old(self).areas@.update(
                    handle as int,
                    old(self).areas@[handle as int].spec_set_param(param, value),
                )
                &&& final(self).default_area == old(self).default_area
                &&& final(self).diags == old(self).diags
            },
            handle >= old(self).areas@.len() ==> *final(self) == old(self).spec_with_diag(),
    {
        if handle < self.areas.len() {
            let a = &mut self.areas[handle];
            a.set_param(param, value);
        } else {
            self.diags = bump(self.diags);
        }
    }

    /// Forwards a pose write to the area behind the handle; a stale handle
    /// is reported and changes nothing.
    pub fn area_set_transform(&mut self, handle: usize, transform: Transform)
        ensures
            handle < old(self).areas@.len() && old(self).areas@[handle as int].spec_is_attached()
                ==> {
                &&& final(self).areas@ == old(self).areas@.update(
                    handle as int,
                    (RapierArea { position: transform, ..old(self).areas@[handle as int] }),
                )
                &&& final(self).default_area == old(self).default_area
                &&& final(self).diags == old(self).diags
            },
            handle < old(self).areas@.len() && !old(self).areas@[handle as int].spec_is_attached()
                ==> {
                &&& final(self).areas@ == old(self).areas@.update(
                    handle as int,
                    old(self).areas@[handle as int].spec_with_diag(),
                )
                &&& final(self).default_area == old(self).default_area
                &&& final(self).diags == old(self).diags
            },
            handle >= old(self).areas@.len() ==> *final(self) == old(self).spec_with_diag(),
    {
        if handle < self.areas.len() {
            let a = &mut self.areas[handle];
            a.set_transform(transform);
        } else {
            self.diags = bump(self.diags);
        }
    }

    pub fn default_area(&self) -> (a: &RapierArea)
        ensures
            a == &self.default_area,
    {
        &self.default_area
    }

    /// Writes a parameter of the default area, the way project settings
    /// configure the fallback gravity and damping.
    pub fn default_area_set_param(&mut self, param: AreaParameter, value: Variant)
        ensures
            *final(self) == (RapierSpace {
                default_area: old(self).default_area.spec_set_param(param, value),
                ..*old(self)
            }),
    {
        self.default_area.set_param(param, value);
    }
}

} // verus!
