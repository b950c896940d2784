//! A bounding-volume index: an arena of boxes addressed by handles.
use vstd::prelude::*;
use crate::geometry::{Aabb, Vec3};

verus! {

/// Boxes keyed by the handle that `insert` returned, with the last
/// displacement each one was moved by.
pub struct SpatialIndex {
    boxes: Vec<Aabb>,
    motions: Vec<Vec3>,
}

/// The handles, ascending, among the first `n`, whose box overlaps `region`.
pub open spec fn hits(boxes: Seq<Aabb>, region: Aabb, n: nat) -> Seq<usize>
    decreases n,
{
    if n == 0 {
        Seq::empty()
    } else {
        let rest = hits(boxes, region, (n - 1) as nat);
        if boxes[n - 1].overlaps_spec(&region) {
            rest.push((n - 1) as usize)
        } else {
            rest
        }
    }
}

impl SpatialIndex {
    pub closed spec fn boxes(&self) -> Seq<Aabb> {
        self.boxes@
    }

    pub closed spec fn motions(&self) -> Seq<Vec3> {
        self.motions@
    }

    pub open spec fn len(&self) -> nat {
        self.boxes().len()
    }

    pub open spec fn wf(&self) -> bool {
        self.boxes().len() == self.motions().len()
    }

    pub fn new() -> (r: SpatialIndex)
        ensures
            r.wf(),
            r.boxes() == Seq::<Aabb>::empty(),
    {
        SpatialIndex { boxes: Vec::new(), motions: Vec::new() }
    }

    /// Number of boxes held.
    pub fn size(&self) -> (r: usize)
        requires
            self.wf(),
        ensures
            r == self.len(),
    {
        self.boxes.len()
    }

    /// Adds a box at rest and returns its handle.
    pub fn insert(&mut self, b: Aabb) -> (h: usize)
        requires
            old(self).wf(),
        ensures
            final(self).wf(),
            h == old(self).len(),
            final(self).boxes() == old(self).boxes().push(b),
            final(self).motions() == old(self).motions().push(Vec3 { x: 0, y: 0, z: 0 }),
    {
        let h = self.boxes.len();
        self.boxes.push(b);
        self.motions.push(Vec3 { x: 0, y: 0, z: 0 });
        h
    }

    /// Replaces the box of a live handle by `b`, recording that it moved by `delta`.
    pub fn move_obj(&mut self, h: usize, b: Aabb, delta: Vec3)
        requires
            old(self).wf(),
            h < old(self).len(),
        ensures
            final(self).wf(),
            final(self).boxes() == old(self).boxes().update(h as int, b),
            final(self).motions() == old(self).motions().update(h as int, delta),
    {
        self.boxes.set(h, b);
        self.motions.set(h, delta);
    }

    /// The box of a live handle.
    pub fn bounds(&self, h: usize) -> (r: Aabb)
        requires
            self.wf(),
            h < self.len(),
        ensures
            r == self.boxes()[h as int],
    {
        self.boxes[h]
    }

    /// The displacement a live handle was last moved by.
    pub fn motion(&self, h: usize) -> (r: Vec3)
        requires
            self.wf(),
            h < self.len(),
        ensures
            r == self.motions()[h as int],
    {
        self.motions[h]
    }

    /// The handles, ascending, whose box overlaps `region`.
    pub fn query(&self, region: &Aabb) -> (r: Vec<usize>)
        requires
            self.wf(),
        ensures
            r@ == hits(self.boxes(), *region, self.len()),
    {
        let mut r: Vec<usize> = Vec::new();
        let mut k: usize = 0;
        while k < self.boxes.len()
            invariant
                k <= self.boxes@.len(),
                r@ == hits(self.boxes@, *region, k as nat),
            decreases self.boxes@.len() - k,
        {
            if self.boxes[k].overlaps(region) {
                r.push(k);
            }
            k = k + 1;
        }
        r
    }
}

} // verus!
