//! Fixed-point vectors and axis-aligned boxes.
use vstd::prelude::*;

verus! {

/// Largest orbital radius, and largest body radius, in length units.
pub const MAX_LENGTH: u64 = 1_099_511_627_776;

/// A point or displacement in space, in length units.
#[derive(Clone, Copy, Debug, PartialEq, Eq, Structural)]
pub struct Vec3 {
    pub x: i64,
    pub y: i64,
    pub z: i64,
}

/// An axis-aligned bounding box, from its least corner to its greatest.
#[derive(Clone, Copy, Debug, PartialEq, Eq, Structural)]
pub struct Aabb {
    pub min: Vec3,
    pub max: Vec3,
}

impl Vec3 {
    pub open spec fn view(&self) -> (int, int, int) {
        (self.x as int, self.y as int, self.z as int)
    }

    /// Every coordinate lies within `[-bound, bound]`.
    pub open spec fn within(&self, bound: int) -> bool {
        &&& -bound <= self.x <= bound
        &&& -bound <= self.y <= bound
        &&& -bound <= self.z <= bound
    }

    pub fn origin() -> (r: Vec3)
        ensures
            r@ == (0int, 0int, 0int),
    {
        Vec3 { x: 0, y: 0, z: 0 }
    }

    pub fn new(x: i64, y: i64, z: i64) -> (r: Vec3)
        ensures
            r@ == (x as int, y as int, z as int),
    {
        Vec3 { x, y, z }
    }

    /// The sum of two vectors whose coordinates are small enough to add.
    pub fn plus(&self, o: &Vec3) -> (r: Vec3)
        requires
            self.within(4 * MAX_LENGTH),
            o.within(4 * MAX_LENGTH),
        ensures
            r@ == add3(self@, o@),
    {
        Vec3 { x: self.x + o.x, y: self.y + o.y, z: self.z + o.z }
    }

    /// The difference of two vectors whose coordinates are small enough to subtract.
    pub fn minus(&self, o: &Vec3) -> (r: Vec3)
        requires
            self.within(4 * MAX_LENGTH),
            o.within(4 * MAX_LENGTH),
        ensures
            r@ == sub3(self@, o@),
    {
        Vec3 { x: self.x - o.x, y: self.y - o.y, z: self.z - o.z }
    }
}

pub open spec fn add3(a: (int, int, int), b: (int, int, int)) -> (int, int, int) {
    (a.0 + b.0, a.1 + b.1, a.2 + b.2)
}

pub open spec fn sub3(a: (int, int, int), b: (int, int, int)) -> (int, int, int) {
    (a.0 - b.0, a.1 - b.1, a.2 - b.2)
}

/// The cube of half-side `r` centred on `c`.
pub open spec fn cube_around(c: (int, int, int), r: int) -> ((int, int, int), (int, int, int)) {
    ((c.0 - r, c.1 - r, c.2 - r), (c.0 + r, c.1 + r, c.2 + r))
}

impl Aabb {
    pub open spec fn view(&self) -> ((int, int, int), (int, int, int)) {
        (self.min@, self.max@)
    }

    /// The box bounding a sphere of radius `radius` centred on `centre`.
    pub fn around(centre: &Vec3, radius: u64) -> (r: Aabb)
        requires
            centre.within(4 * MAX_LENGTH),
            radius <= MAX_LENGTH,
        ensures
            r@ == cube_around(centre@, radius as int),
    {
        let d = radius as i64;
        Aabb {
            min: Vec3 { x: centre.x - d, y: centre.y - d, z: centre.z - d },
            max: Vec3 { x: centre.x + d, y: centre.y + d, z: centre.z + d },
        }
    }

    /// Whether two closed boxes share at least one point.
    pub open spec fn overlaps_spec(&self, o: &Aabb) -> bool {
        &&& self.min.x <= o.max.x && o.min.x <= self.max.x
        &&& self.min.y <= o.max.y && o.min.y <= self.max.y
        &&& self.min.z <= o.max.z && o.min.z <= self.max.z
    }

    pub fn overlaps(&self, o: &Aabb) -> (r: bool)
        ensures
            r == self.overlaps_spec(o),
    {
        self.min.x <= o.max.x && o.min.x <= self.max.x && self.min.y <= o.max.y && o.min.y
            <= self.max.y && self.min.z <= o.max.z && o.min.z <= self.max.z
    }
}

} // verus!
