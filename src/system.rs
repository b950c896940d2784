//! The body registry and the tiered orbit updater, which keeps a spatial
//! index in step with the bodies it moves.
use vstd::prelude::*;
use crate::geometry::{Aabb, Vec3, MAX_LENGTH, add3, cube_around, sub3};
use crate::orbit::{
    DirTable, OrbitClock, SPIN_PHASE, TURN, phase, phase_of, scale_by, scale_length,
    spin_angle,
};
use crate::spatial::SpatialIndex;

verus! {

/// Deepest tier: 0 for a star, 1 for a planet, 2 for a moon.
pub const MAX_TIER: u32 = 2;

/// A celestial body (star, planet or moon): its orbital parameters and the
/// position and spin last resolved for it.
#[derive(Clone, Copy, Debug, PartialEq, Eq, Structural)]
pub struct Planet {
    /// Index of the body in its system.
    pub id: usize,
    /// The body it orbits; a star is its own parent.
    pub parent_planet_id: usize,
    /// Rank in the hierarchy: one more than the parent's, 0 for a star.
    pub tier: u32,
    /// Visual radius, in length units.
    pub body_radius: u64,
    /// Distance from the parent, in length units.
    pub orbital_radius: u64,
    /// Time of one orbit, in period units; 0 for none, negative for retrograde.
    pub orbital_period: i64,
    /// Time of one spin, in period units; 0 for none, negative for retrograde.
    pub day_period: i64,
    /// Static axial tilt, in angle units.
    pub tilt: i64,
    /// Resolved position, in length units.
    pub position: Vec3,
    /// Resolved spin, in angle units.
    pub rotation: u64,
    /// Handle of the body's box in the spatial index.
    pub spatial_handle: usize,
}

/// Why a body was refused at scene construction.
#[derive(Clone, Copy, Debug, PartialEq, Eq, Structural)]
pub enum SceneError {
    /// The body radius is 0 or above `MAX_LENGTH`.
    BodyRadius,
    /// The orbital radius is above `MAX_LENGTH`.
    OrbitalRadius,
    /// The parent is not in the system.
    UnknownParent,
    /// The tier is not one more than the parent's, or a star names a parent.
    TierMismatch,
    /// The tier is above `MAX_TIER`.
    TooDeep,
}

/// The orbital parameters of a body, as given at construction.
#[derive(Clone, Copy, Debug, PartialEq, Eq, Structural)]
pub struct BodyParams {
    pub parent_planet_id: usize,
    pub tier: u32,
    pub body_radius: u64,
    pub orbital_radius: u64,
    pub orbital_period: i64,
    pub day_period: i64,
    pub tilt: i64,
}

/// Bodies and the spatial index that holds their boxes, built and dropped together.
pub struct StarSystem {
    bodies: Vec<Planet>,
    index: SpatialIndex,
    clock: OrbitClock,
    table: DirTable,
}

/// The error, if any, of adding a body with these parameters to `bodies`.
pub open spec fn add_error(bodies: Seq<Planet>, p: BodyParams) -> Option<SceneError> {
    let n = bodies.len() as int;
    let parent = p.parent_planet_id as int;
    if p.body_radius == 0 || p.body_radius > MAX_LENGTH {
        Some(SceneError::BodyRadius)
    } else if p.orbital_radius > MAX_LENGTH {
        Some(SceneError::OrbitalRadius)
    } else if parent > n || (parent == n && p.tier != 0) {
        Some(SceneError::UnknownParent)
    } else if (p.tier == 0 && parent != n) || (p.tier != 0 && bodies[parent].tier + 1 != p.tier) {
        Some(SceneError::TierMismatch)
    } else if p.tier > MAX_TIER {
        Some(SceneError::TooDeep)
    } else {
        None
    }
}

/// The parameters a body was built from.
pub open spec fn params_of(b: Planet) -> BodyParams {
    BodyParams {
        parent_planet_id: b.parent_planet_id,
        tier: b.tier,
        body_radius: b.body_radius,
        orbital_radius: b.orbital_radius,
        orbital_period: b.orbital_period,
        day_period: b.day_period,
        tilt: b.tilt,
    }
}

/// The parameters of each of `bodies`, in order.
pub open spec fn exported(bodies: Seq<Planet>) -> Seq<BodyParams> {
    bodies.map_values(|b: Planet| params_of(b))
}

/// The same body, with possibly another resolved position and spin.
pub open spec fn same_body(a: Planet, b: Planet) -> bool {
    &&& params_of(a) == params_of(b)
    &&& a.id == b.id
    &&& a.spatial_handle == b.spatial_handle
}

/// The body that `Planet::new` makes of `p` as the `i`-th: at the origin, unspun.
pub open spec fn fresh_body(p: BodyParams, i: int) -> Planet {
    Planet {
        id: i as usize,
        parent_planet_id: p.parent_planet_id,
        tier: p.tier,
        body_radius: p.body_radius,
        orbital_radius: p.orbital_radius,
        orbital_period: p.orbital_period,
        day_period: p.day_period,
        tilt: p.tilt,
        position: Vec3 { x: 0, y: 0, z: 0 },
        rotation: 0,
        spatial_handle: i as usize,
    }
}

/// The bodies that adding each of `ps` in order makes.
pub open spec fn fresh(ps: Seq<BodyParams>) -> Seq<Planet> {
    Seq::new(ps.len(), |i: int| fresh_body(ps[i], i))
}

/// The `k`-th of `ps` is accepted after the ones before it.
pub open spec fn accepted(ps: Seq<BodyParams>, k: int) -> bool {
    add_error(fresh(ps.take(k)), ps[k]) is None
}

/// Body `i` is consistent with its parent, its bounds and its box.
pub open spec fn body_ok(bodies: Seq<Planet>, boxes: Seq<Aabb>, i: int) -> bool {
    let b = bodies[i];
    let p = b.parent_planet_id as int;
    &&& b.id == i
    &&& b.spatial_handle == i
    &&& 0 < b.body_radius <= MAX_LENGTH
    &&& b.orbital_radius <= MAX_LENGTH
    &&& b.tier <= MAX_TIER
    &&& b.tier == 0 ==> p == i
    &&& b.tier != 0 ==> 0 <= p < i && bodies[p].tier + 1 == b.tier
    &&& b.position.within(b.tier * MAX_LENGTH)
    &&& b.rotation < TURN
    &&& b.day_period == 0 ==> b.rotation == 0
    &&& boxes[i]@ == cube_around(b.position@, b.body_radius as int)
}

/// Where the orbit of `b` puts it relative to its parent at time `t`.
pub open spec fn orbit_offset(b: Planet, clock: OrbitClock, table: DirTable, t: int) -> (
    int,
    int,
    int,
) {
    if b.orbital_period == 0 {
        (0, 0, 0)
    } else {
        let d = table.dirs()[phase(t, clock, b.orbital_period as int, table.dirs().len() as int)];
        (scale_by(b.orbital_radius as int, d.x as int), scale_by(b.orbital_radius as int, d.y as int), 0)
    }
}

/// The position of body `i` at time `t`, given its parent's current position.
pub open spec fn placed(bodies: Seq<Planet>, i: int, clock: OrbitClock, table: DirTable, t: int) -> (
    int,
    int,
    int,
) {
    let b = bodies[i];
    if b.tier == 0 {
        (0, 0, 0)
    } else {
        add3(bodies[b.parent_planet_id as int].position@, orbit_offset(b, clock, table, t))
    }
}

/// The spin of `b` at time `t`: frozen when its day period is 0.
pub open spec fn spun(b: Planet, clock: OrbitClock, t: int) -> int {
    if b.day_period == 0 {
        b.rotation as int
    } else {
        spin_angle(t, clock, b.day_period as int)
    }
}

/// The position of body `i` at time `t` with every ancestor resolved for `t`
/// first: the origin for a star, else the parent's resolved position plus
/// the orbital offset.
pub open spec fn resolved(bodies: Seq<Planet>, i: int, clock: OrbitClock, table: DirTable, t: int) -> (
    int,
    int,
    int,
)
    decreases bodies[i].tier,
{
    let b = bodies[i];
    let p = b.parent_planet_id as int;
    if b.tier == 0 || !(0 <= p < bodies.len()) || bodies[p].tier >= b.tier {
        (0, 0, 0)
    } else {
        add3(resolved(bodies, p, clock, table, t), orbit_offset(b, clock, table, t))
    }
}

/// `new` is `old` after one tier pass at time `t`: each body of that tier
/// placed from its parent as the parent stands, the others untouched.
pub open spec fn tier_result(
    old: Seq<Planet>,
    new: Seq<Planet>,
    clock: OrbitClock,
    table: DirTable,
    t: int,
    tier: u32,
) -> bool {
    &&& new.len() == old.len()
    &&& forall|i: int|
        0 <= i < old.len() ==> {
            &&& same_body(#[trigger] new[i], old[i])
            &&& if old[i].tier == tier {
                &&& new[i].position@ == placed(old, i, clock, table, t)
                &&& new[i].rotation == spun(old[i], clock, t)
            } else {
                new[i] == old[i]
            }
        }
}

/// The index motions after bodies went from `old` to `new`: each body that
/// moved was moved by its displacement, the others kept their last motion.
pub open spec fn motions_follow(
    old: Seq<Planet>,
    new: Seq<Planet>,
    old_motions: Seq<Vec3>,
    new_motions: Seq<Vec3>,
) -> bool {
    &&& new_motions.len() == old_motions.len()
    &&& forall|i: int|
        0 <= i < old.len() ==> if (#[trigger] new[i]).position != old[i].position {
            new_motions[i]@ == sub3(new[i].position@, old[i].position@)
        } else {
            new_motions[i] == old_motions[i]
        }
}

/// `new` is `old` after a full update at time `t`.
pub open spec fn tick_result(
    old: Seq<Planet>,
    new: Seq<Planet>,
    clock: OrbitClock,
    table: DirTable,
    t: int,
) -> bool {
    &&& new.len() == old.len()
    &&& forall|i: int|
        0 <= i < old.len() ==> {
            &&& same_body(#[trigger] new[i], old[i])
            &&& new[i].position@ == resolved(old, i, clock, table, t)
            &&& new[i].rotation == spun(old[i], clock, t)
        }
}

impl Planet {
    /// Adds a body to `system` at the origin, unspun, with its box in the
    /// index, and returns its id; refuses it, changing nothing, as
    /// `add_error` says.
    pub fn new(system: &mut StarSystem, p: BodyParams) -> (r: Result<usize, SceneError>)
        requires
            old(system).wf(),
        ensures
            final(system).wf(),
            final(system).clock() == old(system).clock(),
            final(system).table() == old(system).table(),
            match add_error(old(system).bodies(), p) {
                Some(e) => r == Err::<usize, SceneError>(e) && final(system).bodies() == old(
                    system,
                ).bodies() && final(system).index() == old(system).index(),
                None => r == Ok::<usize, SceneError>(old(system).bodies().len() as usize)
                    && final(system).bodies() == old(system).bodies().push(
                    Planet {
                        id: old(system).bodies().len() as usize,
                        parent_planet_id: p.parent_planet_id,
                        tier: p.tier,
                        body_radius: p.body_radius,
                        orbital_radius: p.orbital_radius,
                        orbital_period: p.orbital_period,
                        day_period: p.day_period,
                        tilt: p.tilt,
                        position: Vec3 { x: 0, y: 0, z: 0 },
                        rotation: 0,
                        spatial_handle: old(system).bodies().len() as usize,
                    },
                ),
            },
    {
        let n = system.bodies.len();
        if p.body_radius == 0 || p.body_radius > MAX_LENGTH {
            return Err(SceneError::BodyRadius);
        }
        if p.orbital_radius > MAX_LENGTH {
            return Err(SceneError::OrbitalRadius);
        }
        if p.parent_planet_id > n || (p.parent_planet_id == n && p.tier != 0) {
            return Err(SceneError::UnknownParent);
        }
        if (p.tier == 0 && p.parent_planet_id != n) || (p.tier != 0
            && system.bodies[p.parent_planet_id].tier as u64 + 1 != p.tier as u64) {
            return Err(SceneError::TierMismatch);
        }
        if p.tier > MAX_TIER {
            return Err(SceneError::TooDeep);
        }
        let origin = Vec3::origin();
        let h = system.index.insert(Aabb::around(&origin, p.body_radius));
        let b = Planet {
            id: n,
            parent_planet_id: p.parent_planet_id,
            tier: p.tier,
            body_radius: p.body_radius,
            orbital_radius: p.orbital_radius,
            orbital_period: p.orbital_period,
            day_period: p.day_period,
            tilt: p.tilt,
            position: origin,
            rotation: 0,
            spatial_handle: h,
        };
        let ghost before = system.bodies@;
        system.bodies.push(b);
        assert forall|i: int| 0 <= i < system.bodies().len() implies #[trigger] body_ok(
            system.bodies(),
            system.index().boxes(),
            i,
        ) by {
            if i < n {
                assert(body_ok(before, old(system).index().boxes(), i));
                assert(system.bodies()[i] == before[i]);
            }
        }
        Ok(n)
    }

}

impl StarSystem {
    pub closed spec fn bodies(&self) -> Seq<Planet> {
        self.bodies@
    }

    pub closed spec fn index(&self) -> SpatialIndex {
        self.index
    }

    pub closed spec fn clock(&self) -> OrbitClock {
        self.clock
    }

    pub closed spec fn table(&self) -> DirTable {
        self.table
    }

    pub open spec fn wf(&self) -> bool {
        &&& self.clock().wf()
        &&& self.table().wf()
        &&& self.index().wf()
        &&& self.index().len() == self.bodies().len()
        &&& forall|i: int|
            0 <= i < self.bodies().len() ==> #[trigger] body_ok(
                self.bodies(),
                self.index().boxes(),
                i,
            )
    }

    /// An empty system on the given clock and direction table.
    pub fn new(clock: OrbitClock, table: DirTable) -> (r: StarSystem)
        requires
            clock.wf(),
            table.wf(),
        ensures
            r.wf(),
            r.bodies() == Seq::<Planet>::empty(),
            r.clock() == clock,
            r.table() == table,
    {
        StarSystem { bodies: Vec::new(), index: SpatialIndex::new(), clock, table }
    }

    /// Number of bodies.
    pub fn len(&self) -> (r: usize)
        ensures
            r == self.bodies().len(),
    {
        self.bodies.len()
    }

    /// The body with the given id.
    pub fn body(&self, id: usize) -> (r: Planet)
        requires
            id < self.bodies().len(),
        ensures
            r == self.bodies()[id as int],
    {
        self.bodies[id]
    }

    /// The spatial index holding the bodies' boxes.
    pub fn spatial_index(&self) -> (r: &SpatialIndex)
        ensures
            *r == self.index(),
    {
        &self.index
    }

    pub fn clock_of(&self) -> (r: OrbitClock)
        ensures
            r == self.clock(),
    {
        self.clock
    }

    /// Places and spins every body of one tier from its parent's current
    /// position, moving its box in the index wherever it moved.
    pub fn update_tier(&mut self, t: u64, tier: u32)
        requires
            old(self).wf(),
        ensures
            final(self).wf(),
            final(self).clock() == old(self).clock(),
            final(self).table() == old(self).table(),
            tier_result(old(self).bodies(), final(self).bodies(), old(self).clock(), old(self).table(), t as int, tier),
            motions_follow(old(self).bodies(), final(self).bodies(), old(self).index().motions(), final(self).index().motions()),
    {
        let ghost old_bodies = self.bodies@;
        let n = self.bodies.len();
        let mut i: usize = 0;
        while i < n
            invariant
                self.wf(),
                n == self.bodies().len(),
                n == old_bodies.len(),
                self.clock() == old(self).clock(),
                self.table() == old(self).table(),
                old_bodies == old(self).bodies(),
                self.index().motions().len() == old(self).index().motions().len(),
                forall|j: int|
                    0 <= j < n ==> if (#[trigger] self.bodies()[j]).position != old_bodies[j].position {
                        self.index().motions()[j]@ == sub3(self.bodies()[j].position@, old_bodies[j].position@)
                    } else {
                        self.index().motions()[j] == old(self).index().motions()[j]
                    },
                forall|j: int|
                    0 <= j < n ==> {
                        &&& same_body(#[trigger] self.bodies()[j], old_bodies[j])
                        &&& if j < i && old_bodies[j].tier == tier {
                            &&& self.bodies()[j].position@ == placed(old_bodies, j, self.clock(), self.table(), t as int)
                            &&& self.bodies()[j].rotation == spun(old_bodies[j], self.clock(), t as int)
                        } else {
                            self.bodies()[j] == old_bodies[j]
                        }
                    },
            decreases n - i,
        {
            let b = self.bodies[i];
            if b.tier == tier {
                assert(body_ok(self.bodies(), self.index().boxes(), i as int));
                let new_pos = if b.tier == 0 {
                    Vec3::origin()
                } else {
                    let parent = self.bodies[b.parent_planet_id];
                    assert(body_ok(self.bodies(), self.index().boxes(), b.parent_planet_id as int));
                    assert(self.bodies()[b.parent_planet_id as int] == old_bodies[b.parent_planet_id as int]);
                    if b.orbital_period == 0 {
                        parent.position
                    } else {
                        let k = phase_of(t, &self.clock, b.orbital_period, self.table.steps() as u64);
                        let d = self.table.get(k as usize);
                        assert(d.valid());
                        let off = Vec3 {
                            x: scale_length(b.orbital_radius, d.x),
                            y: scale_length(b.orbital_radius, d.y),
                            z: 0,
                        };
                        parent.position.plus(&off)
                    }
                };
                let new_rot = if b.day_period == 0 {
                    b.rotation
                } else {
                    (phase_of(t, &self.clock, b.day_period, TURN) + SPIN_PHASE) % TURN
                };
                let ghost boxes_before = self.index().boxes();
                if new_pos != b.position {
                    let delta = new_pos.minus(&b.position);
                    self.index.move_obj(b.spatial_handle, Aabb::around(&new_pos, b.body_radius), delta);
                }
                let nb = Planet {
                    id: b.id,
                    parent_planet_id: b.parent_planet_id,
                    tier: b.tier,
                    body_radius: b.body_radius,
                    orbital_radius: b.orbital_radius,
                    orbital_period: b.orbital_period,
                    day_period: b.day_period,
                    tilt: b.tilt,
                    position: new_pos,
                    rotation: new_rot,
                    spatial_handle: b.spatial_handle,
                };
                let ghost before = self.bodies@;
                self.bodies.set(i, nb);
                assert forall|j: int| 0 <= j < self.bodies().len() implies #[trigger] body_ok(
                    self.bodies(),
                    self.index().boxes(),
                    j,
                ) by {
                    assert(body_ok(before, boxes_before, j));
                }
            }
            i = i + 1;
        }
    }

    /// Resolves every body for time `t`, tier by tier: no body is placed
    /// before every body of a lower tier has been placed for the same `t`.
    pub fn update(&mut self, t: u64)
        requires
            old(self).wf(),
        ensures
            final(self).wf(),
            final(self).clock() == old(self).clock(),
            final(self).table() == old(self).table(),
            tick_result(old(self).bodies(), final(self).bodies(), old(self).clock(), old(self).table(), t as int),
            motions_follow(old(self).bodies(), final(self).bodies(), old(self).index().motions(), final(self).index().motions()),
    {
        let ghost b0 = self.bodies();
        let ghost m0 = self.index().motions();
        self.update_tier(t, 0);
        let ghost b1 = self.bodies();
        let ghost m1 = self.index().motions();
        self.update_tier(t, 1);
        let ghost b2 = self.bodies();
        let ghost m2 = self.index().motions();
        self.update_tier(t, 2);
        proof {
            assert forall|i: int| 0 <= i < b0.len() implies if (#[trigger] self.bodies()[i]).position != b0[i].position {
                self.index().motions()[i]@ == sub3(self.bodies()[i].position@, b0[i].position@)
            } else {
                self.index().motions()[i] == m0[i]
            } by {
                assert(body_ok(b0, old(self).index().boxes(), i));
                assert(tier_result(b0, b1, self.clock(), self.table(), t as int, 0));
                assert(same_body(b1[i], b0[i]));
                assert(same_body(b2[i], b1[i]));
                assert(same_body(self.bodies()[i], b2[i]));
                if b0[i].tier == 0 {
                    assert(b2[i] == b1[i]);
                    assert(self.bodies()[i] == b2[i]);
                } else if b0[i].tier == 1 {
                    assert(b1[i] == b0[i]);
                    assert(self.bodies()[i] == b2[i]);
                } else {
                    assert(b1[i] == b0[i]);
                    assert(b2[i] == b1[i]);
                }
            }
            lemma_three_tiers(b0, b1, b2, self.bodies(), old(self).index().boxes(), self.clock(), self.table(), t as int);
        }
    }

    /// The parameters of every body, in id order.
    pub fn export(&self) -> (r: Vec<BodyParams>)
        ensures
            r@ == exported(self.bodies()),
    {
        let mut r: Vec<BodyParams> = Vec::new();
        let mut k: usize = 0;
        while k < self.bodies.len()
            invariant
                k <= self.bodies().len(),
                r@ == self.bodies().take(k as int).map_values(|b: Planet| params_of(b)),
            decreases self.bodies().len() - k,
        {
            let p = self.params(k);
            r.push(p);
            assert(self.bodies().take(k + 1) == self.bodies().take(k as int).push(self.bodies()[k as int]));
            k = k + 1;
        }
        assert(self.bodies().take(self.bodies().len() as int) == self.bodies());
        r
    }

    /// A system built by adding each of `ps` in order: `Ok` when every one is
    /// accepted, else the error of the first one refused.
    pub fn restore(ps: &Vec<BodyParams>, clock: OrbitClock, table: DirTable) -> (r: Result<StarSystem, SceneError>)
        requires
            clock.wf(),
            table.wf(),
        ensures
            match r {
                Ok(s) => {
                    &&& s.wf()
                    &&& s.bodies() == fresh(ps@)
                    &&& s.clock() == clock
                    &&& s.table() == table
                    &&& forall|k: int| 0 <= k < ps@.len() ==> accepted(ps@, k)
                },
                Err(e) => exists|k: int|
                    0 <= k < ps@.len() && (forall|j: int| 0 <= j < k ==> accepted(ps@, j))
                        && add_error(fresh(ps@.take(k)), ps@[k]) == Some(e),
            },
    {
        let mut s = StarSystem::new(clock, table);
        let mut k: usize = 0;
        while k < ps.len()
            invariant
                k <= ps@.len(),
                s.wf(),
                s.clock() == clock,
                s.table() == table,
                s.bodies() == fresh(ps@.take(k as int)),
                forall|j: int| 0 <= j < k ==> accepted(ps@, j),
            decreases ps@.len() - k,
        {
            assert(fresh(ps@.take(k as int)).len() == k);
            match Planet::new(&mut s, ps[k]) {
                Ok(_) => {
                    assert(fresh(ps@.take(k + 1)) =~= fresh(ps@.take(k as int)).push(fresh_body(ps@[k as int], k as int)));
                },
                Err(e) => {
                    return Err(e);
                },
            }
            k = k + 1;
        }
        assert(ps@.take(ps@.len() as int) == ps@);
        Ok(s)
    }

    /// The orbital parameters of body `id`.
    pub fn params(&self, id: usize) -> (r: BodyParams)
        requires
            id < self.bodies().len(),
        ensures
            r == params_of(self.bodies()[id as int]),
    {
        let b = self.bodies[id];
        BodyParams {
            parent_planet_id: b.parent_planet_id,
            tier: b.tier,
            body_radius: b.body_radius,
            orbital_radius: b.orbital_radius,
            orbital_period: b.orbital_period,
            day_period: b.day_period,
            tilt: b.tilt,
        }
    }
}

/// Three tier passes, 0 then 1 then 2, resolve every body.
proof fn lemma_three_tiers(
    b0: Seq<Planet>,
    b1: Seq<Planet>,
    b2: Seq<Planet>,
    b3: Seq<Planet>,
    boxes: Seq<Aabb>,
    clock: OrbitClock,
    table: DirTable,
    t: int,
)
    requires
        forall|i: int| 0 <= i < b0.len() ==> #[trigger] body_ok(b0, boxes, i),
        tier_result(b0, b1, clock, table, t, 0),
        tier_result(b1, b2, clock, table, t, 1),
        tier_result(b2, b3, clock, table, t, 2),
    ensures
        tick_result(b0, b3, clock, table, t),
{
    assert forall|i: int| 0 <= i < b0.len() implies {
        &&& same_body(#[trigger] b3[i], b0[i])
        &&& b3[i].position@ == resolved(b0, i, clock, table, t)
        &&& b3[i].rotation == spun(b0[i], clock, t)
    } by {
        lemma_resolved_after(b0, b1, b2, b3, boxes, clock, table, t, i);
    }
}

proof fn lemma_resolved_after(
    b0: Seq<Planet>,
    b1: Seq<Planet>,
    b2: Seq<Planet>,
    b3: Seq<Planet>,
    boxes: Seq<Aabb>,
    clock: OrbitClock,
    table: DirTable,
    t: int,
    i: int,
)
    requires
        forall|i: int| 0 <= i < b0.len() ==> #[trigger] body_ok(b0, boxes, i),
        tier_result(b0, b1, clock, table, t, 0),
        tier_result(b1, b2, clock, table, t, 1),
        tier_result(b2, b3, clock, table, t, 2),
        0 <= i < b0.len(),
    ensures
        same_body(b3[i], b0[i]),
        b3[i].position@ == resolved(b0, i, clock, table, t),
        b3[i].rotation == spun(b0[i], clock, t),
    decreases b0[i].tier,
{
    assert(body_ok(b0, boxes, i));
    assert(same_body(b1[i], b0[i]));
    assert(same_body(b2[i], b1[i]));
    assert(same_body(b3[i], b2[i]));
    let p = b0[i].parent_planet_id as int;
    if b0[i].tier != 0 {
        assert(body_ok(b0, boxes, p));
        lemma_resolved_after(b0, b1, b2, b3, boxes, clock, table, t, p);
        assert(same_body(b1[p], b0[p]));
        assert(same_body(b2[p], b1[p]));
        assert(same_body(b3[p], b2[p]));
    }
}

} // verus!
