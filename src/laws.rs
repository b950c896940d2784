//! Properties of the tiered update, stated over the registry's spec functions.
use vstd::prelude::*;
use crate::geometry::add3;
use crate::system::{
    Planet, StarSystem, accepted, body_ok, exported, fresh, orbit_offset, params_of, resolved, same_body,
    tick_result,
};

verus! {

/// In a well-formed system every body but a star orbits a body already in
/// the system, and its tier is one more than that body's.
pub proof fn lemma_tiers_follow_parents(s: &StarSystem)
    requires
        s.wf(),
    ensures
        forall|i: int|
            0 <= i < s.bodies().len() && (#[trigger] s.bodies()[i]).tier != 0 ==> {
                let p = s.bodies()[i].parent_planet_id as int;
                &&& 0 <= p < s.bodies().len()
                &&& s.bodies()[i].tier == s.bodies()[p].tier + 1
            },
{
    assert forall|i: int|
        0 <= i < s.bodies().len() && (#[trigger] s.bodies()[i]).tier != 0 implies {
        let p = s.bodies()[i].parent_planet_id as int;
        &&& 0 <= p < s.bodies().len()
        &&& s.bodies()[i].tier == s.bodies()[p].tier + 1
    } by {
        assert(body_ok(s.bodies(), s.index().boxes(), i));
    }
}

/// After an update at time `t`, every body but a star stands at its parent's
/// position for the same `t` plus its own orbital offset: a child never sees
/// its parent's position from an earlier tick.
pub proof fn lemma_children_read_updated_parents(s: &StarSystem, after: &StarSystem, t: u64)
    requires
        s.wf(),
        tick_result(s.bodies(), after.bodies(), s.clock(), s.table(), t as int),
    ensures
        forall|i: int|
            0 <= i < after.bodies().len() && (#[trigger] after.bodies()[i]).tier != 0 ==> {
                let p = after.bodies()[i].parent_planet_id as int;
                &&& 0 <= p < after.bodies().len()
                &&& after.bodies()[i].position@ == add3(
                    after.bodies()[p].position@,
                    orbit_offset(after.bodies()[i], s.clock(), s.table(), t as int),
                )
            },
{
    let b = s.bodies();
    let n = after.bodies();
    assert forall|i: int| 0 <= i < n.len() && (#[trigger] n[i]).tier != 0 implies {
        let p = n[i].parent_planet_id as int;
        &&& 0 <= p < n.len()
        &&& n[i].position@ == add3(n[p].position@, orbit_offset(n[i], s.clock(), s.table(), t as int))
    } by {
        assert(same_body(n[i], b[i]));
        assert(body_ok(b, s.index().boxes(), i));
        let p = b[i].parent_planet_id as int;
        assert(body_ok(b, s.index().boxes(), p));
        assert(same_body(n[p], b[p]));
        assert(orbit_offset(n[i], s.clock(), s.table(), t as int) == orbit_offset(b[i], s.clock(), s.table(), t as int));
    }
}

/// After an update, a body with no orbit (period 0) that is not a star stands
/// exactly at its parent's position.
pub proof fn lemma_still_bodies_sit_on_parents(s: &StarSystem, after: &StarSystem, t: u64)
    requires
        s.wf(),
        tick_result(s.bodies(), after.bodies(), s.clock(), s.table(), t as int),
    ensures
        forall|i: int|
            0 <= i < after.bodies().len() && (#[trigger] after.bodies()[i]).tier != 0
                && after.bodies()[i].orbital_period == 0 ==> after.bodies()[i].position
                == after.bodies()[after.bodies()[i].parent_planet_id as int].position,
{
    lemma_children_read_updated_parents(s, after, t);
    assert forall|i: int|
        0 <= i < after.bodies().len() && (#[trigger] after.bodies()[i]).tier != 0
            && after.bodies()[i].orbital_period == 0 implies after.bodies()[i].position
        == after.bodies()[after.bodies()[i].parent_planet_id as int].position by {
        let p = after.bodies()[i].parent_planet_id as int;
        let a = after.bodies()[i].position;
        let c = after.bodies()[p].position;
        assert(a@ == add3(c@, (0, 0, 0)));
        assert(a.x == c.x && a.y == c.y && a.z == c.z);
    }
}

/// Resolved positions depend on the bodies' parameters alone.
proof fn lemma_resolved_by_params(
    a: Seq<Planet>,
    b: Seq<Planet>,
    i: int,
    clock: crate::orbit::OrbitClock,
    table: crate::orbit::DirTable,
    t: int,
)
    requires
        a.len() == b.len(),
        0 <= i < a.len(),
        forall|j: int| 0 <= j < a.len() ==> params_of(#[trigger] a[j]) == params_of(b[j]),
    ensures
        resolved(a, i, clock, table, t) == resolved(b, i, clock, table, t),
    decreases a[i].tier,
{
    assert(params_of(a[i]) == params_of(b[i]));
    let p = a[i].parent_planet_id as int;
    if a[i].tier != 0 && 0 <= p < a.len() && a[p].tier < a[i].tier {
        assert(params_of(a[p]) == params_of(b[p]));
        lemma_resolved_by_params(a, b, p, clock, table, t);
    }
}

/// Restoring a well-formed system from its exported parameters succeeds, and
/// updating the system and its restored copy at the same time `t` gives
/// identical bodies, positions and spins included.
pub proof fn lemma_restore_reproduces(
    s: &StarSystem,
    after: Seq<Planet>,
    restored_after: Seq<Planet>,
    t: u64,
)
    requires
        s.wf(),
        tick_result(s.bodies(), after, s.clock(), s.table(), t as int),
        tick_result(
            fresh(exported(s.bodies())),
            restored_after,
            s.clock(),
            s.table(),
            t as int,
        ),
    ensures
        forall|k: int|
            0 <= k < s.bodies().len() ==> #[trigger] accepted(
                exported(s.bodies()),
                k,
            ),
        restored_after == after,
{
    let ps = exported(s.bodies());
    let f = fresh(ps);
    let bs = s.bodies();
    assert forall|k: int| 0 <= k < bs.len() implies accepted(ps, k) by {
        assert(body_ok(bs, s.index().boxes(), k));
        let p = bs[k].parent_planet_id as int;
        assert(fresh(ps.take(k)).len() == k);
        if bs[k].tier != 0 {
            assert(body_ok(bs, s.index().boxes(), p));
            assert(fresh(ps.take(k))[p].tier == bs[p].tier);
        }
    }
    assert forall|j: int| 0 <= j < bs.len() implies params_of(#[trigger] bs[j]) == params_of(f[j]) by {
        assert(body_ok(bs, s.index().boxes(), j));
    }
    assert forall|i: int| 0 <= i < bs.len() implies restored_after[i] == after[i] by {
        assert(body_ok(bs, s.index().boxes(), i));
        assert(same_body(after[i], bs[i]));
        assert(same_body(restored_after[i], f[i]));
        lemma_resolved_by_params(bs, f, i, s.clock(), s.table(), t as int);
        let x = after[i].position;
        let y = restored_after[i].position;
        assert(x@ == y@);
        assert(x == y);
    }
    assert(restored_after =~= after);
}

} // verus!
