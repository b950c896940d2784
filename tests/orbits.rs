use emergent_empire::geometry::{Aabb, Vec3, MAX_LENGTH};
use emergent_empire::orbit::{phase_of, scale_length, Dir, DirTable, OrbitClock, DIR_ONE, MAX_STEPS, TURN};
use emergent_empire::system::{BodyParams, Planet, SceneError, StarSystem};

fn quarter_table() -> DirTable {
    DirTable::new(vec![
        Dir { x: DIR_ONE, y: 0 },
        Dir { x: 0, y: DIR_ONE },
        Dir { x: -DIR_ONE, y: 0 },
        Dir { x: 0, y: -DIR_ONE },
    ])
    .unwrap()
}

fn plain_clock() -> OrbitClock {
    OrbitClock { seed: 0, units_per_year: 1, ticks_per_year: 1 }
}

fn params(parent: usize, tier: u32, radius: u64, orbit: u64, period: i64, day: i64) -> BodyParams {
    BodyParams {
        parent_planet_id: parent,
        tier,
        body_radius: radius,
        orbital_radius: orbit,
        orbital_period: period,
        day_period: day,
        tilt: 0,
    }
}

/// Star, planet (radius 100) and moon (radius 10) on the quarter-turn table.
fn three_tiers(planet_period: i64, moon_period: i64) -> StarSystem {
    let mut s = StarSystem::new(plain_clock(), quarter_table());
    let star = Planet::new(&mut s, params(0, 0, 5, 0, 0, 0)).unwrap();
    let planet = Planet::new(&mut s, params(star, 1, 2, 100, planet_period, 0)).unwrap();
    let moon = Planet::new(&mut s, params(planet, 2, 1, 10, moon_period, 0)).unwrap();
    assert_eq!((star, planet, moon), (0, 1, 2));
    s
}

#[test]
fn end_to_end_star_planet_moon() {
    // planet period 10, moon period 1: a tenth of the planet's
    let mut s = three_tiers(10, 1);
    s.update(10);
    assert_eq!(s.body(0).position, Vec3::new(0, 0, 0));
    assert_eq!(s.body(1).position, Vec3::new(100, 0, 0));
    assert_eq!(s.body(2).position, Vec3::new(110, 0, 0));
}

#[test]
fn moon_reads_parent_of_same_tick() {
    let mut s = three_tiers(4, 4);
    s.update(0);
    assert_eq!(s.body(1).position, Vec3::new(100, 0, 0));
    assert_eq!(s.body(2).position, Vec3::new(110, 0, 0));
    // a quarter turn later the planet is at (0, 100) and the moon beside it,
    // not beside where the planet stood a tick before
    s.update(1);
    assert_eq!(s.body(1).position, Vec3::new(0, 100, 0));
    assert_eq!(s.body(2).position, Vec3::new(0, 110, 0));
}

#[test]
fn body_without_orbit_sits_on_parent() {
    let mut s = three_tiers(4, 0);
    for t in 0..6u64 {
        s.update(t);
        assert_eq!(s.body(2).position, s.body(1).position);
    }
}

#[test]
fn retrograde_orbit_turns_the_other_way() {
    let mut s = three_tiers(-4, 0);
    s.update(1);
    assert_eq!(s.body(1).position, Vec3::new(0, -100, 0));
    assert_eq!(phase_of(1, &plain_clock(), 4, 4), 1);
    assert_eq!(phase_of(1, &plain_clock(), -4, 4), 3);
}

#[test]
fn phase_uses_seed_and_scales() {
    let clock = OrbitClock { seed: 98_400, units_per_year: 100_000, ticks_per_year: 6 };
    // (0 + 98400) * 100000 / (6 * 100000) = 16400 turns exactly
    assert_eq!(phase_of(0, &clock, 100_000, 1_000), 0);
    // (3 + 98400) * 100000 / 600000 = 16400.5 turns
    assert_eq!(phase_of(3, &clock, 100_000, 1_000), 500);
}

#[test]
fn spin_follows_day_period() {
    let mut s = StarSystem::new(plain_clock(), quarter_table());
    Planet::new(&mut s, params(0, 0, 5, 0, 0, 4)).unwrap();
    Planet::new(&mut s, params(0, 1, 2, 100, 4, 0)).unwrap();
    s.update(1);
    // a quarter of a day plus the half-turn offset
    assert_eq!(s.body(0).rotation, (TURN / 4 + TURN / 2) % TURN);
    // no day period: the spin stays frozen
    assert_eq!(s.body(1).rotation, 0);
}

#[test]
fn inconsistent_scenes_are_refused() {
    let mut s = StarSystem::new(plain_clock(), quarter_table());
    assert_eq!(Planet::new(&mut s, params(0, 1, 5, 0, 0, 0)), Err(SceneError::UnknownParent));
    assert_eq!(Planet::new(&mut s, params(3, 0, 5, 0, 0, 0)), Err(SceneError::UnknownParent));
    let star = Planet::new(&mut s, params(0, 0, 5, 0, 0, 0)).unwrap();
    assert_eq!(Planet::new(&mut s, params(star, 2, 1, 10, 1, 0)), Err(SceneError::TierMismatch));
    assert_eq!(Planet::new(&mut s, params(star, 0, 1, 10, 1, 0)), Err(SceneError::TierMismatch));
    assert_eq!(Planet::new(&mut s, params(star, 1, 0, 10, 1, 0)), Err(SceneError::BodyRadius));
    assert_eq!(Planet::new(&mut s, params(star, 1, 1, 1 << 41, 1, 0)), Err(SceneError::OrbitalRadius));
    let planet = Planet::new(&mut s, params(star, 1, 1, 10, 1, 0)).unwrap();
    let moon = Planet::new(&mut s, params(planet, 2, 1, 10, 1, 0)).unwrap();
    assert_eq!(Planet::new(&mut s, params(moon, 3, 1, 10, 1, 0)), Err(SceneError::TooDeep));
    assert_eq!(s.len(), 3);
    for i in 1..s.len() {
        let b = s.body(i);
        assert_eq!(b.tier, s.body(b.parent_planet_id).tier + 1);
    }
}

#[test]
fn restore_reproduces_update() {
    let mut a = three_tiers(4, 3);
    a.update(7);
    let ps = a.export();
    let mut b = StarSystem::restore(&ps, plain_clock(), quarter_table()).unwrap();
    a.update(9);
    b.update(9);
    for i in 0..a.len() {
        assert_eq!(a.body(i), b.body(i));
    }
    let bad = vec![params(0, 0, 5, 0, 0, 0), params(5, 1, 1, 1, 1, 1)];
    assert_eq!(
        StarSystem::restore(&bad, plain_clock(), quarter_table()).err(),
        Some(SceneError::UnknownParent)
    );
}

#[test]
fn index_follows_moving_bodies() {
    let mut s = three_tiers(4, 4);
    s.update(0);
    s.update(1);
    for i in 0..s.len() {
        let b = s.body(i);
        assert_eq!(s.spatial_index().bounds(b.spatial_handle), Aabb::around(&b.position, b.body_radius));
    }
    // the planet moved from (100, 0, 0) to (0, 100, 0)
    assert_eq!(s.spatial_index().motion(1), Vec3::new(-100, 100, 0));
    let region = Aabb { min: Vec3::new(-5, 95, -5), max: Vec3::new(5, 105, 5) };
    assert_eq!(s.spatial_index().query(&region), vec![1]);
    let everything = Aabb { min: Vec3::new(-1000, -1000, -1000), max: Vec3::new(1000, 1000, 1000) };
    assert_eq!(s.spatial_index().query(&everything), vec![0, 1, 2]);
}

#[test]
fn direction_tables_are_checked() {
    assert!(DirTable::new(vec![]).is_none());
    assert!(DirTable::new(vec![Dir { x: DIR_ONE + 1, y: 0 }]).is_none());
    assert_eq!(quarter_table().steps(), 4);
}

#[test]
fn largest_lengths_are_accepted() {
    let mut s = StarSystem::new(plain_clock(), quarter_table());
    let star = Planet::new(&mut s, params(0, 0, MAX_LENGTH, 0, 0, 0)).unwrap();
    assert_eq!(Planet::new(&mut s, params(star, 1, MAX_LENGTH + 1, 0, 1, 0)), Err(SceneError::BodyRadius));
    assert_eq!(
        Planet::new(&mut s, params(star, 1, 1, MAX_LENGTH + 1, 1, 0)),
        Err(SceneError::OrbitalRadius)
    );
    let planet = Planet::new(&mut s, params(star, 1, 1, MAX_LENGTH, 4, 0)).unwrap();
    let moon = Planet::new(&mut s, params(planet, 2, 1, MAX_LENGTH, -4, 0)).unwrap();
    s.update(2);
    let m = MAX_LENGTH as i64;
    assert_eq!(s.body(planet).position, Vec3::new(-m, 0, 0));
    assert_eq!(s.body(moon).position, Vec3::new(-2 * m, 0, 0));
}

#[test]
fn oversized_direction_table_is_refused() {
    let dirs = vec![Dir { x: DIR_ONE, y: 0 }; MAX_STEPS + 1];
    assert!(DirTable::new(dirs).is_none());
    let dirs = vec![Dir { x: DIR_ONE, y: 0 }; MAX_STEPS];
    assert_eq!(DirTable::new(dirs).unwrap().steps(), MAX_STEPS);
}

#[test]
fn scaled_offsets_round_toward_zero() {
    assert_eq!(scale_length(100, DIR_ONE / 3), 33);
    assert_eq!(scale_length(100, -DIR_ONE / 3), -33);
    assert_eq!(scale_length(100, DIR_ONE), 100);
    assert_eq!(scale_length(0, -DIR_ONE), 0);
}
