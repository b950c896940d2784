//! The two scenes: a small system with a turn button, and the solar system
//! on the real-time clock.
use vstd::prelude::*;
use crate::button::{Button, ButtonId, Event, EventQueue, Rect};
use crate::camera::{CameraRig, Input, ZoomLimits, controlled};
use crate::orbit::{DirTable, OrbitClock};
use crate::system::{BodyParams, Planet, StarSystem, exported, tick_result};

verus! {

/// Returns the current count and advances it by one.
pub fn incr_num_planets(num: &mut u32) -> (r: u32)
    requires
        *old(num) < u32::MAX,
    ensures
        r == *old(num),
        *final(num) == *old(num) + 1,
{
    let tmp = *num;
    *num = *num + 1;
    tmp
}

pub open spec fn body(
    parent_planet_id: usize,
    tier: u32,
    body_radius: u64,
    orbital_radius: u64,
    tilt: i64,
    orbital_period: i64,
    day_period: i64,
) -> BodyParams {
    BodyParams { parent_planet_id, tier, body_radius, orbital_radius, orbital_period, day_period, tilt }
}

fn params(
    parent_planet_id: usize,
    tier: u32,
    body_radius: u64,
    orbital_radius: u64,
    tilt: i64,
    orbital_period: i64,
    day_period: i64,
) -> (r: BodyParams)
    ensures
        r == body(parent_planet_id, tier, body_radius, orbital_radius, tilt, orbital_period, day_period),
{
    BodyParams { parent_planet_id, tier, body_radius, orbital_radius, orbital_period, day_period, tilt }
}

/// The bodies of the turn-based scene: a sun, two planets and a moon.
/// Lengths are in ten-thousandths of an Earth radius, periods in
/// hundred-thousandths of a year, angles in millionths of a turn.
pub open spec fn gameplay_bodies() -> Seq<BodyParams> {
    seq![
        body(0, 0, 1_100_000, 0, 0, 0, 0),
        body(0, 1, 10_000, 100_000_000, 0, 100_000, 270),
        body(0, 1, 10_000, 200_000_000, 0, 100_000, 270),
        body(2, 2, 2_000, 600_000, 0, 7_490, 7_490),
    ]
}

/// The turn-based scene: time is the turn count, advanced by a button.
pub struct Gameplay {
    system: StarSystem,
    camera: CameraRig,
    next_turn: Button,
    event_queue: EventQueue,
    turn: u64,
}

/// The turn after `n` more turn events, saturating.
pub open spec fn turns_after(turn: int, n: int) -> int {
    if turn + n > u64::MAX {
        u64::MAX as int
    } else {
        turn + n
    }
}

impl Gameplay {
    pub closed spec fn system(&self) -> StarSystem {
        self.system
    }

    pub closed spec fn camera(&self) -> CameraRig {
        self.camera
    }

    pub closed spec fn next_turn_button(&self) -> Button {
        self.next_turn
    }

    pub closed spec fn queue(&self) -> EventQueue {
        self.event_queue
    }

    pub closed spec fn turn(&self) -> u64 {
        self.turn
    }

    pub open spec fn wf(&self) -> bool {
        &&& self.system().wf()
        &&& self.camera().wf()
        &&& self.camera().body_count == self.system().bodies().len()
        &&& self.queue().wf()
    }

    /// The scene, with the turn button in the bottom right corner of a
    /// window of the given size, drawn with the given textures.
    pub fn new(
        table: DirTable,
        window_w: u16,
        window_h: u16,
        texture_id: u32,
        hovered_texture_id: u32,
    ) -> (r: Gameplay)
        requires
            table.wf(),
        ensures
            r.wf(),
            exported(r.system().bodies()) == gameplay_bodies(),
            r.system().table() == table,
            r.system().clock() == (OrbitClock { seed: 98_400, units_per_year: 100_000, ticks_per_year: 6 }),
            r.camera().selection == 2,
            r.turn() == 0,
            r.queue()@.len() == 0,
            r.next_turn_button() == (Button {
                id: ButtonId::NextTurn,
                rect: Rect { x: (window_w - 100) as i32, y: (window_h - 120) as i32, w: 90, h: 90 },
                texture_id,
                hovered_texture_id,
            }),
    {
        let clock = OrbitClock { seed: 98_400, units_per_year: 100_000, ticks_per_year: 6 };
        let mut system = StarSystem::new(clock, table);
        let sun = Planet::new(&mut system, params(0, 0, 1_100_000, 0, 0, 0, 0)).unwrap();
        let _mercury = Planet::new(&mut system, params(sun, 1, 10_000, 100_000_000, 0, 100_000, 270)).unwrap();
        let earth = Planet::new(&mut system, params(sun, 1, 10_000, 200_000_000, 0, 100_000, 270)).unwrap();
        let _moon = Planet::new(&mut system, params(earth, 2, 2_000, 600_000, 0, 7_490, 7_490)).unwrap();
        assert(exported(system.bodies()) =~= gameplay_bodies());
        let limits = ZoomLimits { min_factor: 2, max_factor: 40_000, offset: 2_340_000 };
        let camera = CameraRig::new(system.len(), 2, 397_887, 200_000, limits, 1000);
        let rect = Rect { x: window_w as i32 - 100, y: window_h as i32 - 120, w: 90, h: 90 };
        Gameplay {
            system,
            camera,
            next_turn: Button::new(ButtonId::NextTurn, rect, texture_id, hovered_texture_id),
            event_queue: EventQueue::new(),
            turn: 0,
        }
    }

    /// The bodies and the index of their boxes.
    pub fn system_ref(&self) -> (r: &StarSystem)
        ensures
            *r == self.system(),
    {
        &self.system
    }

    pub fn camera_rig(&self) -> (r: CameraRig)
        ensures
            r == self.camera(),
    {
        self.camera
    }

    pub fn button(&self) -> (r: Button)
        ensures
            r == self.next_turn_button(),
    {
        self.next_turn
    }

    pub fn current_turn(&self) -> (r: u64)
        ensures
            r == self.turn(),
    {
        self.turn
    }

    /// Queues a turn event as if the button had been clicked; returns
    /// whether it was queued.
    pub fn push_event(&mut self, e: Event) -> (r: bool)
        requires
            old(self).wf(),
        ensures
            final(self).wf(),
            r == (old(self).queue()@.len() < crate::button::EVENT_QUEUE_CAPACITY),
            final(self).queue()@ == if r {
                old(self).queue()@.push(e)
            } else {
                old(self).queue()@
            },
            final(self).system() == old(self).system(),
            final(self).camera() == old(self).camera(),
            final(self).turn() == old(self).turn(),
    {
        self.event_queue.push(e)
    }

    /// One tick at time `now`: the button raises its event, every queued
    /// event advances the turn, the camera takes the input, the bodies are
    /// resolved for the new turn, and the camera follows its selection.
    pub fn update(&mut self, input: &Input, now: u64)
        requires
            old(self).wf(),
        ensures
            final(self).wf(),
            final(self).queue()@.len() == 0,
            final(self).turn() == turns_after(
                old(self).turn() as int,
                old(self).queue()@.len() + if input.clicked && old(self).next_turn_button().rect.holds(
                    input.pointer_x as int,
                    input.pointer_y as int,
                ) && old(self).queue()@.len() < crate::button::EVENT_QUEUE_CAPACITY {
                    1int
                } else {
                    0int
                },
            ),
            final(self).system().clock() == old(self).system().clock(),
            final(self).system().table() == old(self).system().table(),
            tick_result(
                old(self).system().bodies(),
                final(self).system().bodies(),
                old(self).system().clock(),
                old(self).system().table(),
                final(self).turn() as int,
            ),
            final(self).camera() == ({
                let c = controlled(old(self).camera(), *input, now);
                let b = final(self).system().bodies()[c.selection as int];
                CameraRig { selected_pos: b.position, selected_body_radius: b.body_radius, ..c }
            }),
            final(self).next_turn_button() == old(self).next_turn_button(),
    {
        self.next_turn.update(input.pointer_x, input.pointer_y, input.clicked, &mut self.event_queue);
        let ghost start = self.turn as int;
        let ghost pending = self.event_queue@.len() as int;
        while self.event_queue.len() > 0
            invariant
                self.event_queue.wf(),
                self.turn == turns_after(start, pending - self.event_queue@.len()),
                self.event_queue@.len() <= pending,
                self.system == old(self).system,
                self.camera == old(self).camera,
                self.next_turn == old(self).next_turn,
            decreases self.event_queue@.len(),
        {
            match self.event_queue.pop() {
                Some(Event::ButtonClicked(ButtonId::NextTurn)) => {
                    self.turn = self.turn.saturating_add(1);
                },
                None => {},
            }
        }
        self.camera.control(input, now);
        self.system.update(self.turn);
        self.camera.track(&self.system);
    }
}

/// The bodies of the solar system scene, in the units of `gameplay_bodies`.
pub open spec fn solar_bodies() -> Seq<BodyParams> {
    seq![
        body(0, 0, 1_091_700, 100, 0, 0, 0),
        body(0, 1, 3_800, 90_842_000, 80, 24_000, 16_000),
        body(0, 1, 9_499, 169_908_600, 492_744, 62_000, 67_000),
        body(0, 1, 10_000, 234_866_000, 65_110, 100_000, 270),
        body(3, 2, 2_720, 603_400, 14_260, 7_490, 7_490),
        body(0, 1, 5_330, 352_198_000, 69_901, 188_000, 270),
        body(0, 1, 109_730, 1_222_736_000, 8_690, 1_186_000, 38),
        body(6, 2, 2_858, 661_700, 0, 484, 484),
        body(6, 2, 2_450, 1_050_100, 0, 971, 971),
        body(6, 2, 4_125, 1_678_500, 0, 1_957, 1_957),
        body(6, 2, 3_798, 2_953_900, 0, 4_565, 4_565),
        body(0, 1, 91_400, 2_240_258_200, 74_166, 2_946_000, 41),
        body(11, 2, 2_529, 1_917_000, 0, 4_360, 4_360),
        body(0, 1, 39_800, 4_493_101_400, 271_677, 8_402_000, 62),
        body(0, 1, 38_600, 7_060_007_600, 78_623, 16_479_000, 58),
        body(14, 2, 2_128, 557_500, 0, -1_608i64, -1_608i64),
    ]
}

/// The solar system scene: time is the real clock, in milliseconds.
pub struct Match {
    system: StarSystem,
    camera: CameraRig,
    number_planets: u32,
}

impl Match {
    pub closed spec fn system(&self) -> StarSystem {
        self.system
    }

    pub closed spec fn camera(&self) -> CameraRig {
        self.camera
    }

    pub closed spec fn number_planets(&self) -> u32 {
        self.number_planets
    }

    pub open spec fn wf(&self) -> bool {
        &&& self.system().wf()
        &&& self.camera().wf()
        &&& self.camera().body_count == self.system().bodies().len()
        &&& self.number_planets() == self.system().bodies().len()
    }

    /// The sun, its planets and their larger moons, with Earth selected.
    pub fn new(table: DirTable) -> (r: Match)
        requires
            table.wf(),
        ensures
            r.wf(),
            exported(r.system().bodies()) == solar_bodies(),
            r.system().table() == table,
            r.system().clock() == (OrbitClock {
                seed: 98_400_000,
                units_per_year: 100_000,
                ticks_per_year: 6_000,
            }),
            r.number_planets() == 16,
            r.camera().selection == 3,
    {
        let clock = OrbitClock { seed: 98_400_000, units_per_year: 100_000, ticks_per_year: 6_000 };
        let mut system = StarSystem::new(clock, table);
        let mut n: u32 = 0;
        let sun = Planet::new(&mut system, params(n as usize, 0, 1_091_700, 100, 0, 0, 0)).unwrap();
        incr_num_planets(&mut n);
        Planet::new(&mut system, params(sun, 1, 3_800, 90_842_000, 80, 24_000, 16_000)).unwrap();
        incr_num_planets(&mut n);
        Planet::new(&mut system, params(sun, 1, 9_499, 169_908_600, 492_744, 62_000, 67_000)).unwrap();
        incr_num_planets(&mut n);
        let earth = Planet::new(&mut system, params(sun, 1, 10_000, 234_866_000, 65_110, 100_000, 270)).unwrap();
        incr_num_planets(&mut n);
        Planet::new(&mut system, params(earth, 2, 2_720, 603_400, 14_260, 7_490, 7_490)).unwrap();
        incr_num_planets(&mut n);
        Planet::new(&mut system, params(sun, 1, 5_330, 352_198_000, 69_901, 188_000, 270)).unwrap();
        incr_num_planets(&mut n);
        let jupiter = Planet::new(&mut system, params(sun, 1, 109_730, 1_222_736_000, 8_690, 1_186_000, 38)).unwrap();
        incr_num_planets(&mut n);
        Planet::new(&mut system, params(jupiter, 2, 2_858, 661_700, 0, 484, 484)).unwrap();
        incr_num_planets(&mut n);
        Planet::new(&mut system, params(jupiter, 2, 2_450, 1_050_100, 0, 971, 971)).unwrap();
        incr_num_planets(&mut n);
        Planet::new(&mut system, params(jupiter, 2, 4_125, 1_678_500, 0, 1_957, 1_957)).unwrap();
        incr_num_planets(&mut n);
        Planet::new(&mut system, params(jupiter, 2, 3_798, 2_953_900, 0, 4_565, 4_565)).unwrap();
        incr_num_planets(&mut n);
        let saturn = Planet::new(&mut system, params(sun, 1, 91_400, 2_240_258_200, 74_166, 2_946_000, 41)).unwrap();
        incr_num_planets(&mut n);
        Planet::new(&mut system, params(saturn, 2, 2_529, 1_917_000, 0, 4_360, 4_360)).unwrap();
        incr_num_planets(&mut n);
        Planet::new(&mut system, params(sun, 1, 39_800, 4_493_101_400, 271_677, 8_402_000, 62)).unwrap();
        incr_num_planets(&mut n);
        let neptune = Planet::new(&mut system, params(sun, 1, 38_600, 7_060_007_600, 78_623, 16_479_000, 58)).unwrap();
        incr_num_planets(&mut n);
        Planet::new(&mut system, params(neptune, 2, 2_128, 557_500, 0, -1_608, -1_608)).unwrap();
        incr_num_planets(&mut n);
        assert(exported(system.bodies()) =~= solar_bodies());
        let limits = ZoomLimits { min_factor: 2, max_factor: 3, offset: 2_340_000 };
        let camera = CameraRig::new(n as usize, 3, 397_887, 200_000, limits, 1000);
        Match { system, camera, number_planets: n }
    }

    /// The bodies and the index of their boxes.
    pub fn system_ref(&self) -> (r: &StarSystem)
        ensures
            *r == self.system(),
    {
        &self.system
    }

    pub fn camera_rig(&self) -> (r: CameraRig)
        ensures
            r == self.camera(),
    {
        self.camera
    }

    /// One tick at time `now`: the camera takes the input, the bodies are
    /// resolved for `now`, and the camera follows its selection.
    pub fn update(&mut self, input: &Input, now: u64)
        requires
            old(self).wf(),
        ensures
            final(self).wf(),
            final(self).system().clock() == old(self).system().clock(),
            final(self).system().table() == old(self).system().table(),
            final(self).number_planets() == old(self).number_planets(),
            tick_result(
                old(self).system().bodies(),
                final(self).system().bodies(),
                old(self).system().clock(),
                old(self).system().table(),
                now as int,
            ),
            final(self).camera() == ({
                let c = controlled(old(self).camera(), *input, now);
                let b = final(self).system().bodies()[c.selection as int];
                CameraRig { selected_pos: b.position, selected_body_radius: b.body_radius, ..c }
            }),
    {
        self.camera.control(input, now);
        self.system.update(now);
        self.camera.track(&self.system);
    }
}

} // verus!
