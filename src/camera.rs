//! Selection and camera control: which body is followed, how the camera
//! orbits it, and the eased retargeting when the selection changes.
use vstd::prelude::*;
use crate::ease::{EASE_ONE, cubic_ease_out, eased};
use crate::geometry::{MAX_LENGTH, Vec3};
use crate::orbit::TURN;
use crate::system::StarSystem;

verus! {

/// Angle units the camera turns by per pixel of pointer drag.
pub const DRAG_SPEED: i64 = 796;

/// Largest polar angle, either way: a quarter turn less one drag step, so the
/// camera never flips over a pole.
pub const POLAR_LIMIT: i64 = 249_204;

/// Zoom speed per scroll step, as `ZOOM_NUM / ZOOM_DEN` of the distance from
/// the selected body's radius.
pub const ZOOM_NUM: i64 = 15;

pub const ZOOM_DEN: i64 = 100;

/// Largest zoom factor a limit may use.
pub const MAX_ZOOM_FACTOR: u64 = 1_048_576;

/// Largest camera distance.
pub const MAX_DISTANCE: i64 = 4_611_686_018_427_387_904;

/// The camera distance allowed around a body of radius `r`:
/// `[r * min_factor, r * max_factor + offset]`.
#[derive(Clone, Copy, Debug, PartialEq, Eq, Structural)]
pub struct ZoomLimits {
    pub min_factor: u64,
    pub max_factor: u64,
    pub offset: u64,
}

impl ZoomLimits {
    pub open spec fn wf(&self) -> bool {
        &&& self.min_factor <= self.max_factor <= MAX_ZOOM_FACTOR
        &&& self.offset <= MAX_LENGTH
    }

    pub open spec fn low(&self, r: int) -> int {
        r * self.min_factor
    }

    pub open spec fn high(&self, r: int) -> int {
        r * self.max_factor + self.offset
    }
}

/// One tick's input, as the camera reads it.
#[derive(Clone, Copy, Debug, PartialEq, Eq, Structural)]
pub struct Input {
    /// The select key is down.
    pub select_down: bool,
    /// The pointer button that drags the camera is down.
    pub drag_down: bool,
    /// Pointer motion since the last tick, in pixels.
    pub pointer_dx: i32,
    pub pointer_dy: i32,
    /// Scroll steps since the last tick; positive zooms in.
    pub scroll: i32,
    /// Pointer position on screen, in pixels.
    pub pointer_x: i32,
    pub pointer_y: i32,
    /// The pointer button was clicked this tick.
    pub clicked: bool,
}

/// The selection and the camera's spherical placement around it.
#[derive(Clone, Copy, Debug, PartialEq, Eq, Structural)]
pub struct CameraRig {
    /// Id of the selected body.
    pub selection: usize,
    /// Number of bodies to choose from.
    pub body_count: usize,
    /// Radius of the selected body; 0 right after a change of selection.
    pub selected_body_radius: u64,
    /// Position of the selected body.
    pub selected_pos: Vec3,
    /// Position of the body selected before, the start of the transition.
    pub prev_selected_pos: Vec3,
    /// Time the last transition began.
    pub transition: u64,
    /// Time a transition takes.
    pub transition_duration: u64,
    /// Azimuth, in angle units, within `[0, TURN)`.
    pub phi: i64,
    /// Polar angle, in angle units, within `[-POLAR_LIMIT, POLAR_LIMIT]`.
    pub theta: i64,
    /// Distance from the target, in length units.
    pub distance: i64,
    /// The select key was down at the last tick.
    pub prev_enter_state: bool,
    pub limits: ZoomLimits,
}

pub open spec fn clamp(v: int, lo: int, hi: int) -> int {
    if v < lo {
        lo
    } else if v > hi {
        hi
    } else {
        v
    }
}

/// `a / b` rounded toward zero, for `b > 0`.
pub open spec fn div_toward_zero(a: int, b: int) -> int {
    if a >= 0 {
        a / b
    } else {
        -((-a) / b)
    }
}

/// The distance after scrolling `scroll` steps from `d` around a body of
/// radius `r`, kept within the limits.
pub open spec fn zoomed(d: int, r: int, scroll: int, limits: ZoomLimits) -> int {
    let step = div_toward_zero((d - r) * ZOOM_NUM * scroll, ZOOM_DEN as int);
    clamp(d - step, limits.low(r), limits.high(r))
}

/// The selection after `s`, wrapping to 0 past the last body.
pub open spec fn next_selection(s: int, count: int) -> int {
    if s + 1 >= count {
        0
    } else {
        s + 1
    }
}

/// The rig after a change of selection at time `now`.
pub open spec fn selected_next(c: CameraRig, now: u64) -> CameraRig {
    CameraRig {
        selection: next_selection(c.selection as int, c.body_count as int) as usize,
        selected_body_radius: 0,
        prev_selected_pos: c.selected_pos,
        transition: now,
        ..c
    }
}

/// The rig after one tick of `input` at time `now`: a change of selection on
/// the press of the select key only, then drag, then zoom.
pub open spec fn controlled(c: CameraRig, input: Input, now: u64) -> CameraRig {
    let s = if input.select_down && !c.prev_enter_state {
        selected_next(c, now)
    } else {
        c
    };
    let s2 = CameraRig { prev_enter_state: input.select_down, ..s };
    let s3 = if input.drag_down {
        CameraRig {
            phi: ((s2.phi - DRAG_SPEED * input.pointer_dx) % (TURN as int)) as i64,
            theta: clamp(s2.theta - DRAG_SPEED * input.pointer_dy, -POLAR_LIMIT, POLAR_LIMIT as int)
                as i64,
            ..s2
        }
    } else {
        s2
    };
    CameraRig {
        distance: zoomed(
            s3.distance as int,
            s3.selected_body_radius as int,
            input.scroll as int,
            s3.limits,
        ) as i64,
        ..s3
    }
}

/// Transition progress at `now`, in `EASE_ONE`-ths: 0 at the start, one once
/// `duration` has passed.
pub open spec fn progress(now: int, start: int, duration: int) -> int {
    if now <= start {
        0
    } else {
        clamp((now - start) * EASE_ONE / duration, 0, EASE_ONE as int)
    }
}

/// The point `e` `EASE_ONE`-ths of the way from `a` to `b`, rounded toward `a`.
pub open spec fn lerp(a: int, b: int, e: int) -> int {
    a + div_toward_zero((b - a) * e, EASE_ONE as int)
}

impl CameraRig {
    pub open spec fn wf(&self) -> bool {
        &&& self.selection < self.body_count
        &&& self.transition_duration > 0
        &&& 0 <= self.phi < TURN
        &&& -POLAR_LIMIT <= self.theta <= POLAR_LIMIT
        &&& 0 <= self.distance <= MAX_DISTANCE
        &&& self.selected_body_radius <= MAX_LENGTH
        &&& self.selected_pos.within(4 * MAX_LENGTH)
        &&& self.prev_selected_pos.within(4 * MAX_LENGTH)
        &&& self.limits.wf()
    }

    /// The look-at target at time `now`: eased from the previous selection's
    /// position to the current one's.
    pub open spec fn target_at(&self, now: int) -> (int, int, int) {
        let e = eased(progress(now, self.transition as int, self.transition_duration as int));
        (
            lerp(self.prev_selected_pos.x as int, self.selected_pos.x as int, e),
            lerp(self.prev_selected_pos.y as int, self.selected_pos.y as int, e),
            lerp(self.prev_selected_pos.z as int, self.selected_pos.z as int, e),
        )
    }
}

/// The rig after each tick of `ticks` in order, each an input and its time.
pub open spec fn control_run(c: CameraRig, ticks: Seq<(Input, u64)>) -> CameraRig
    decreases ticks.len(),
{
    if ticks.len() == 0 {
        c
    } else {
        control_run(controlled(c, ticks[0].0, ticks[0].1), ticks.drop_first())
    }
}

/// Whatever is scrolled, the distance after a tick of control lies within
/// the zoom limits around the selected body's radius as it then stands.
pub proof fn lemma_zoom_within_limits(c: CameraRig, input: Input, now: u64)
    requires
        c.wf(),
    ensures
        ({
            let n = controlled(c, input, now);
            &&& n.limits == c.limits
            &&& n.limits.low(n.selected_body_radius as int) <= n.distance
            &&& n.distance <= n.limits.high(n.selected_body_radius as int)
        }),
{
    let n = controlled(c, input, now);
    let r = n.selected_body_radius as int;
    let l = c.limits;
    assert(0 <= r * l.min_factor <= r * l.max_factor <= 0x100_0000_0000 * 0x10_0000) by (nonlinear_arith)
        requires
            0 <= r <= 0x100_0000_0000,
            l.min_factor <= l.max_factor <= 0x10_0000,
    ;
}

proof fn lemma_held_key_keeps_selection(c: CameraRig, ticks: Seq<(Input, u64)>)
    requires
        c.prev_enter_state,
        forall|k: int| 0 <= k < ticks.len() ==> (#[trigger] ticks[k]).0.select_down,
    ensures
        control_run(c, ticks).selection == c.selection,
        control_run(c, ticks).prev_enter_state,
    decreases ticks.len(),
{
    if ticks.len() > 0 {
        let n = controlled(c, ticks[0].0, ticks[0].1);
        assert(ticks[0].0.select_down);
        assert forall|k: int| 0 <= k < ticks.drop_first().len() implies (
        #[trigger] ticks.drop_first()[k]).0.select_down by {
            assert(ticks.drop_first()[k] == ticks[k + 1]);
        }
        lemma_held_key_keeps_selection(n, ticks.drop_first());
    }
}

/// Holding the select key down over any number of ticks advances the
/// selection once, on the tick it goes down, and never again while held.
pub proof fn lemma_held_key_selects_once(c: CameraRig, ticks: Seq<(Input, u64)>)
    requires
        ticks.len() >= 1,
        forall|k: int| 0 <= k < ticks.len() ==> (#[trigger] ticks[k]).0.select_down,
    ensures
        control_run(c, ticks).selection == if c.prev_enter_state {
            c.selection as int
        } else {
            next_selection(c.selection as int, c.body_count as int)
        },
{
    let n = controlled(c, ticks[0].0, ticks[0].1);
    assert(ticks[0].0.select_down);
    assert forall|k: int| 0 <= k < ticks.drop_first().len() implies (
    #[trigger] ticks.drop_first()[k]).0.select_down by {
        assert(ticks.drop_first()[k] == ticks[k + 1]);
    }
    lemma_held_key_keeps_selection(n, ticks.drop_first());
}

/// `a / b` rounded toward zero.
fn div_toward_zero_exec(a: i128, b: i128) -> (r: i128)
    requires
        b > 0,
        -0x1_0000_0000_0000_0000_0000_0000_0000 <= a <= 0x1_0000_0000_0000_0000_0000_0000_0000,
    ensures
        r == div_toward_zero(a as int, b as int),
{
    if a >= 0 {
        (a as u128 / b as u128) as i128
    } else {
        0 - ((0 - a) as u128 / b as u128) as i128
    }
}

fn clamp_exec(v: i128, lo: i128, hi: i128) -> (r: i128)
    ensures
        r == clamp(v as int, lo as int, hi as int),
{
    if v < lo {
        lo
    } else if v > hi {
        hi
    } else {
        v
    }
}

/// The exec form of `zoomed`.
fn zoom_distance(d: i64, r: u64, scroll: i32, limits: ZoomLimits) -> (nd: i64)
    requires
        0 <= d <= MAX_DISTANCE,
        r <= MAX_LENGTH,
        limits.wf(),
    ensures
        nd == zoomed(d as int, r as int, scroll as int, limits),
        limits.low(r as int) <= nd <= limits.high(r as int),
        0 <= nd <= MAX_DISTANCE,
{
    let diff: i128 = d as i128 - r as i128;
    proof {
        let x = diff as int;
        let sc = scroll as int;
        assert(-0x1_0000_0000_0000_0000_0000_0000_0000 <= x * 15 * sc <= 0x1_0000_0000_0000_0000_0000_0000_0000) by (nonlinear_arith)
            requires
                -0x4000_0000_0000_0000 - 0x100_0000_0000 <= x <= 0x4000_0000_0000_0000,
                -0x8000_0000 <= sc <= 0x7fff_ffff,
        ;
    }
    let prod: i128 = diff * (ZOOM_NUM as i128) * (scroll as i128);
    let step: i128 = div_toward_zero_exec(prod, ZOOM_DEN as i128);
    proof {
        let pi = prod as int;
        assert(-0x1_0000_0000_0000_0000_0000_0000_0000 <= div_toward_zero(pi, 100) <= 0x1_0000_0000_0000_0000_0000_0000_0000) by (nonlinear_arith)
            requires
                -0x1_0000_0000_0000_0000_0000_0000_0000 <= pi <= 0x1_0000_0000_0000_0000_0000_0000_0000,
        ;
        let ri = r as int;
        assert(0 <= ri * limits.min_factor <= ri * limits.max_factor <= 0x100_0000_0000 * 0x10_0000) by (nonlinear_arith)
            requires
                0 <= ri <= 0x100_0000_0000,
                limits.min_factor <= limits.max_factor <= 0x10_0000,
        ;
    }
    let v: i128 = d as i128 - step;
    let lo: i128 = r as i128 * limits.min_factor as i128;
    let hi: i128 = r as i128 * limits.max_factor as i128 + limits.offset as i128;
    clamp_exec(v, lo, hi) as i64
}

/// The exec form of `lerp`.
fn lerp_coord(a: i64, b: i64, e: u64) -> (r: i64)
    requires
        -4 * MAX_LENGTH <= a <= 4 * MAX_LENGTH,
        -4 * MAX_LENGTH <= b <= 4 * MAX_LENGTH,
        e <= EASE_ONE,
    ensures
        r == lerp(a as int, b as int, e as int),
        -4 * MAX_LENGTH <= r <= 4 * MAX_LENGTH,
{
    let diff: i128 = b as i128 - a as i128;
    proof {
        let x = diff as int;
        let ei = e as int;
        assert(-0x100_0000_0000_0000 * 1_000_000 <= x * ei <= 0x100_0000_0000_0000 * 1_000_000) by (nonlinear_arith)
            requires
                -0x100_0000_0000_0000 <= x <= 0x100_0000_0000_0000,
                0 <= ei <= 1_000_000,
        ;
    }
    let prod: i128 = diff * (e as i128);
    let step: i128 = div_toward_zero_exec(prod, EASE_ONE as i128);
    proof {
        let x = diff as int;
        let ei = e as int;
        if x >= 0 {
            assert(0 <= x * ei / 1_000_000 <= x) by (nonlinear_arith)
                requires
                    0 <= x,
                    0 <= ei <= 1_000_000,
            ;
        } else {
            assert(0 <= (-(x * ei)) / 1_000_000 <= -x) by (nonlinear_arith)
                requires
                    x < 0,
                    0 <= ei <= 1_000_000,
            ;
        }
    }
    (a as i128 + step) as i64
}

impl CameraRig {
    /// A rig following body `selection` of `body_count`, at rest.
    pub fn new(
        body_count: usize,
        selection: usize,
        phi: i64,
        distance: i64,
        limits: ZoomLimits,
        transition_duration: u64,
    ) -> (r: CameraRig)
        requires
            selection < body_count,
            0 <= phi < TURN,
            0 <= distance <= MAX_DISTANCE,
            limits.wf(),
            transition_duration > 0,
        ensures
            r.wf(),
            r == (CameraRig {
                selection,
                body_count,
                selected_body_radius: 0,
                selected_pos: Vec3 { x: 0, y: 0, z: 0 },
                prev_selected_pos: Vec3 { x: 0, y: 0, z: 0 },
                transition: 0,
                transition_duration,
                phi,
                theta: 0,
                distance,
                prev_enter_state: false,
                limits,
            }),
    {
        CameraRig {
            selection,
            body_count,
            selected_body_radius: 0,
            selected_pos: Vec3 { x: 0, y: 0, z: 0 },
            prev_selected_pos: Vec3 { x: 0, y: 0, z: 0 },
            transition: 0,
            transition_duration,
            phi,
            theta: 0,
            distance,
            prev_enter_state: false,
            limits,
        }
    }

    /// Selects the next body, wrapping past the last, and starts a transition
    /// from the current target at time `now`.
    pub fn select_next(&mut self, now: u64)
        requires
            old(self).wf(),
        ensures
            final(self).wf(),
            *final(self) == selected_next(*old(self), now),
    {
        if self.selection + 1 >= self.body_count {
            self.selection = 0;
        } else {
            self.selection = self.selection + 1;
        }
        self.selected_body_radius = 0;
        self.prev_selected_pos = self.selected_pos;
        self.transition = now;
    }

    /// One tick of input at time `now`: the select key advances the
    /// selection on its press only; a drag turns the camera; scrolling
    /// zooms, within the limits around the selected body.
    pub fn control(&mut self, input: &Input, now: u64)
        requires
            old(self).wf(),
        ensures
            final(self).wf(),
            *final(self) == controlled(*old(self), *input, now),
    {
        if input.select_down && !self.prev_enter_state {
            self.select_next(now);
        }
        self.prev_enter_state = input.select_down;
        if input.drag_down {
            let v: i64 = self.phi - DRAG_SPEED * (input.pointer_dx as i64);
            let w: i64 = if v >= 0 {
                (v as u64 % TURN) as i64
            } else {
                let m: u64 = (0 - v) as u64 % TURN;
                if m == 0 {
                    0
                } else {
                    (TURN - m) as i64
                }
            };
            assert(w == (v as int) % (TURN as int));
            self.phi = w;
            let u: i64 = self.theta - DRAG_SPEED * (input.pointer_dy as i64);
            self.theta = clamp_exec(u as i128, -POLAR_LIMIT as i128, POLAR_LIMIT as i128) as i64;
        }
        self.distance = zoom_distance(self.distance, self.selected_body_radius, input.scroll, self.limits);
    }

    /// Follows the selected body to where the system last placed it.
    pub fn track(&mut self, system: &StarSystem)
        requires
            old(self).wf(),
            system.wf(),
            old(self).body_count == system.bodies().len(),
        ensures
            final(self).wf(),
            *final(self) == (CameraRig {
                selected_pos: system.bodies()[old(self).selection as int].position,
                selected_body_radius: system.bodies()[old(self).selection as int].body_radius,
                ..*old(self)
            }),
    {
        let b = system.body(self.selection);
        assert(crate::system::body_ok(system.bodies(), system.index().boxes(), self.selection as int));
        self.selected_pos = b.position;
        self.selected_body_radius = b.body_radius;
    }

    /// Transition progress at `now`, in `EASE_ONE`-ths.
    pub fn progress_at(&self, now: u64) -> (r: u64)
        requires
            self.wf(),
        ensures
            r == progress(now as int, self.transition as int, self.transition_duration as int),
            r <= EASE_ONE,
    {
        if now <= self.transition {
            0
        } else {
            let span: u128 = (now - self.transition) as u128;
            proof {
                let x = span as int;
                assert(x * 1_000_000 <= 0x1_0000_0000_0000_0000 * 1_000_000) by (nonlinear_arith)
                    requires
                        0 <= x <= 0x1_0000_0000_0000_0000,
                ;
            }
            let el: u128 = span * EASE_ONE as u128 / self.transition_duration as u128;
            if el > EASE_ONE as u128 {
                EASE_ONE
            } else {
                el as u64
            }
        }
    }

    /// The look-at target at time `now`.
    pub fn look_target(&self, now: u64) -> (r: Vec3)
        requires
            self.wf(),
        ensures
            r@ == self.target_at(now as int),
    {
        let e = cubic_ease_out(self.progress_at(now));
        Vec3 {
            x: lerp_coord(self.prev_selected_pos.x, self.selected_pos.x, e),
            y: lerp_coord(self.prev_selected_pos.y, self.selected_pos.y, e),
            z: lerp_coord(self.prev_selected_pos.z, self.selected_pos.z, e),
        }
    }
}

} // verus!
