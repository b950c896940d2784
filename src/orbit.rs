//! Orbital phase arithmetic: where along its orbit, and how far through its
//! spin, a body is at a given time.
use vstd::prelude::*;

verus! {

/// Angle units in one full turn.
pub const TURN: u64 = 1_000_000;

/// Spin offset added to every rotation: half a turn.
pub const SPIN_PHASE: u64 = 500_000;

/// Fixed-point one for the components of a direction.
pub const DIR_ONE: i64 = 1_000_000;

/// Largest number of directions a table may hold.
pub const MAX_STEPS: usize = 1_048_576;

/// Largest number of period units in one simulated year.
pub const MAX_UNITS_PER_YEAR: u64 = 4_294_967_296;

/// How simulated time maps to years. A body of period `p` (in period units)
/// completes `(t + seed) * units_per_year / (ticks_per_year * p)` turns at
/// time `t`.
#[derive(Clone, Copy, Debug, PartialEq, Eq, Structural)]
pub struct OrbitClock {
    /// Phase shift added to every time, so that bodies do not start in line.
    pub seed: u64,
    /// Period units in one simulated year.
    pub units_per_year: u64,
    /// Time units in one simulated year.
    pub ticks_per_year: u64,
}

impl OrbitClock {
    pub open spec fn wf(&self) -> bool {
        &&& 0 < self.units_per_year <= MAX_UNITS_PER_YEAR
        &&& 0 < self.ticks_per_year
    }
}

pub open spec fn abs(v: int) -> int {
    if v >= 0 { v } else { -v }
}

/// How far through its current turn a body of period `period` is at time
/// `t`, in `resolution`-ths of a turn, rounded down; a negative period turns
/// the other way.
pub open spec fn phase(t: int, clock: OrbitClock, period: int, resolution: int) -> int {
    let k = ((t + clock.seed) * clock.units_per_year * resolution / (clock.ticks_per_year * abs(
        period,
    ))) % resolution;
    if period > 0 {
        k
    } else {
        (resolution - k) % resolution
    }
}

/// The spin angle, in angle units, of a body whose day lasts `day` period units.
pub open spec fn spin_angle(t: int, clock: OrbitClock, day: int) -> int {
    (phase(t, clock, day, TURN as int) + SPIN_PHASE) % (TURN as int)
}

/// `r * d / DIR_ONE`, rounded toward zero.
pub open spec fn scale_by(r: int, d: int) -> int {
    if d >= 0 {
        r * d / (DIR_ONE as int)
    } else {
        -(r * (-d) / (DIR_ONE as int))
    }
}

/// The exec form of `phase`.
pub fn phase_of(t: u64, clock: &OrbitClock, period: i64, resolution: u64) -> (r: u64)
    requires
        clock.wf(),
        period != 0,
        0 < resolution <= MAX_STEPS,
    ensures
        r == phase(t as int, *clock, period as int, resolution as int),
        r < resolution,
{
    let span: u64 = if period > 0 {
        period as u64
    } else {
        (0i128 - period as i128) as u64
    };
    assert(span as int == abs(period as int));
    let elapsed: u128 = t as u128 + clock.seed as u128;
    let units: u128 = clock.units_per_year as u128;
    proof {
        let e = elapsed as int;
        let u = units as int;
        let s = resolution as int;
        assert(e * u * s <= 0x2_0000_0000_0000_0000 * 0x1_0000_0000 * 0x10_0000) by (nonlinear_arith)
            requires
                0 <= e <= 0x2_0000_0000_0000_0000,
                0 <= u <= 0x1_0000_0000,
                0 <= s <= 0x10_0000,
        ;
        assert(0 <= e * u <= 0x2_0000_0000_0000_0000 * 0x1_0000_0000) by (nonlinear_arith)
            requires
                0 <= e <= 0x2_0000_0000_0000_0000,
                0 <= u <= 0x1_0000_0000,
        ;
    }
    let scaled: u128 = elapsed * units * resolution as u128;
    proof {
        let a = clock.ticks_per_year as int;
        let b = span as int;
        assert(0 < a * b <= 0x1_0000_0000_0000_0000 * 0x8000_0000_0000_0000) by (nonlinear_arith)
            requires
                0 < a < 0x1_0000_0000_0000_0000,
                0 < b <= 0x8000_0000_0000_0000,
        ;
    }
    let denom: u128 = clock.ticks_per_year as u128 * span as u128;
    let k: u128 = (scaled / denom) % (resolution as u128);
    if period > 0 {
        k as u64
    } else {
        ((resolution as u128 - k) % resolution as u128) as u64
    }
}

/// A unit direction in the orbital plane, in `DIR_ONE`-ths.
#[derive(Clone, Copy, Debug, PartialEq, Eq, Structural)]
pub struct Dir {
    pub x: i64,
    pub y: i64,
}

impl Dir {
    pub open spec fn valid(&self) -> bool {
        &&& -DIR_ONE <= self.x <= DIR_ONE
        &&& -DIR_ONE <= self.y <= DIR_ONE
    }
}

/// The direction of each of `len` equal fractions of a turn, starting at
/// angle zero and going counter-clockwise: entry `k` holds
/// `(cos(2*pi*k/len), sin(2*pi*k/len))` in `DIR_ONE`-ths.
pub struct DirTable {
    dirs: Vec<Dir>,
}

impl DirTable {
    pub closed spec fn dirs(&self) -> Seq<Dir> {
        self.dirs@
    }

    pub open spec fn wf(&self) -> bool {
        &&& 0 < self.dirs().len() <= MAX_STEPS
        &&& forall|k: int| 0 <= k < self.dirs().len() ==> (#[trigger] self.dirs()[k]).valid()
    }

    /// A table of the given directions: `None` when there are none, more than
    /// `MAX_STEPS`, or one with a component outside `[-DIR_ONE, DIR_ONE]`.
    pub fn new(dirs: Vec<Dir>) -> (r: Option<DirTable>)
        ensures
            r is Some <==> (0 < dirs@.len() <= MAX_STEPS && forall|k: int|
                0 <= k < dirs@.len() ==> (#[trigger] dirs@[k]).valid()),
            r matches Some(t) ==> t.dirs() == dirs@ && t.wf(),
    {
        if dirs.len() == 0 || dirs.len() > MAX_STEPS {
            return None;
        }
        let mut k: usize = 0;
        while k < dirs.len()
            invariant
                k <= dirs@.len(),
                forall|j: int| 0 <= j < k ==> (#[trigger] dirs@[j]).valid(),
            decreases dirs@.len() - k,
        {
            let d = dirs[k];
            if d.x < -DIR_ONE || d.x > DIR_ONE || d.y < -DIR_ONE || d.y > DIR_ONE {
                return None;
            }
            k = k + 1;
        }
        Some(DirTable { dirs })
    }

    /// Number of steps in one turn.
    pub fn steps(&self) -> (r: usize)
        ensures
            r == self.dirs().len(),
    {
        self.dirs.len()
    }

    pub fn get(&self, k: usize) -> (r: Dir)
        requires
            k < self.dirs().len(),
        ensures
            r == self.dirs()[k as int],
    {
        self.dirs[k]
    }
}

/// `r * d / DIR_ONE` rounded toward zero, for a length and a direction component.
pub fn scale_length(r: u64, d: i64) -> (v: i64)
    requires
        r <= crate::geometry::MAX_LENGTH,
        -DIR_ONE <= d <= DIR_ONE,
    ensures
        v == scale_by(r as int, d as int),
        -(r as int) <= v <= r,
{
    let m: u64 = if d >= 0 { d as u64 } else { (0 - d) as u64 };
    proof {
        let ri = r as int;
        let mi = m as int;
        assert(ri * mi <= ri * 1_000_000) by (nonlinear_arith)
            requires
                0 <= ri,
                0 <= mi <= 1_000_000,
        ;
        assert(ri * mi <= 0x1_0000_0000_0000_0000 - 1) by (nonlinear_arith)
            requires
                0 <= ri <= 1_099_511_627_776,
                0 <= mi <= 1_000_000,
        ;
    }
    let q: u64 = r * m / (DIR_ONE as u64);
    proof {
        let ri = r as int;
        let mi = m as int;
        assert(ri * mi / 1_000_000 <= ri) by (nonlinear_arith)
            requires
                0 <= ri,
                0 <= mi <= 1_000_000,
        ;
    }
    if d >= 0 {
        q as i64
    } else {
        0 - q as i64
    }
}

} // verus!
