//! The fixed-timestep accumulator that decouples simulation ticks from frames.
use vstd::prelude::*;

verus! {

/// Time units in one simulation tick.
pub const DELTA_T: u64 = 16;

/// Time not yet simulated, and the clock reading it was measured to.
#[derive(Clone, Copy, Debug, PartialEq, Eq, Structural)]
pub struct FixedStep {
    /// Clock reading at the start of the last frame.
    pub previous: u64,
    /// Elapsed time not yet consumed by ticks.
    pub lag: u64,
    /// Length of one tick.
    pub delta: u64,
}

impl FixedStep {
    pub open spec fn wf(&self) -> bool {
        self.delta > 0
    }

    /// An accumulator with nothing owed, measuring from clock reading `start`.
    pub fn new(start: u64, delta: u64) -> (r: FixedStep)
        requires
            delta > 0,
        ensures
            r.wf(),
            r == (FixedStep { previous: start, lag: 0, delta }),
    {
        FixedStep { previous: start, lag: 0, delta }
    }

    /// Starts a frame at clock reading `now`: the time since the last frame
    /// (none if the clock went back) is added to the lag, which saturates.
    pub fn begin_frame(&mut self, now: u64)
        requires
            old(self).wf(),
        ensures
            final(self).wf(),
            final(self).delta == old(self).delta,
            final(self).previous == now,
            final(self).lag == if now >= old(self).previous {
                if old(self).lag + (now - old(self).previous) > u64::MAX {
                    u64::MAX as int
                } else {
                    old(self).lag + (now - old(self).previous)
                }
            } else {
                old(self).lag as int
            },
    {
        if now >= self.previous {
            let elapsed = now - self.previous;
            self.lag = self.lag.saturating_add(elapsed);
        }
        self.previous = now;
    }

    /// A tick is owed.
    pub fn tick_due(&self) -> (r: bool)
        ensures
            r == (self.lag >= self.delta),
    {
        self.lag >= self.delta
    }

    /// Ends a tick: consumes one tick of lag and says to go on catching up,
    /// unless the scene is stale, in which case the lag stays and catching up
    /// stops.
    pub fn finish_tick(&mut self, stale: bool) -> (go_on: bool)
        requires
            old(self).wf(),
            old(self).lag >= old(self).delta,
        ensures
            final(self).wf(),
            go_on == !stale,
            *final(self) == if stale {
                *old(self)
            } else {
                FixedStep { lag: (old(self).lag - old(self).delta) as u64, ..*old(self) }
            },
    {
        if stale {
            false
        } else {
            self.lag = self.lag - self.delta;
            true
        }
    }

    /// Catches up with no stale scene: runs the ticks owed and returns how
    /// many, leaving less than one tick of lag.
    pub fn drain(&mut self) -> (ticks: u64)
        requires
            old(self).wf(),
        ensures
            final(self).wf(),
            ticks == old(self).lag / old(self).delta,
            *final(self) == (FixedStep { lag: old(self).lag % old(self).delta, ..*old(self) }),
    {
        let mut ticks: u64 = 0;
        while self.tick_due()
            invariant
                self.wf(),
                self.delta == old(self).delta,
                self.previous == old(self).previous,
                old(self).lag == ticks * self.delta + self.lag,
                ticks <= old(self).lag,
            decreases self.lag,
        {
            proof {
                let q = ticks as int;
                let d = self.delta as int;
                assert((q + 1) * d == q * d + d) by (nonlinear_arith);
                assert(q + 1 <= (q + 1) * d) by (nonlinear_arith)
                    requires
                        q >= 0,
                        d >= 1,
                ;
            }
            self.finish_tick(false);
            ticks = ticks + 1;
        }
        proof {
            let a = old(self).lag as int;
            let d = self.delta as int;
            let q = ticks as int;
            let r = self.lag as int;
            vstd::arithmetic::div_mod::lemma_fundamental_div_mod_converse(a, d, q, r);
        }
        ticks
    }
}

} // verus!
