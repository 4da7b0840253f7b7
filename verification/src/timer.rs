//! Fixed-timestep accumulators.
//!
//! Two of these drive the simulation: a fast one for the movement tick
//! and a slower one for the food spawn.  Each accumulates the elapsed
//! time a monotonic clock reports and fires once per full period,
//! subtracting the period rather than resetting, so phase is kept across
//! frames of uneven duration.

use vstd::prelude::*;

verus! {

/// One fixed-timestep accumulator, in whatever time unit the caller's
/// clock reports (the game's usual periods are 150 ms between moves and
/// 500 ms between food-spawn attempts).
pub struct TickTimer {
    /// The fixed period between firings.  Always positive.
    pub period: u64,
    /// Time accumulated towards the next firing.  Always below the
    /// period.
    pub acc: u64,
}

impl TickTimer {
    /// The accumulator owes less than one full period.
    pub open spec fn wf(self) -> bool {
        0 < self.period && self.acc < self.period
    }

    /// A fresh timer that first fires one full period from now.
    pub fn new(period: u64) -> (t: TickTimer)
        requires
            0 < period,
        ensures
            t.wf(),
            t.period == period,
            t.acc == 0,
    {
        TickTimer { period, acc: 0 }
    }

    /// Feed the timer the time elapsed since it was last fed and learn
    /// how many times it fires: one firing per full period accumulated,
    /// the remainder carried over.  The bound on `elapsed` is a machine
    /// limit: the sum must fit the accumulator's word.
    pub fn advance(&mut self, elapsed: u64) -> (fires: u64)
        requires
            old(self).wf(),
            old(self).acc + elapsed <= u64::MAX,
        ensures
            final(self).wf(),
            final(self).period == old(self).period,
            fires == (old(self).acc + elapsed) as int / old(self).period as int,
            final(self).acc == (old(self).acc + elapsed) as int % old(self).period as int,
    {
        let total = self.acc + elapsed;
        let fires = total / self.period;
        self.acc = total % self.period;
        fires
    }
}

} // verus!
