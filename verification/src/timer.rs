//! The repeating simulation timer, counted in integer milliseconds.

use vstd::prelude::*;

verus! {

/// Milliseconds between simulation ticks (0.5 time-units).
pub const SIM_INTERVAL_MS: u64 = 500;

/// A repeating interval gating how often the simulation step runs. It
/// accumulates elapsed time and fires at most once per evaluation: when
/// the accumulated time reaches the interval, one interval is consumed
/// and the remainder is kept (a large jump does not fire several times in
/// one evaluation).
pub struct SimTimer {
    pub interval_ms: u64,
    pub elapsed_ms: u64,
}

impl SimTimer {
    /// Positive interval.
    pub open spec fn wf(self) -> bool {
        1 <= self.interval_ms
    }

    /// A fresh timer with nothing accumulated.
    pub fn new(interval_ms: u64) -> (t: SimTimer)
        requires
            1 <= interval_ms,
        ensures
            t.wf(),
            t.interval_ms == interval_ms,
            t.elapsed_ms == 0,
    {
        SimTimer { interval_ms, elapsed_ms: 0 }
    }

    /// Account for elapsed time and report whether the interval is due.
    /// Fires exactly when the accumulated time reaches the interval, and
    /// then consumes one interval, keeping the remainder.
    pub fn advance(&mut self, delta_ms: u64) -> (fired: bool)
        requires
            old(self).wf(),
            old(self).elapsed_ms + delta_ms <= u64::MAX,
        ensures
            final(self).wf(),
            final(self).interval_ms == old(self).interval_ms,
            fired == (old(self).elapsed_ms + delta_ms >= old(self).interval_ms),
            fired ==> final(self).elapsed_ms == old(self).elapsed_ms + delta_ms - old(
                self,
            ).interval_ms,
            !fired ==> final(self).elapsed_ms == old(self).elapsed_ms + delta_ms,
    {
        self.elapsed_ms = self.elapsed_ms + delta_ms;
        if self.elapsed_ms >= self.interval_ms {
            self.elapsed_ms = self.elapsed_ms - self.interval_ms;
            true
        } else {
            false
        }
    }
}

} // verus!
