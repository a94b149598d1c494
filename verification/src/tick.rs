//! Fixed-interval tick clock: accumulates elapsed real time and signals
//! readiness once per period, decoupling the simulation rate from the
//! variable render frame rate.

use vstd::prelude::*;

verus! {

/// A repeating timer over integer milliseconds. It accumulates frame
/// deltas and reports ready exactly when the accumulated time reaches
/// the period; on firing it resets to zero, dropping any surplus beyond
/// the period rather than catching up with extra ticks.
pub struct TickTimer {
    pub period_ms: u64,
    pub elapsed_ms: u64,
}

impl TickTimer {
    /// Well-formedness: the period is positive and the accumulator always
    /// holds strictly less than one period.
    pub open spec fn wf(self) -> bool {
        &&& self.period_ms > 0
        &&& self.elapsed_ms < self.period_ms
    }

    /// A fresh timer with the given period and nothing accumulated.
    pub fn new(period_ms: u64) -> (r: TickTimer)
        requires
            period_ms > 0,
        ensures
            r.wf(),
            r.period_ms == period_ms,
            r.elapsed_ms == 0,
    {
        TickTimer { period_ms, elapsed_ms: 0 }
    }

    /// Account for one frame's elapsed time and report whether a
    /// simulation tick is due. The signal comes exactly when the
    /// accumulated time reaches the period; the timer then restarts from
    /// zero, so at most one tick is signalled per call however large the
    /// delta was.
    pub fn tick(&mut self, delta_ms: u64) -> (ready: bool)
        requires
            old(self).wf(),
        ensures
            final(self).wf(),
            final(self).period_ms == old(self).period_ms,
            ready == (old(self).elapsed_ms + delta_ms >= old(self).period_ms),
            final(self).elapsed_ms == if ready {
                0
            } else {
                old(self).elapsed_ms + delta_ms
            },
    {
        if delta_ms >= self.period_ms - self.elapsed_ms {
            self.elapsed_ms = 0;
            true
        } else {
            self.elapsed_ms = self.elapsed_ms + delta_ms;
            false
        }
    }
}

} // verus!
