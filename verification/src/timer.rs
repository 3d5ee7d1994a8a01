//! A cooldown gating how often an action may happen.
//!
//! The counter accumulates elapsed time up to its period and is consumed —
//! reset to zero — when the gated action fires, so the action can fire at
//! most once per completed period. This replaces the finished-then-reset-
//! then-tick idiom of repeating timers with a single abstraction.

use vstd::prelude::*;

verus! {

/// A cooldown: `elapsed_ms` accumulates up to `period_ms` and is reset to
/// zero when the gated action fires.
#[derive(Clone, Copy, Debug, PartialEq, Eq, Structural)]
pub struct Cooldown {
    pub period_ms: u32,
    pub elapsed_ms: u32,
}

impl Cooldown {
    /// Well-formed: the accumulated time never passes the period.
    pub open spec fn wf(self) -> bool {
        self.elapsed_ms <= self.period_ms
    }

    /// Whether a full period has elapsed since the last consumption.
    pub open spec fn is_ready(self) -> bool {
        self.elapsed_ms >= self.period_ms
    }

    /// The cooldown after accumulating `dt` of elapsed time, capped at the
    /// period.
    pub open spec fn spec_ticked(self, dt: int) -> Cooldown {
        Cooldown {
            period_ms: self.period_ms,
            elapsed_ms: if self.elapsed_ms + dt < self.period_ms {
                (self.elapsed_ms + dt) as u32
            } else {
                self.period_ms
            },
        }
    }

    /// The cooldown right after its action fired.
    pub open spec fn spec_consumed(self) -> Cooldown {
        Cooldown { period_ms: self.period_ms, elapsed_ms: 0 }
    }

    /// A fresh cooldown that must first accumulate a full period.
    pub fn new(period_ms: u32) -> (c: Cooldown)
        ensures
            c.period_ms == period_ms,
            c.elapsed_ms == 0,
            c.wf(),
    {
        Cooldown { period_ms, elapsed_ms: 0 }
    }

    /// A cooldown already part-way through its period, as used to de-phase
    /// the attack timers of a freshly spawned wave.
    pub fn with_elapsed(period_ms: u32, elapsed_ms: u32) -> (c: Cooldown)
        requires
            elapsed_ms <= period_ms,
        ensures
            c.period_ms == period_ms,
            c.elapsed_ms == elapsed_ms,
            c.wf(),
    {
        Cooldown { period_ms, elapsed_ms }
    }

    /// Whether the gated action may fire now.
    pub fn ready(&self) -> (r: bool)
        ensures
            r == self.is_ready(),
    {
        self.elapsed_ms >= self.period_ms
    }

    /// Accumulates `dt_ms` of elapsed time, capped at the period.
    pub fn tick(&mut self, dt_ms: u32)
        ensures
            final(self).period_ms == old(self).period_ms,
            final(self).elapsed_ms == if old(self).elapsed_ms + dt_ms < old(self).period_ms {
                old(self).elapsed_ms + dt_ms
            } else {
                old(self).period_ms as int
            },
            *final(self) == old(self).spec_ticked(dt_ms as int),
            final(self).wf(),
    {
        if self.elapsed_ms < self.period_ms && dt_ms < self.period_ms - self.elapsed_ms {
            self.elapsed_ms = self.elapsed_ms + dt_ms;
        } else {
            self.elapsed_ms = self.period_ms;
        }
    }

    /// Marks the gated action as fired: the accumulated time starts over.
    pub fn consume(&mut self)
        ensures
            final(self).period_ms == old(self).period_ms,
            final(self).elapsed_ms == 0,
            *final(self) == old(self).spec_consumed(),
            final(self).wf(),
    {
        self.elapsed_ms = 0;
    }

    /// Accumulates `dt_ms` and reports whether a full period completed; if
    /// so the accumulated time starts over, so the result is true at most
    /// once per completed period.
    pub fn try_consume(&mut self, dt_ms: u32) -> (fired: bool)
        ensures
            final(self).period_ms == old(self).period_ms,
            fired == (old(self).elapsed_ms + dt_ms >= old(self).period_ms),
            final(self).elapsed_ms == if fired {
                0int
            } else {
                old(self).elapsed_ms + dt_ms
            },
            old(self).wf() ==> final(self).wf(),
    {
        if self.elapsed_ms >= self.period_ms || dt_ms >= self.period_ms - self.elapsed_ms {
            self.elapsed_ms = 0;
            true
        } else {
            self.elapsed_ms = self.elapsed_ms + dt_ms;
            false
        }
    }

    /// Restarts the period from zero with a new duration, as when the
    /// active weapon changes.
    pub fn restart(&mut self, period_ms: u32)
        ensures
            final(self).period_ms == period_ms,
            final(self).elapsed_ms == 0,
            final(self).wf(),
    {
        self.period_ms = period_ms;
        self.elapsed_ms = 0;
    }
}

} // verus!
