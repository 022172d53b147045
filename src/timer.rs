use vstd::prelude::*;

verus! {

/// A repeating timer that gates the fixed simulation step: time is fed in
/// frame by frame, and the timer fires each time a full period has built up.
pub struct MoveTimer {
    period_ms: u64,
    elapsed_ms: u64,
}

impl MoveTimer {
    /// Length of one period, in milliseconds.
    pub closed spec fn period(&self) -> nat {
        self.period_ms as nat
    }

    /// Time built up since the timer last fired, in milliseconds.
    pub closed spec fn elapsed(&self) -> nat {
        self.elapsed_ms as nat
    }

    /// The period is positive and the time built up is less than one period.
    pub open spec fn wf(&self) -> bool {
        0 < self.period() && self.elapsed() < self.period()
    }

    /// A timer with no time built up yet.
    pub fn new(period_ms: u64) -> (r: MoveTimer)
        requires
            period_ms > 0,
        ensures
            r.wf(),
            r.period() == period_ms,
            r.elapsed() == 0,
    {
        MoveTimer { period_ms, elapsed_ms: 0 }
    }

    /// Length of one period, in milliseconds.
    pub fn period_ms(&self) -> (r: u64)
        ensures
            r == self.period(),
    {
        self.period_ms
    }

    /// Time built up since the timer last fired, in milliseconds.
    pub fn elapsed_ms(&self) -> (r: u64)
        ensures
            r == self.elapsed(),
    {
        self.elapsed_ms
    }

    /// Adds `dt_ms` of time; returns whether at least one full period was
    /// completed, and keeps only the remainder past the last completed period.
    pub fn advance(&mut self, dt_ms: u64) -> (fired: bool)
        requires
            old(self).wf(),
        ensures
            final(self).wf(),
            final(self).period() == old(self).period(),
            fired == (old(self).elapsed() + dt_ms >= old(self).period()),
            final(self).elapsed() == (old(self).elapsed() + dt_ms) % (old(self).period() as int),
    {
        let total: u128 = self.elapsed_ms as u128 + dt_ms as u128;
        let period: u128 = self.period_ms as u128;
        let fired = total >= period;
        let rest: u128 = total % period;
        self.elapsed_ms = rest as u64;
        fired
    }
}

} // verus!
