//! The schedule of a polling loop: one tick per period, where a late tick
//! pushes the following ones back instead of letting them run in a burst.
use vstd::prelude::*;
use crate::instant::{max_unix_nanos, Timestamp};

verus! {

/// The state of one polling loop: its period and when its next tick is due.
#[derive(Clone, Copy, Debug, PartialEq, Eq, Structural)]
pub struct Ticker {
    pub period_nanos: u64,
    pub next_due: i128,
}

impl Ticker {
    /// A period and a due time that timestamps can carry.
    pub open spec fn wf(self) -> bool {
        self.period_nanos > 0 && self.next_due <= max_unix_nanos() + self.period_nanos
    }

    /// A loop whose first tick is due at `start`.
    pub fn new(start: Timestamp, period_nanos: u64) -> (r: Ticker)
        requires
            start.wf(),
            period_nanos > 0,
        ensures
            r.wf(),
            r.next_due == start.unix_nanos,
            r.period_nanos == period_nanos,
    {
        Ticker { period_nanos, next_due: start.unix_nanos }
    }

    /// Whether the tick is due at `now`.
    pub fn is_due(&self, now: Timestamp) -> (r: bool)
        ensures
            r == (self.next_due <= now.unix_nanos),
    {
        self.next_due <= now.unix_nanos
    }

    /// Records the tick that ran at `now`: the next one is due a period
    /// after the later of its due time and `now`.
    pub fn tick(&mut self, now: Timestamp)
        requires
            old(self).wf(),
            now.wf(),
            old(self).next_due <= now.unix_nanos,
        ensures
            final(self).wf(),
            final(self).period_nanos == old(self).period_nanos,
            final(self).next_due == now.unix_nanos + old(self).period_nanos,
    {
        self.next_due = now.unix_nanos + self.period_nanos as i128;
    }
}

/// Ticks that run when due are at least one period apart, however late
/// they run: a delay is never made up by a burst.
pub proof fn lemma_no_burst(before: Ticker, first: i128, after: Ticker, second: i128)
    requires
        before.next_due <= first,
        after.next_due == first + before.period_nanos,
        after.next_due <= second,
    ensures
        second - first >= before.period_nanos,
{
}

} // verus!
