//! Bookkeeping behind the progress display: a side channel for
//! observability only, never consulted for control decisions.
//!
//! The tracker tolerates any sequence of reported positions: the observed
//! position never decreases and never exceeds the total, whatever is fed
//! in, so reporting can never fail the transfer.

use vstd::prelude::*;

verus! {

/// Observes bytes moved against the total and clamps every report into a
/// monotone, bounded reading for the display to render.
pub struct ProgressTracker {
    total: u64,
    current: u64,
    finished: bool,
}

impl ProgressTracker {
    /// The advertised total.
    pub closed spec fn total(&self) -> u64 {
        self.total
    }

    /// The position last shown: between 0 and the total.
    pub closed spec fn position(&self) -> u64 {
        self.current
    }

    /// Whether the completion message has been issued.
    pub closed spec fn is_finished(&self) -> bool {
        self.finished
    }

    pub closed spec fn wf(&self) -> bool {
        self.current <= self.total
    }

    pub fn new(total: u64) -> (t: ProgressTracker)
        ensures
            t.wf(),
            t.total() == total,
            t.position() == 0,
            !t.is_finished(),
    {
        ProgressTracker { total, current: 0, finished: false }
    }

    /// Takes a reported absolute position and clamps it: the reading never
    /// moves backwards and never passes the total. Any value is tolerated,
    /// so a caller's report cannot fail.
    pub fn advance_to(&mut self, n: u64) -> (shown: u64)
        requires
            old(self).wf(),
        ensures
            final(self).wf(),
            final(self).total() == old(self).total(),
            final(self).is_finished() == old(self).is_finished(),
            final(self).position() == if n <= old(self).position() {
                old(self).position()
            } else if n >= old(self).total() {
                old(self).total()
            } else {
                n
            },
            final(self).position() >= old(self).position(),
            shown == final(self).position(),
    {
        if n > self.current {
            if n >= self.total {
                self.current = self.total;
            } else {
                self.current = n;
            }
        }
        self.current
    }

    /// Marks the display finished. The reading keeps its last value; the
    /// completion message is issued regardless of the verification
    /// outcome.
    pub fn finish(&mut self)
        requires
            old(self).wf(),
        ensures
            final(self).wf(),
            final(self).total() == old(self).total(),
            final(self).position() == old(self).position(),
            final(self).is_finished(),
    {
        self.finished = true;
    }
}

} // verus!
