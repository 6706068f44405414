//! The coalescing change-notification slot that drives redraws: any number of
//! mutating sites raise it, one consumer drains it. The signal is a level,
//! not an edge — raising it twice before the consumer looks is one wake-up.

use vstd::prelude::*;

verus! {

/// A single-slot "something changed" signal. One signal counts as pending at
/// startup so the first frame paints before any input arrives.
pub struct RedrawSignal {
    pending: bool,
}

impl RedrawSignal {
    /// Whether a wake-up is owed to the consumer.
    pub closed spec fn is_pending(&self) -> bool {
        self.pending
    }

    /// A fresh signal already holds one pending wake-up.
    pub fn new() -> (s: RedrawSignal)
        ensures
            s.is_pending(),
    {
        RedrawSignal { pending: true }
    }

    /// Raises the signal. Raising an already-raised signal changes nothing:
    /// notifications coalesce instead of queueing.
    pub fn notify(&mut self)
        ensures
            final(self).is_pending(),
    {
        self.pending = true;
    }

    /// Drains the signal: reports whether a wake-up was pending and clears
    /// it, so the consumer repaints once per burst of notifications.
    pub fn consume(&mut self) -> (was_pending: bool)
        ensures
            was_pending == old(self).is_pending(),
            !final(self).is_pending(),
    {
        let was_pending = self.pending;
        self.pending = false;
        was_pending
    }
}

} // verus!
