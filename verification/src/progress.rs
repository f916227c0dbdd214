//! The progress counter of one transfer: total expected bytes, bytes
//! transferred so far (monotonically non-decreasing, the sum of all `add`
//! calls), and a terminal finished flag. The transfer path mutates it; a
//! display path may poll the read-only accessors.

use vstd::prelude::*;

verus! {

/// Progress state of one transfer.
pub struct ProgressReporter {
    total: u64,
    transferred: u64,
    active: bool,
    done: bool,
}

impl ProgressReporter {
    /// Total expected length, as set by `start`.
    pub closed spec fn total_spec(&self) -> int {
        self.total as int
    }

    /// Bytes transferred so far: the sum of all `add` calls since `start`.
    pub closed spec fn transferred_spec(&self) -> int {
        self.transferred as int
    }

    /// Whether the transfer was started.
    pub closed spec fn is_active(&self) -> bool {
        self.active
    }

    /// Whether the transfer was marked finished.
    pub closed spec fn is_done(&self) -> bool {
        self.done
    }

    /// A fresh, inactive reporter.
    pub fn new() -> (r: ProgressReporter)
        ensures
            r.total_spec() == 0,
            r.transferred_spec() == 0,
            !r.is_active(),
            !r.is_done(),
    {
        ProgressReporter { total: 0, transferred: 0, active: false, done: false }
    }

    /// Start the transfer: set the expected total and reset the counter.
    pub fn start(&mut self, total: u64)
        ensures
            final(self).total_spec() == total,
            final(self).transferred_spec() == 0,
            final(self).is_active(),
            !final(self).is_done(),
    {
        self.total = total;
        self.transferred = 0;
        self.active = true;
        self.done = false;
    }

    /// Count one chunk of `n` transferred bytes.
    pub fn add(&mut self, n: u64)
        requires
            old(self).transferred_spec() + n <= u64::MAX,
        ensures
            final(self).transferred_spec() == old(self).transferred_spec() + n,
            final(self).total_spec() == old(self).total_spec(),
            final(self).is_active() == old(self).is_active(),
            final(self).is_done() == old(self).is_done(),
    {
        self.transferred = self.transferred + n;
    }

    /// Mark the transfer finished.
    pub fn finish(&mut self)
        ensures
            final(self).is_done(),
            final(self).transferred_spec() == old(self).transferred_spec(),
            final(self).total_spec() == old(self).total_spec(),
            final(self).is_active() == old(self).is_active(),
    {
        self.done = true;
    }

    /// Bytes transferred so far.
    pub fn transferred(&self) -> (r: u64)
        ensures
            r == self.transferred_spec(),
    {
        self.transferred
    }

    /// Total expected bytes.
    pub fn total(&self) -> (r: u64)
        ensures
            r == self.total_spec(),
    {
        self.total
    }

    /// Whether the transfer was marked finished.
    pub fn finished(&self) -> (r: bool)
        ensures
            r == self.is_done(),
    {
        self.done
    }
}

} // verus!
