//! Simple counter with ability to notify task on reaching specific number.
//!
//! Counter could be cloned, total count is shared across all clones: the
//! caller shares one `Counter` among its users. A guard is taken for each use
//! and given back when the use ends; a task waiting for room is notified when
//! the count drops from the capacity.
use vstd::prelude::*;

verus! {

pub struct Counter {
    count: usize,
    capacity: usize,
}

/// One use counted by a `Counter`; give it back with `Counter::release`.
pub struct CounterGuard {
    _private: (),
}

impl Counter {
    /// The number of guards out.
    pub closed spec fn count(&self) -> usize {
        self.count
    }

    pub closed spec fn capacity(&self) -> usize {
        self.capacity
    }

    /// Create `Counter` instance and set max value.
    pub fn new(capacity: usize) -> (r: Self)
        ensures
            r.count() == 0,
            r.capacity() == capacity,
    {
        Counter { capacity, count: 0 }
    }

    /// Get counter guard.
    pub fn get(&mut self) -> (r: CounterGuard)
        requires
            old(self).count() < usize::MAX,
        ensures
            final(self).count() == old(self).count() + 1,
            final(self).capacity() == old(self).capacity(),
    {
        self.count = self.count + 1;
        CounterGuard { _private: () }
    }

    /// Gives a guard back. Returns whether a task waiting for room is to be
    /// notified: the count was at the capacity.
    pub fn release(&mut self, guard: CounterGuard) -> (wake: bool)
        requires
            old(self).count() > 0,
        ensures
            final(self).count() == old(self).count() - 1,
            final(self).capacity() == old(self).capacity(),
            wake == (old(self).count() == old(self).capacity()),
    {
        let num = self.count;
        self.count = num - 1;
        num == self.capacity
    }

    /// Check if counter is not at capacity. If counter at capacity the caller
    /// registers its task for a notification.
    pub fn available(&self) -> (r: bool)
        ensures
            r == (self.count() < self.capacity()),
    {
        self.count < self.capacity
    }

    /// Get total number of acquired counts
    pub fn total(&self) -> (r: usize)
        ensures
            r == self.count(),
    {
        self.count
    }
}

} // verus!
