//! The concurrency limiter: a counting permit pool that caps how many
//! upload workers run at once.
//!
//! The pool's sole correctness invariant is that the permits held
//! never exceed the configured capacity. Releasing a permit that was
//! never acquired is a programming error; `release` excludes it by
//! precondition, and an unverified caller must check before calling
//! and fail loudly rather than corrupt the capacity.

use vstd::prelude::*;

verus! {

/// A counting permit pool with a fixed capacity.
pub struct PermitPool {
    /// How many permits exist in all; set once at construction.
    pub capacity: u8,
    /// How many permits are currently held by workers.
    pub held: u8,
}

impl PermitPool {
    /// The pool's invariant: a legal capacity, never overdrawn.
    pub open spec fn wf(&self) -> bool {
        1 <= self.capacity <= 16 && self.held <= self.capacity
    }

    /// A fresh pool with `capacity` permits, none held.
    pub fn new(capacity: u8) -> (p: Self)
        requires
            1 <= capacity <= 16,
        ensures
            p.wf(),
            p.capacity == capacity,
            p.held == 0,
    {
        PermitPool { capacity, held: 0 }
    }

    /// Takes a permit if one is free. Returns whether one was taken;
    /// the count of held permits never passes the capacity.
    pub fn try_acquire(&mut self) -> (got: bool)
        requires
            old(self).wf(),
        ensures
            final(self).wf(),
            final(self).capacity == old(self).capacity,
            got <==> old(self).held < old(self).capacity,
            got ==> final(self).held == old(self).held + 1,
            !got ==> final(self).held == old(self).held,
    {
        if self.held < self.capacity {
            self.held = self.held + 1;
            true
        } else {
            false
        }
    }

    /// Returns one held permit to the pool.
    pub fn release(&mut self)
        requires
            old(self).wf(),
            old(self).held > 0,
        ensures
            final(self).wf(),
            final(self).capacity == old(self).capacity,
            final(self).held == old(self).held - 1,
    {
        self.held = self.held - 1;
    }
}

} // verus!
