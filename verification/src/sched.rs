//! Admission control for the bounded-concurrency scheduler: a pool of
//! permits that tasks take for their whole lifetime. However admissions and
//! completions interleave, the number of admitted tasks never exceeds the
//! limit the pool was created with.

use vstd::prelude::*;

verus! {

/// The permit pool: `active` tasks currently hold a permit out of `limit`.
pub struct PermitPool {
    limit: usize,
    active: usize,
}

impl PermitPool {
    /// How many tasks may run at once.
    pub closed spec fn limit(&self) -> int {
        self.limit as int
    }

    /// How many tasks hold a permit now.
    pub closed spec fn active(&self) -> int {
        self.active as int
    }

    /// The pool's invariant: admitted tasks never outnumber the limit.
    pub open spec fn wf(&self) -> bool {
        0 <= self.active() <= self.limit()
    }

    /// A fresh pool with the given concurrency limit and no task admitted.
    pub fn new(limit: usize) -> (r: PermitPool)
        requires
            limit >= 1,
        ensures
            r.wf(),
            r.limit() == limit,
            r.active() == 0,
    {
        PermitPool { limit, active: 0 }
    }

    /// Admit one task if a permit is free; a full pool admits nothing, so
    /// the active count can never pass the limit.
    pub fn try_acquire(&mut self) -> (admitted: bool)
        requires
            old(self).wf(),
        ensures
            final(self).wf(),
            final(self).limit() == old(self).limit(),
            admitted == (old(self).active() < old(self).limit()),
            admitted ==> final(self).active() == old(self).active() + 1,
            !admitted ==> final(self).active() == old(self).active(),
    {
        if self.active < self.limit {
            self.active = self.active + 1;
            true
        } else {
            false
        }
    }

    /// Return the permit of one finished task, whatever its outcome.
    pub fn release(&mut self)
        requires
            old(self).wf(),
            old(self).active() >= 1,
        ensures
            final(self).wf(),
            final(self).limit() == old(self).limit(),
            final(self).active() == old(self).active() - 1,
    {
        self.active = self.active - 1;
    }

    /// How many tasks hold a permit, as a value.
    pub fn active_count(&self) -> (r: usize)
        ensures
            r == self.active(),
    {
        self.active
    }

    /// The pool's limit, as a value.
    pub fn limit_value(&self) -> (r: usize)
        ensures
            r == self.limit(),
    {
        self.limit
    }
}

} // verus!
