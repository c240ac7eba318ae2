use vstd::prelude::*;

verus! {

/// A bound on how many executions run at once. Beyond the bound an execution is
/// turned away rather than queued.
pub struct Limiter {
    active: u64,
    max: u64,
}

impl Limiter {
    /// Executions running now.
    pub closed spec fn active(&self) -> nat {
        self.active as nat
    }

    /// The most that may run at once.
    pub closed spec fn max(&self) -> nat {
        self.max as nat
    }

    pub closed spec fn wf(&self) -> bool {
        self.active <= self.max
    }

    pub fn new(max: u64) -> (r: Limiter)
        ensures
            r.wf(),
            r.active() == 0,
            r.max() == max,
    {
        Limiter { active: 0, max }
    }

    /// Admits one more execution if the bound allows it.
    pub fn try_enter(&mut self) -> (admitted: bool)
        requires
            old(self).wf(),
        ensures
            final(self).wf(),
            admitted == (old(self).active() < old(self).max()),
            final(self).max() == old(self).max(),
            final(self).active() == if admitted {
                old(self).active() + 1
            } else {
                old(self).active()
            },
    {
        if self.active < self.max {
            self.active = self.active + 1;
            true
        } else {
            false
        }
    }

    /// Marks one admitted execution as over. With none running, nothing changes.
    pub fn leave(&mut self)
        requires
            old(self).wf(),
        ensures
            final(self).wf(),
            final(self).max() == old(self).max(),
            final(self).active() == if old(self).active() > 0 {
                (old(self).active() - 1) as nat
            } else {
                0
            },
    {
        if self.active > 0 {
            self.active = self.active - 1;
        }
    }

    pub fn in_flight(&self) -> (r: u64)
        ensures
            r == self.active(),
    {
        self.active
    }
}

} // verus!
