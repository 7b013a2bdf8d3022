//! The crash flag and the drained-since-crash signal.
use vstd::prelude::*;

verus! {

/// Crash state: whether a crash is under way, and whether a dispatch loop has
/// since seen its queue empty. Both start false and are never reset.
pub struct CrashState {
    is_crashing: bool,
    drained_since_crash: bool,
}

impl CrashState {
    pub closed spec fn crashing(&self) -> bool {
        self.is_crashing
    }

    pub closed spec fn drained(&self) -> bool {
        self.drained_since_crash
    }

    /// The drained signal is only ever raised during a crash.
    pub open spec fn wf(&self) -> bool {
        self.drained() ==> self.crashing()
    }

    /// The normal state: not crashing, nothing drained.
    pub fn new() -> (r: Self)
        ensures
            !r.crashing(),
            !r.drained(),
            r.wf(),
    {
        CrashState { is_crashing: false, drained_since_crash: false }
    }

    pub fn is_crashing(&self) -> (r: bool)
        ensures
            r == self.crashing(),
    {
        self.is_crashing
    }

    pub fn drained_since_crash(&self) -> (r: bool)
        ensures
            r == self.drained(),
    {
        self.drained_since_crash
    }

    /// Enters the crashing state; the drained signal is left as it was.
    pub fn set_crashing(&mut self)
        requires
            old(self).wf(),
        ensures
            final(self).crashing(),
            final(self).drained() == old(self).drained(),
            final(self).wf(),
    {
        self.is_crashing = true;
    }

    /// Records that a dispatch loop saw its queue empty (or not); during a
    /// crash an empty queue raises the drained signal.
    pub fn observe_queue(&mut self, queue_empty: bool)
        requires
            old(self).wf(),
        ensures
            final(self).crashing() == old(self).crashing(),
            final(self).drained() == (old(self).drained() || (old(self).crashing()
                && queue_empty)),
            final(self).wf(),
    {
        if self.is_crashing && queue_empty {
            self.drained_since_crash = true;
        }
    }
}

} // verus!
