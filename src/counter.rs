use vstd::prelude::*;

verus! {

/// Number of passes a worker loop has completed.
#[derive(Clone, Copy, Debug, PartialEq, Eq, Structural)]
pub struct IterationCounter {
    pub count: u64,
}

impl IterationCounter {
    /// A counter at zero.
    pub fn new() -> (r: IterationCounter)
        ensures
            r.count == 0,
    {
        IterationCounter { count: 0 }
    }

    /// Number of passes recorded so far.
    pub fn value(&self) -> (r: u64)
        ensures
            r == self.count,
    {
        self.count
    }

    /// Whether another pass can still be recorded.
    pub open spec fn can_increment(&self) -> bool {
        self.count < u64::MAX
    }

    /// Records one completed pass. Every call that returns `true` adds exactly
    /// one; a counter that is exhausted stays as it is and the call returns
    /// `false`.
    pub fn increment(&mut self) -> (r: bool)
        ensures
            r == old(self).can_increment(),
            r ==> final(self).count == old(self).count + 1,
            !r ==> *final(self) == *old(self),
    {
        if self.count < u64::MAX {
            self.count = self.count + 1;
            true
        } else {
            false
        }
    }
}

} // verus!
