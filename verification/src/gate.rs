use vstd::prelude::*;

verus! {

/// A counting concurrency gate.
///
/// A gate is created with a fixed number of units, its capacity. A caller
/// takes one unit for the whole time a context is outstanding and gives it
/// back when the context returns to the pool, so at most `capacity` contexts
/// are ever outstanding at once. In a concurrent setting a caller that finds
/// no unit available suspends until one is given back; this sequential core
/// reports that situation through [`Gate::try_acquire`] returning `false`,
/// and the surrounding runtime does the waiting.
pub struct Gate {
    capacity: usize,
    permits: usize,
}

impl Gate {
    /// The fixed number of units this gate was created with.
    pub closed spec fn capacity(self) -> int {
        self.capacity as int
    }

    /// The number of units currently available.
    pub closed spec fn permits(self) -> int {
        self.permits as int
    }

    /// Well-formedness: both counts are machine numbers and no more units are
    /// available than were ever created.
    pub open spec fn wf(self) -> bool {
        &&& 0 <= self.permits()
        &&& self.permits() <= self.capacity()
        &&& self.capacity() <= usize::MAX as int
    }

    /// A fresh gate has all of its units available.
    pub fn new(capacity: usize) -> (g: Gate)
        ensures
            g.wf(),
            g.capacity() == capacity,
            g.permits() == capacity,
    {
        Gate { capacity, permits: capacity }
    }

    /// The number of units currently available.
    pub fn available(&self) -> (n: usize)
        ensures
            n == self.permits(),
    {
        self.permits
    }

    /// Try to take one unit without waiting.
    ///
    /// Returns `true` and consumes a unit exactly when one is available;
    /// returns `false` and consumes nothing when no unit is left, so a
    /// caller that abandons the wait has leaked nothing.
    pub fn try_acquire(&mut self) -> (got: bool)
        requires
            old(self).wf(),
        ensures
            final(self).wf(),
            final(self).capacity() == old(self).capacity(),
            got <==> old(self).permits() > 0,
            got ==> final(self).permits() == old(self).permits() - 1,
            !got ==> *final(self) == *old(self),
    {
        if self.permits > 0 {
            self.permits = self.permits - 1;
            true
        } else {
            false
        }
    }

    /// Give one unit back; in a concurrent setting this wakes at most one
    /// waiter. A unit can only be given back if one is actually held.
    pub fn give_back(&mut self)
        requires
            old(self).wf(),
            old(self).permits() < old(self).capacity(),
        ensures
            final(self).wf(),
            final(self).capacity() == old(self).capacity(),
            final(self).permits() == old(self).permits() + 1,
    {
        self.permits = self.permits + 1;
    }
}

} // verus!
