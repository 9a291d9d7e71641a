use vstd::prelude::*;

verus! {

/// No identity occurs twice in the sequence.
pub open spec fn distinct_ids(s: Seq<u64>) -> bool {
    forall|i: int, j: int| 0 <= i < j < s.len() ==> s[i] != s[j]
}

/// The bounded store of idle context identities.
///
/// Idle contexts wait here between uses. The store is a stack — the most
/// recently returned context is handed out first, to favour cache-warm reuse —
/// and it never grows beyond `max_capacity`: an identity given back to a full
/// store is discarded rather than stored.
pub struct Store {
    max_capacity: usize,
    idle: Vec<u64>,
}

impl Store {
    /// The identities currently idle, oldest first.
    pub closed spec fn contents(self) -> Seq<u64> {
        self.idle@
    }

    /// The bound the store was created with.
    pub closed spec fn max_capacity(self) -> int {
        self.max_capacity as int
    }

    /// Well-formedness: the bound is a machine number and is respected, and
    /// no identity is held twice.
    pub open spec fn wf(self) -> bool {
        &&& self.contents().len() <= self.max_capacity()
        &&& self.max_capacity() <= usize::MAX as int
        &&& distinct_ids(self.contents())
    }

    /// A fresh store is empty.
    pub fn new(max_capacity: usize) -> (s: Store)
        ensures
            s.wf(),
            s.max_capacity() == max_capacity,
            s.contents() == Seq::<u64>::empty(),
    {
        Store { max_capacity, idle: Vec::new() }
    }

    /// How many identities are currently idle.
    pub fn len(&self) -> (n: usize)
        ensures
            n == self.contents().len(),
    {
        self.idle.len()
    }

    /// Take the most recently returned identity, if any.
    pub fn take(&mut self) -> (r: Option<u64>)
        requires
            old(self).wf(),
        ensures
            final(self).wf(),
            final(self).max_capacity() == old(self).max_capacity(),
            old(self).contents().len() == 0 ==> r is None
                && final(self).contents() == old(self).contents(),
            old(self).contents().len() > 0 ==> r == Some(old(self).contents().last())
                && final(self).contents() == old(self).contents().drop_last(),
    {
        self.idle.pop()
    }

    /// Put an identity back.
    ///
    /// If the store is below its bound the identity is pushed and `true` is
    /// returned; a full store is left unchanged and the identity is discarded,
    /// so the size bound holds afterwards in either case.
    pub fn give_back(&mut self, id: u64) -> (stored: bool)
        requires
            old(self).wf(),
            !old(self).contents().contains(id),
        ensures
            final(self).wf(),
            final(self).max_capacity() == old(self).max_capacity(),
            stored <==> old(self).contents().len() < old(self).max_capacity(),
            stored ==> final(self).contents() == old(self).contents().push(id),
            !stored ==> final(self).contents() == old(self).contents(),
            final(self).contents().len() <= final(self).max_capacity(),
    {
        if self.idle.len() < self.max_capacity {
            self.idle.push(id);
            true
        } else {
            false
        }
    }
}

} // verus!
