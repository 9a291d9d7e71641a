use vstd::prelude::*;

verus! {

/// An exclusive-access handle on one execution context.
///
/// The pool identifies each context by the value the creation counter had
/// when the factory produced it, so identities are never reissued. A guard
/// carries that identity; while a guard is live its context belongs to the
/// guard's holder alone, and the pool never holds a second guard with the
/// same identity (see the well-formedness of [`crate::pool::Pool`]).
pub struct ContextGuard {
    context_id: u64,
}

impl ContextGuard {
    /// The identity of the wrapped execution context.
    pub closed spec fn id(self) -> u64 {
        self.context_id
    }

    /// Only the pool mints guards: a fresh guard for a given identity.
    pub(crate) fn new(context_id: u64) -> (g: ContextGuard)
        ensures
            g.id() == context_id,
    {
        ContextGuard { context_id }
    }

    /// The identity of the wrapped execution context.
    pub fn context_id(&self) -> (id: u64)
        ensures
            id == self.id(),
    {
        self.context_id
    }
}

} // verus!
