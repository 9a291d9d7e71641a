use vstd::prelude::*;

use crate::gate::Gate;
use crate::guard::ContextGuard;
use crate::store::{distinct_ids, Store};

verus! {

/// The pool manager: the one surface callers use.
///
/// A caller obtains a context with [`Pool::try_acquire`], uses it exclusively
/// through the returned [`ContextGuard`], and hands it back with
/// [`Pool::release`]. The pool reuses idle contexts before asking the factory
/// for a new one, and a counting gate bounds the number of contexts concurrently
/// outstanding — checked out or being created — at `max_capacity`.
///
/// Creating a context is the factory's job and happens outside the pool: when
/// [`Pool::try_acquire`] answers [`AcquireStep::Creating`] the caller runs the
/// factory and then reports the outcome with [`Pool::finish_create`] (on
/// success) or [`Pool::cancel_create`] (on failure, which returns the held
/// gate unit and leaves the rest of the pool unchanged).
pub struct Pool {
    gate: Gate,
    store: Store,
    created: u64,
    pending: usize,
    outstanding: Ghost<Seq<u64>>,
}

/// The outcome of one acquisition attempt.
pub enum AcquireStep {
    /// Every gate unit is out: as many contexts are outstanding as the pool
    /// will ever allow. The caller must wait for a release and try again.
    Blocked,
    /// An idle context was taken from the store for reuse.
    Warm(ContextGuard),
    /// A gate unit is now held but the store was empty: the caller must run
    /// the factory and report with `finish_create` or `cancel_create`.
    Creating,
}

impl Pool {
    /// The hard ceiling on concurrently outstanding contexts.
    pub closed spec fn max_capacity(self) -> int {
        self.gate.capacity()
    }

    /// How many contexts the factory has ever produced for this pool.
    pub closed spec fn created_total(self) -> u64 {
        self.created
    }

    /// The identities of the contexts currently checked out, oldest first.
    pub closed spec fn live(self) -> Seq<u64> {
        self.outstanding@
    }

    /// The identities of the contexts currently idle in the store.
    pub closed spec fn idle(self) -> Seq<u64> {
        self.store.contents()
    }

    /// How many factory runs are in flight: gate units held for creations
    /// that have not yet finished or been cancelled.
    pub closed spec fn pending_creations(self) -> int {
        self.pending as int
    }

    /// How many gate units are currently available.
    pub closed spec fn permits(self) -> int {
        self.gate.permits()
    }

    /// Well-formedness, preserved by every operation:
    /// - the available gate units are the capacity minus everything
    ///   currently gated (checked-out contexts and in-flight creations);
    /// - idle, checked-out and in-flight contexts together never exceed the
    ///   capacity;
    /// - no identity is checked out twice, and no identity is both idle and
    ///   checked out;
    /// - every identity was minted by a past factory run.
    pub closed spec fn wf(self) -> bool {
        &&& self.gate.wf()
        &&& self.store.wf()
        &&& self.store.max_capacity() == self.gate.capacity()
        &&& self.gate.permits() == self.gate.capacity() - self.live().len() - self.pending
        &&& self.idle().len() + self.live().len() + self.pending <= self.gate.capacity()
        &&& distinct_ids(self.live())
        &&& forall|i: int|
            0 <= i < self.live().len() ==> !self.idle().contains(#[trigger] self.live()[i])
        &&& forall|i: int| 0 <= i < self.live().len() ==> #[trigger] self.live()[i] < self.created
        &&& forall|i: int| 0 <= i < self.idle().len() ==> #[trigger] self.idle()[i] < self.created
    }

    /// A fresh pool: nothing created, nothing idle, nothing outstanding,
    /// every gate unit available.
    pub fn new(max_capacity: usize) -> (p: Pool)
        ensures
            p.wf(),
            p.max_capacity() == max_capacity,
            p.created_total() == 0,
            p.live() == Seq::<u64>::empty(),
            p.idle() == Seq::<u64>::empty(),
            p.pending_creations() == 0,
            p.permits() == max_capacity,
    {
        Pool {
            gate: Gate::new(max_capacity),
            store: Store::new(max_capacity),
            created: 0,
            pending: 0,
            outstanding: Ghost(Seq::empty()),
        }
    }

    /// Try to take a context from the pool.
    ///
    /// Answers [`AcquireStep::Blocked`] exactly when no gate unit is
    /// available, leaving the pool unchanged, so an abandoned attempt has
    /// consumed nothing. Otherwise one gate unit is taken and either the most
    /// recently released idle context is reused ([`AcquireStep::Warm`]) —
    /// never one that is already checked out — or, with the store empty, the
    /// caller is told to run the factory ([`AcquireStep::Creating`]). Reuse
    /// never touches the creation counter.
    pub fn try_acquire(&mut self) -> (step: AcquireStep)
        requires
            old(self).wf(),
        ensures
            final(self).wf(),
            final(self).max_capacity() == old(self).max_capacity(),
            final(self).created_total() == old(self).created_total(),
            (step is Blocked) <==> old(self).permits() == 0,
            step is Blocked ==> *final(self) == *old(self),
            (step is Warm) <==> (old(self).permits() > 0 && old(self).idle().len() > 0),
            step matches AcquireStep::Warm(g) ==> {
                &&& g.id() == old(self).idle().last()
                &&& !old(self).live().contains(g.id())
                &&& final(self).idle() == old(self).idle().drop_last()
                &&& final(self).live() == old(self).live().push(g.id())
                &&& final(self).live().contains(g.id())
                &&& final(self).pending_creations() == old(self).pending_creations()
                &&& final(self).permits() == old(self).permits() - 1
            },
            (step is Creating) <==> (old(self).permits() > 0 && old(self).idle().len() == 0),
            step is Creating ==> {
                &&& final(self).idle() == old(self).idle()
                &&& final(self).live() == old(self).live()
                &&& final(self).pending_creations() == old(self).pending_creations() + 1
                &&& final(self).permits() == old(self).permits() - 1
            },
    {
        if !self.gate.try_acquire() {
            return AcquireStep::Blocked;
        }
        match self.store.take() {
            Some(id) => {
                proof {
                    let idle0 = old(self).idle();
                    assert(idle0.contains(idle0.last()));
                    if self.outstanding@.contains(id) {
                        let w = choose|w: int|
                            0 <= w < self.outstanding@.len() && self.outstanding@[w] == id;
                        assert(!idle0.contains(self.outstanding@[w]));
                    }
                    assert forall|i: int| 0 <= i < self.outstanding@.len()
                        implies !self.store.contents().contains(
                        #[trigger] self.outstanding@[i],
                    ) by {
                        if self.store.contents().contains(self.outstanding@[i]) {
                            let w = choose|w: int|
                                0 <= w < self.store.contents().len()
                                    && self.store.contents()[w] == self.outstanding@[i];
                            assert(idle0[w] == self.outstanding@[i]);
                            assert(idle0.contains(self.outstanding@[i]));
                        }
                    }
                    assert forall|i: int| 0 <= i < self.store.contents().len()
                        implies #[trigger] self.store.contents()[i] != id by {
                        assert(idle0[i] == self.store.contents()[i]);
                        assert(idle0[idle0.len() - 1] == id);
                    }
                }
                self.outstanding = Ghost(self.outstanding@.push(id));
                proof {
                    assert(self.outstanding@[self.outstanding@.len() - 1] == id);
                }
                AcquireStep::Warm(ContextGuard::new(id))
            },
            None => {
                self.pending = self.pending + 1;
                AcquireStep::Creating
            },
        }
    }

    /// Report that the factory produced a context for the pool.
    ///
    /// The new context gets the next identity — the current value of the
    /// creation counter, which no earlier context carries — the counter grows
    /// by exactly one, and the caller keeps the unit it already held, so
    /// the number of available units does not change.
    pub fn finish_create(&mut self) -> (g: ContextGuard)
        requires
            old(self).wf(),
            old(self).pending_creations() > 0,
            old(self).created_total() < u64::MAX,
        ensures
            final(self).wf(),
            final(self).max_capacity() == old(self).max_capacity(),
            g.id() == old(self).created_total(),
            !old(self).live().contains(g.id()),
            !old(self).idle().contains(g.id()),
            final(self).created_total() == old(self).created_total() + 1,
            final(self).pending_creations() == old(self).pending_creations() - 1,
            final(self).live() == old(self).live().push(g.id()),
            final(self).live().contains(g.id()),
            final(self).idle() == old(self).idle(),
            final(self).permits() == old(self).permits(),
    {
        let id = self.created;
        self.created = self.created + 1;
        self.pending = self.pending - 1;
        proof {
            if self.outstanding@.contains(id) {
                let w = choose|w: int|
                    0 <= w < self.outstanding@.len() && self.outstanding@[w] == id;
                assert(self.outstanding@[w] < id);
            }
            if self.store.contents().contains(id) {
                let w = choose|w: int|
                    0 <= w < self.store.contents().len() && self.store.contents()[w] == id;
                assert(self.store.contents()[w] < id);
            }
        }
        self.outstanding = Ghost(self.outstanding@.push(id));
        proof {
            assert(self.outstanding@[self.outstanding@.len() - 1] == id);
        }
        ContextGuard::new(id)
    }

    /// Report that the factory failed.
    ///
    /// The unit held for the creation is given back and nothing else
    /// changes: the pool holds no partial state on a failed creation, and the
    /// error itself travels to the caller outside the pool.
    pub fn cancel_create(&mut self)
        requires
            old(self).wf(),
            old(self).pending_creations() > 0,
        ensures
            final(self).wf(),
            final(self).max_capacity() == old(self).max_capacity(),
            final(self).created_total() == old(self).created_total(),
            final(self).pending_creations() == old(self).pending_creations() - 1,
            final(self).live() == old(self).live(),
            final(self).idle() == old(self).idle(),
            final(self).permits() == old(self).permits() + 1,
    {
        self.pending = self.pending - 1;
        self.gate.give_back();
    }

    /// Hand a checked-out context back to the pool.
    ///
    /// The guard must be one the pool handed out and not yet released — a
    /// guard is given back at most once. Its identity leaves the checked-out
    /// set and, the store having room whenever a context is outstanding, is
    /// always stored for reuse; the unit held since acquisition is given
    /// back. The creation counter never moves on release.
    pub fn release(&mut self, guard: ContextGuard)
        requires
            old(self).wf(),
            old(self).live().contains(guard.id()),
        ensures
            final(self).wf(),
            final(self).max_capacity() == old(self).max_capacity(),
            final(self).created_total() == old(self).created_total(),
            final(self).pending_creations() == old(self).pending_creations(),
            final(self).live().len() == old(self).live().len() - 1,
            forall|id: u64|
                final(self).live().contains(id) <==> (old(self).live().contains(id) && id
                    != guard.id()),
            final(self).idle() == old(self).idle().push(guard.id()),
            final(self).permits() == old(self).permits() + 1,
    {
        let id = guard.context_id();
        proof {
            let w = choose|w: int|
                0 <= w < self.outstanding@.len() && self.outstanding@[w] == id;
            assert(!self.store.contents().contains(self.outstanding@[w]));
            assert(self.outstanding@.len() >= 1);
        }
        let stored = self.store.give_back(id);
        proof {
            // A context was outstanding, so the store had room: the
            // defensive discard branch of the store is never taken here.
            assert(stored);
            let live0 = old(self).live();
            let k = choose|k: int| 0 <= k < live0.len() && live0[k] == id;
            self.outstanding@ = live0.remove(k);
            assert forall|i: int| 0 <= i < self.outstanding@.len()
                implies #[trigger] self.outstanding@[i] == if i < k {
                live0[i]
            } else {
                live0[i + 1]
            } by {}
            assert forall|v: u64| self.outstanding@.contains(v)
                implies live0.contains(v) && v != id by {
                let i = choose|i: int|
                    0 <= i < self.outstanding@.len() && self.outstanding@[i] == v;
                if i < k {
                    assert(live0[i] == v);
                } else {
                    assert(live0[i + 1] == v);
                }
            }
            assert forall|v: u64| live0.contains(v) && v != id
                implies self.outstanding@.contains(v) by {
                let i = choose|i: int| 0 <= i < live0.len() && live0[i] == v;
                if i < k {
                    assert(self.outstanding@[i] == v);
                } else {
                    assert(i != k);
                    assert(self.outstanding@[i - 1] == v);
                }
            }
            assert forall|i: int| 0 <= i < self.outstanding@.len()
                implies !self.store.contents().contains(#[trigger] self.outstanding@[i]) by {
                assert(self.outstanding@.contains(self.outstanding@[i]));
                assert(live0.contains(self.outstanding@[i]));
                let j = choose|j: int| 0 <= j < live0.len() && live0[j] == self.outstanding@[i];
                assert(!old(self).idle().contains(live0[j]));
                if self.store.contents().contains(self.outstanding@[i]) {
                    let w = choose|w: int|
                        0 <= w < self.store.contents().len()
                            && self.store.contents()[w] == self.outstanding@[i];
                    assert(self.store.contents() == old(self).idle().push(id));
                    if w < old(self).idle().len() {
                        assert(old(self).idle()[w] == self.outstanding@[i]);
                    } else {
                        assert(self.store.contents()[w] == id);
                    }
                }
            }
        }
        self.gate.give_back();
    }

    /// Eagerly create `initial_size` contexts and store them all, idle, before
    /// any caller acquires.
    ///
    /// Run exactly once, on a pool that has served nothing yet. Afterwards the
    /// store holds exactly `initial_size` contexts, the factory has run
    /// exactly that often — the counter grew from zero to `initial_size` —
    /// and every gate unit is still available.
    pub fn warm_up(&mut self, initial_size: usize)
        requires
            old(self).wf(),
            old(self).created_total() == 0,
            old(self).idle().len() == 0,
            old(self).live().len() == 0,
            old(self).pending_creations() == 0,
            initial_size <= old(self).max_capacity(),
        ensures
            final(self).wf(),
            final(self).max_capacity() == old(self).max_capacity(),
            final(self).idle().len() == initial_size,
            final(self).created_total() == initial_size,
            final(self).live().len() == 0,
            final(self).pending_creations() == 0,
            final(self).permits() == old(self).permits(),
            forall|i: int| 0 <= i < initial_size ==> final(self).idle()[i] == i as u64,
    {
        let mut i: usize = 0;
        while i < initial_size
            invariant
                i <= initial_size,
                self.wf(),
                self.max_capacity() == old(self).max_capacity(),
                initial_size <= self.max_capacity(),
                self.created_total() == i as u64,
                self.idle().len() == i,
                forall|k: int| 0 <= k < i ==> self.idle()[k] == k as u64,
                self.live().len() == 0,
                self.pending_creations() == 0,
                self.permits() == self.max_capacity(),
            decreases initial_size - i,
        {
            let id = self.created;
            proof {
                if self.store.contents().contains(id) {
                    let w = choose|w: int|
                        0 <= w < self.store.contents().len() && self.store.contents()[w] == id;
                    assert(self.store.contents()[w] < id);
                }
            }
            self.created = self.created + 1;
            let stored = self.store.give_back(id);
            proof {
                // Warm-up stays within the capacity, so nothing is discarded.
                assert(stored);
            }
            i = i + 1;
        }
    }

    /// How many contexts the factory has ever produced for this pool; reads
    /// without mutation, only ever grows.
    pub fn created_count(&self) -> (n: u64)
        ensures
            n == self.created_total(),
    {
        self.created
    }

    /// How many contexts are currently idle in the store.
    pub fn idle_count(&self) -> (n: usize)
        ensures
            n == self.idle().len(),
    {
        self.store.len()
    }

    /// How many gate units are currently available.
    pub fn available_permits(&self) -> (n: usize)
        ensures
            n == self.permits(),
    {
        self.gate.available()
    }

    /// How many factory runs are in flight.
    pub fn pending_count(&self) -> (n: usize)
        ensures
            n == self.pending_creations(),
    {
        self.pending
    }
}

/// In every well-formed pool state the number of contexts outstanding —
/// checked out or in creation — is at most the capacity. Every operation
/// ensures well-formedness from well-formedness, so this bound holds after
/// any sequence of acquisitions and releases.
pub proof fn lemma_outstanding_bounded(p: Pool)
    requires
        p.wf(),
    ensures
        p.live().len() + p.pending_creations() <= p.max_capacity(),
        p.idle().len() + p.live().len() + p.pending_creations() <= p.max_capacity(),
{
}

/// No two concurrently-live guards wrap the same context identity, and the
/// identity a live guard wraps is never simultaneously idle in the store.
pub proof fn lemma_live_identities_distinct(p: Pool, i: int, j: int)
    requires
        p.wf(),
        0 <= i < p.live().len(),
        0 <= j < p.live().len(),
        i != j,
    ensures
        p.live()[i] != p.live()[j],
        !p.idle().contains(p.live()[i]),
{
    if j < i {
        assert(p.live()[j] != p.live()[i]);
    }
}

/// Whenever at least one context is checked out, the store is strictly below
/// its bound: a released guard always finds room and is stored for reuse. The
/// store's own discard-at-capacity branch keeps its size bound unconditional,
/// but a gated pool never reaches a state where release would need it.
pub proof fn lemma_store_has_room_while_outstanding(p: Pool)
    requires
        p.wf(),
        p.live().len() > 0,
    ensures
        p.idle().len() < p.max_capacity(),
{
}

/// With a capacity of one, while a context is outstanding no gate unit is
/// left — so a further acquisition attempt answers `Blocked` — and exactly
/// one context is outstanding, never two.
pub proof fn lemma_capacity_one_excludes(p: Pool)
    requires
        p.wf(),
        p.max_capacity() == 1,
        p.live().len() + p.pending_creations() >= 1,
    ensures
        p.permits() == 0,
        p.live().len() + p.pending_creations() == 1,
{
}

} // verus!
