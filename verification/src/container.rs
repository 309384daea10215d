//! Capability containers: shared, insertion-ordered sequences of weak
//! references.
//!
//! A container never owns its entities: it stores [`WeakRef`]s, so
//! membership cannot keep an entity alive. Entries whose entity has been
//! destroyed are removed lazily, on every [`Entities::access`], before the
//! live entries are handed to the caller — there is no way to read a
//! container without pruning it first.
//!
//! All container sequences live in one [`ContainerStore`]; an [`Entities`]
//! value is a cheap handle naming one of them. Duplicating the handle
//! duplicates the view, not the sequence, so a registration made through
//! one copy of a handle is seen through every other copy.

use vstd::prelude::*;

use crate::entity::EntityArena;
use crate::entity::StrongRef;
use crate::entity::WeakRef;

verus! {

broadcast use vstd::seq_lib::group_filter_ensures;

/// The liveness test a container prunes with, as a function value.
pub open spec fn is_live_for<T>(arena: EntityArena<T>) -> spec_fn(WeakRef) -> bool {
    |w: WeakRef| arena.ref_live(w)
}

/// The subsequence of `s` whose entries are live in `arena`, in unchanged
/// order.
pub open spec fn live_entries<T>(s: Seq<WeakRef>, arena: EntityArena<T>) -> Seq<WeakRef> {
    s.filter(is_live_for(arena))
}

/// The weak references observing a sequence of strong references.
pub open spec fn weak_seq(s: Seq<StrongRef>) -> Seq<WeakRef> {
    s.map_values(|r: StrongRef| r.spec_weak())
}

/// Downgrading distributes over appending one reference.
proof fn lemma_weak_seq_push(s: Seq<StrongRef>, x: StrongRef)
    ensures
        weak_seq(s.push(x)) == weak_seq(s).push(x.spec_weak()),
{
    assert(weak_seq(s.push(x)) =~= weak_seq(s).push(x.spec_weak()));
}

/// Arenas that agree on which references are live prune a sequence to the
/// same result.
pub proof fn lemma_live_entries_agree<T>(s: Seq<WeakRef>, a: EntityArena<T>, b: EntityArena<T>)
    requires
        forall|w: WeakRef| a.ref_live(w) == #[trigger] b.ref_live(w),
    ensures
        live_entries(s, a) == live_entries(s, b),
    decreases s.len(),
{
    reveal_with_fuel(Seq::filter, 2);
    if s.len() == 0 {
    } else {
        lemma_live_entries_agree(s.drop_last(), a, b);
        assert(is_live_for(a)(s.last()) == is_live_for(b)(s.last()));
    }
}

/// Backing storage for every container: one sequence of weak references
/// per container handle ever created from this store.
pub struct ContainerStore {
    /// The container sequences, indexed by handle id.
    pub seqs: Vec<Vec<WeakRef>>,
}

/// A handle to one container in a [`ContainerStore`]. Copying the handle
/// shares the underlying sequence; it does not copy entities.
#[derive(Clone, Copy, PartialEq, Eq, Structural, Debug)]
pub struct Entities {
    /// Index of this container's sequence in the store.
    pub id: usize,
}

impl ContainerStore {
    /// The sequence a handle id names.
    pub open spec fn contents(self, id: int) -> Seq<WeakRef> {
        self.seqs@[id]@
    }

    /// The number of containers in this store.
    pub open spec fn container_count(self) -> int {
        self.seqs@.len() as int
    }

    /// Frame condition: every container except `id` is unchanged, and no
    /// container was created or destroyed.
    pub open spec fn others_unchanged(pre: Self, post: Self, id: int) -> bool {
        &&& post.seqs@.len() == pre.seqs@.len()
        &&& forall|j: int|
            0 <= j < pre.seqs@.len() && j != id ==> post.seqs@[j]@ == pre.seqs@[j]@
    }

    /// Construct a store with no containers.
    pub fn new() -> (s: Self)
        ensures
            s.container_count() == 0,
    {
        ContainerStore { seqs: Vec::new() }
    }
}

impl Entities {
    /// The handle names a container that exists in `store`.
    pub open spec fn valid(self, store: ContainerStore) -> bool {
        (self.id as int) < store.container_count()
    }

    /// Construct a new, empty container in `store` and return its handle.
    pub fn new(store: &mut ContainerStore) -> (c: Entities)
        ensures
            c.valid(*final(store)),
            c.id as int == old(store).container_count(),
            final(store).container_count() == old(store).container_count() + 1,
            final(store).contents(c.id as int) == Seq::<WeakRef>::empty(),
            forall|j: int|
                0 <= j < old(store).container_count() ==> final(store).seqs@[j]@ == old(
                    store,
                ).seqs@[j]@,
    {
        let id = store.seqs.len();
        store.seqs.push(Vec::new());
        Entities { id }
    }

    /// Append a weak reference to `entity` at the end of the container.
    /// The same entity may be pushed more than once and is then dispatched
    /// to more than once per pass.
    pub fn push(&self, store: &mut ContainerStore, entity: &StrongRef)
        ensures
            self.valid(*old(store)) ==> {
                &&& final(store).contents(self.id as int) == old(store).contents(
                    self.id as int,
                ).push(entity.spec_weak())
                &&& ContainerStore::others_unchanged(*old(store), *final(store), self.id as int)
            },
            !self.valid(*old(store)) ==> *final(store) == *old(store),
    {
        if self.id < store.seqs.len() {
            let w = entity.downgrade();
            store.seqs[self.id].push(w);
        }
    }

    /// Append a weak reference for every entity in the slice, preserving
    /// slice order.
    pub fn add_entities(&self, store: &mut ContainerStore, other: &[StrongRef])
        ensures
            self.valid(*old(store)) ==> {
                &&& final(store).contents(self.id as int) == old(store).contents(self.id as int)
                    + weak_seq(other@)
                &&& ContainerStore::others_unchanged(*old(store), *final(store), self.id as int)
            },
            !self.valid(*old(store)) ==> *final(store) == *old(store),
    {
        let n = other.len();
        let mut i: usize = 0;
        while i < n
            invariant
                n == other@.len(),
                i <= n,
                self.valid(*old(store)) ==> {
                    &&& self.valid(*store)
                    &&& store.contents(self.id as int) == old(store).contents(self.id as int)
                        + weak_seq(other@.subrange(0, i as int))
                    &&& ContainerStore::others_unchanged(*old(store), *store, self.id as int)
                },
                !self.valid(*old(store)) ==> *store == *old(store),
            decreases n - i,
        {
            let ghost pre = *store;
            self.push(store, &other[i]);
            proof {
                if self.valid(*old(store)) {
                    assert(store.contents(self.id as int) == pre.contents(self.id as int).push(
                        other@[i as int].spec_weak(),
                    ));
                    assert(other@.subrange(0, i as int + 1) =~= other@.subrange(0, i as int).push(
                        other@[i as int],
                    ));
                    lemma_weak_seq_push(other@.subrange(0, i as int), other@[i as int]);
                    assert(old(store).contents(self.id as int) + weak_seq(
                        other@.subrange(0, i as int + 1),
                    ) =~= (old(store).contents(self.id as int) + weak_seq(
                        other@.subrange(0, i as int),
                    )).push(other@[i as int].spec_weak()));
                }
            }
            i += 1;
        }
        proof {
            assert(other@.subrange(0, n as int) =~= other@);
        }
    }

    /// Remove every entry from the container. Entity lifetimes are not
    /// affected: the container held no ownership to begin with.
    pub fn clear(&self, store: &mut ContainerStore)
        ensures
            self.valid(*old(store)) ==> {
                &&& final(store).contents(self.id as int) == Seq::<WeakRef>::empty()
                &&& ContainerStore::others_unchanged(*old(store), *final(store), self.id as int)
            },
            !self.valid(*old(store)) ==> *final(store) == *old(store),
    {
        if self.id < store.seqs.len() {
            store.seqs[self.id].clear();
        }
    }

    /// Drop every entry whose entity has been destroyed, keeping the live
    /// entries in their original order.
    pub fn prune<T>(entities: &mut Vec<WeakRef>, arena: &EntityArena<T>)
        ensures
            final(entities)@ == live_entries(old(entities)@, *arena),
    {
        let mut out: Vec<WeakRef> = Vec::new();
        let n = entities.len();
        let mut i: usize = 0;
        while i < n
            invariant
                n == entities@.len(),
                i <= n,
                entities@ == old(entities)@,
                out@ == live_entries(entities@.subrange(0, i as int), *arena),
            decreases n - i,
        {
            let w = entities[i];
            if arena.is_live(&w) {
                out.push(w);
            }
            proof {
                lemma_live_entries_one(entities@.subrange(0, i as int), entities@[i as int], *arena);
                assert(entities@.subrange(0, i as int + 1) =~= entities@.subrange(0, i as int)
                    + seq![entities@[i as int]]);
            }
            i += 1;
        }
        proof {
            assert(entities@.subrange(0, n as int) =~= entities@);
        }
        *entities = out;
    }

    /// Prune the container, then return a copy of the surviving sequence:
    /// all entries returned are live, in insertion order. This is the only
    /// way to read a container; there is no peek without pruning.
    pub fn access<T>(&self, store: &mut ContainerStore, arena: &EntityArena<T>) -> (live: Vec<
        WeakRef,
    >)
        ensures
            self.valid(*old(store)) ==> {
                &&& final(store).contents(self.id as int) == live_entries(
                    old(store).contents(self.id as int),
                    *arena,
                )
                &&& live@ == final(store).contents(self.id as int)
                &&& ContainerStore::others_unchanged(*old(store), *final(store), self.id as int)
            },
            !self.valid(*old(store)) ==> *final(store) == *old(store) && live@ == Seq::<
                WeakRef,
            >::empty(),
            forall|i: int| 0 <= i < live@.len() ==> arena.ref_live(#[trigger] live@[i]),
    {
        let mut out: Vec<WeakRef> = Vec::new();
        if self.id >= store.seqs.len() {
            return out;
        }
        Entities::prune(&mut store.seqs[self.id], arena);
        let ghost snap = *store;
        let n = store.seqs[self.id].len();
        let mut i: usize = 0;
        while i < n
            invariant
                self.id < store.seqs@.len(),
                n == store.seqs@[self.id as int]@.len(),
                i <= n,
                *store == snap,
                out@ == store.seqs@[self.id as int]@.subrange(0, i as int),
            decreases n - i,
        {
            let w = store.seqs[self.id][i];
            out.push(w);
            proof {
                assert(store.seqs@[self.id as int]@.subrange(0, i as int + 1) =~= store.seqs@[self.id as int]@.subrange(
                    0,
                    i as int,
                ).push(store.seqs@[self.id as int]@[i as int]));
            }
            i += 1;
        }
        proof {
            assert(store.seqs@[self.id as int]@.subrange(0, n as int) =~= store.seqs@[self.id as int]@);
        }
        out
    }
}

/// Filtering one appended entry keeps it exactly when it is live.
proof fn lemma_live_entries_one<T>(s: Seq<WeakRef>, w: WeakRef, arena: EntityArena<T>)
    ensures
        arena.ref_live(w) ==> live_entries(s + seq![w], arena) == live_entries(s, arena).push(w),
        !arena.ref_live(w) ==> live_entries(s + seq![w], arena) == live_entries(s, arena),
{
    let pred = is_live_for(arena);
    Seq::<WeakRef>::filter_distributes_over_add(s, seq![w], pred);
    reveal_with_fuel(Seq::filter, 2);
    assert(seq![w].drop_last() =~= Seq::<WeakRef>::empty());
    if pred(w) {
        assert(seq![w].filter(pred) =~= seq![w]);
        assert(s.filter(pred) + seq![w] =~= s.filter(pred).push(w));
    } else {
        assert(seq![w].filter(pred) =~= Seq::<WeakRef>::empty());
        assert(s.filter(pred) + Seq::<WeakRef>::empty() =~= s.filter(pred));
    }
}

} // verus!
