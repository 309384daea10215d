//! The library's cross-cutting guarantees, stated and proved once.
//!
//! Each function here is a law about the entity and container model:
//! pruning really removes every trace of a destroyed entity, containers
//! prune independently, dispatch order is insertion order, duplicated
//! handles share state, and exclusive access serializes same-entity
//! critical sections so that no update is lost.

use vstd::prelude::*;

use crate::container::ContainerStore;
use crate::container::Entities;
use crate::container::is_live_for;
use crate::container::live_entries;
use crate::entity::EntityArena;
use crate::entity::StrongRef;
use crate::entity::WeakRef;

verus! {

broadcast use vstd::seq_lib::group_filter_ensures;

/// A sequence with no live entry prunes to nothing.
proof fn lemma_live_entries_none<T>(s: Seq<WeakRef>, arena: EntityArena<T>)
    requires
        forall|i: int| 0 <= i < s.len() ==> !arena.ref_live(#[trigger] s[i]),
    ensures
        live_entries(s, arena).len() == 0,
    decreases s.len(),
{
    reveal_with_fuel(Seq::filter, 2);
    if s.len() == 0 {
    } else {
        assert(forall|i: int|
            0 <= i < s.drop_last().len() ==> !arena.ref_live(#[trigger] s.drop_last()[i]));
        lemma_live_entries_none(s.drop_last(), arena);
        assert(!is_live_for(arena)(s.last()));
    }
}

/// Liveness pruning: once an entity has zero outstanding strong
/// references, pruning leaves no entry that observes it — and a container
/// that held nothing but references to it prunes to empty.
pub proof fn lemma_liveness_pruning<T>(s: Seq<WeakRef>, arena: EntityArena<T>, w: WeakRef)
    requires
        !arena.ref_live(w),
    ensures
        forall|i: int|
            0 <= i < live_entries(s, arena).len() ==> #[trigger] live_entries(s, arena)[i] != w,
        (forall|i: int| 0 <= i < s.len() ==> s[i] == w) ==> live_entries(s, arena).len() == 0,
{
    assert forall|i: int|
        0 <= i < live_entries(s, arena).len() implies #[trigger] live_entries(s, arena)[i]
        != w by {
        assert(is_live_for(arena)(live_entries(s, arena)[i]));
    }
    if forall|i: int| 0 <= i < s.len() ==> s[i] == w {
        assert(forall|i: int| 0 <= i < s.len() ==> !arena.ref_live(#[trigger] s[i]));
        lemma_live_entries_none(s, arena);
    }
}

/// Multi-container independence: two different-capability containers that
/// each hold only references to destroyed entities prune to empty, each on
/// its own access, whichever is accessed first — pruning one container
/// never touches another.
pub proof fn lemma_multi_container_independence<T>(
    store: ContainerStore,
    first: Entities,
    second: Entities,
    arena: EntityArena<T>,
)
    requires
        first.id != second.id,
        first.valid(store),
        second.valid(store),
        forall|i: int|
            0 <= i < store.contents(first.id as int).len() ==> !arena.ref_live(
                #[trigger] store.contents(first.id as int)[i],
            ),
        forall|i: int|
            0 <= i < store.contents(second.id as int).len() ==> !arena.ref_live(
                #[trigger] store.contents(second.id as int)[i],
            ),
    ensures
        live_entries(store.contents(first.id as int), arena).len() == 0,
        live_entries(store.contents(second.id as int), arena).len() == 0,
        forall|post: ContainerStore|
            ContainerStore::others_unchanged(store, post, first.id as int)
                ==> #[trigger] post.contents(second.id as int) == store.contents(second.id as int),
{
    lemma_live_entries_none(store.contents(first.id as int), arena);
    lemma_live_entries_none(store.contents(second.id as int), arena);
}

/// Insertion-order dispatch: while every registered entity is alive, a
/// dispatch pass runs over exactly the insertion sequence — duplicates
/// included, each occurrence dispatched in its own position.
pub proof fn lemma_insertion_order_dispatch<T>(s: Seq<WeakRef>, arena: EntityArena<T>)
    requires
        forall|i: int| 0 <= i < s.len() ==> arena.ref_live(#[trigger] s[i]),
    ensures
        live_entries(s, arena) == s,
    decreases s.len(),
{
    reveal_with_fuel(Seq::filter, 2);
    if s.len() == 0 {
        assert(live_entries(s, arena) =~= s);
    } else {
        assert(forall|i: int|
            0 <= i < s.drop_last().len() ==> arena.ref_live(#[trigger] s.drop_last()[i]));
        lemma_insertion_order_dispatch(s.drop_last(), arena);
        assert(is_live_for(arena)(s.last()));
        assert(live_entries(s, arena) =~= s);
    }
}

/// Clone shares state: a duplicated container handle is the same handle,
/// so a push made through the duplicate is exactly a push onto the
/// sequence the original names, and the original's next access sees it.
pub proof fn lemma_clone_shares_state(
    pre: ContainerStore,
    post: ContainerStore,
    original: Entities,
    duplicate: Entities,
    w: WeakRef,
)
    requires
        duplicate == original,
        post.contents(duplicate.id as int) == pre.contents(duplicate.id as int).push(w),
    ensures
        post.contents(original.id as int) == pre.contents(original.id as int).push(w),
        post.contents(original.id as int).len() == pre.contents(original.id as int).len() + 1,
        post.contents(original.id as int).last() == w,
{
}

/// Exclusive access serializes same-entity critical sections: two drivers
/// each run read-increment-write sections against one shared counter
/// entity, in the interleaving given by `schedule` (one entry per complete
/// section, `true` for the fixed driver, `false` for the main driver).
/// Because every section holds exclusive access from read to write, no
/// update is lost: the counter ends exactly `schedule.len()` higher, no
/// matter how the two drivers interleave.
pub fn run_interleaved_increments(
    arena: &mut EntityArena<u64>,
    r: &StrongRef,
    schedule: &Vec<bool>,
)
    requires
        old(arena).wf(),
        old(arena).all_unlocked(),
        old(arena).strong_valid(*r),
        old(arena).slot_of(r.spec_weak()).value.unwrap() + schedule@.len() <= u64::MAX,
    ensures
        final(arena).wf(),
        final(arena).all_unlocked(),
        final(arena).strong_valid(*r),
        final(arena).slot_of(r.spec_weak()).value == Some(
            (old(arena).slot_of(r.spec_weak()).value.unwrap() + schedule@.len()) as u64,
        ),
        EntityArena::same_liveness(*old(arena), *final(arena)),
{
    let n = schedule.len();
    let mut i: usize = 0;
    while i < n
        invariant
            n == schedule@.len(),
            i <= n,
            arena.wf(),
            arena.all_unlocked(),
            arena.strong_valid(*r),
            EntityArena::same_liveness(*old(arena), *arena),
            old(arena).slot_of(r.spec_weak()).value.unwrap() + n <= u64::MAX,
            arena.slot_of(r.spec_weak()).value == Some(
                (old(arena).slot_of(r.spec_weak()).value.unwrap() + i) as u64,
            ),
        decreases n - i,
    {
        let ghost at_entry = *arena;
        match arena.checkout(r) {
            Some(v) => {
                let bumped = v + 1;
                let back = arena.checkin(r, bumped);
                proof {
                    assert(back is None);
                    assert(EntityArena::same_liveness(at_entry, *arena));
                }
            },
            None => {
                proof {
                    assert(false);
                }
            },
        }
        i += 1;
    }
}

} // verus!
