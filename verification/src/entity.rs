//! Entity handles and the arena that backs them.
//!
//! An entity is one user value held in a slot of an [`EntityArena`]. A slot
//! carries a generation counter and a strong-reference count: a
//! [`StrongRef`] keeps the value alive, a [`WeakRef`] merely observes it and
//! can be upgraded only while the value is still alive. Dropping the last
//! strong reference destroys the value and bumps the slot's generation, so
//! every outstanding weak reference to it fails to upgrade from then on.
//!
//! Exclusive access is modelled by checking the value out of its slot and
//! back in: while it is checked out the slot is locked and no second access
//! can be obtained, which serializes all mutation of one entity.

use vstd::prelude::*;

verus! {

/// A strong reference to one entity. Holding it keeps the entity alive.
/// It is deliberately not cloneable by itself: use
/// [`EntityArena::clone_strong`], which adjusts the reference count.
pub struct StrongRef {
    /// Index of the slot in the arena.
    pub index: usize,
    /// Generation of the slot when this reference was handed out.
    pub generation: u64,
}

/// A weak reference to one entity. It does not keep the entity alive and
/// can be upgraded only while some strong reference still exists.
#[derive(Clone, Copy, PartialEq, Eq, Structural, Debug)]
pub struct WeakRef {
    /// Index of the slot in the arena.
    pub index: usize,
    /// Generation of the slot when this reference was handed out.
    pub generation: u64,
}

impl StrongRef {
    /// The weak reference that observes the same slot.
    pub open spec fn spec_weak(self) -> WeakRef {
        WeakRef { index: self.index, generation: self.generation }
    }

    /// Create a weak reference to the same entity; O(1), never fails, and
    /// does not change any reference count.
    pub fn downgrade(&self) -> (w: WeakRef)
        ensures
            w == self.spec_weak(),
    {
        WeakRef { index: self.index, generation: self.generation }
    }
}

/// One arena slot: a generation counter, a strong-reference count, and the
/// held value. The value is checked out while `locked` is set.
pub struct Slot<T> {
    /// Bumped each time the slot's value is destroyed, so that stale
    /// references can be recognized.
    pub generation: u64,
    /// Number of outstanding strong references; 0 means the slot is dead.
    pub strong: u64,
    /// Whether the value is currently checked out for exclusive access.
    pub locked: bool,
    /// The held value; `None` while the slot is dead or checked out.
    pub value: Option<T>,
}

/// The arena of entity slots. Destroyed slots are recycled through a free
/// list; a recycled slot keeps its bumped generation, which is what makes
/// old references to it permanently dead.
pub struct EntityArena<T> {
    /// All slots ever allocated.
    pub slots: Vec<Slot<T>>,
    /// Indices of dead slots available for reuse.
    pub free: Vec<usize>,
}

impl<T> EntityArena<T> {
    /// Well-formedness: free-list entries are distinct dead slots that can
    /// still bump their generation, a value is present exactly on live
    /// unlocked slots, and live slots can still bump their generation.
    pub open spec fn wf(self) -> bool {
        &&& forall|i: int|
            0 <= i < self.free@.len() ==> {
                &&& (#[trigger] self.free@[i]) < self.slots@.len()
                &&& self.slots@[self.free@[i] as int].strong == 0
                &&& self.slots@[self.free@[i] as int].generation < u64::MAX
            }
        &&& forall|i: int, j: int|
            0 <= i < j < self.free@.len() ==> self.free@[i] != self.free@[j]
        &&& forall|i: int|
            0 <= i < self.slots@.len() ==> ((#[trigger] self.slots@[i].value) is Some <==> (
            self.slots@[i].strong > 0 && !self.slots@[i].locked))
        &&& forall|i: int|
            0 <= i < self.slots@.len() && (#[trigger] self.slots@[i].strong) > 0
                ==> self.slots@[i].generation < u64::MAX
    }

    /// A weak reference is live: its slot still has the same generation and
    /// at least one strong reference.
    pub open spec fn ref_live(self, w: WeakRef) -> bool {
        &&& (w.index as int) < self.slots@.len()
        &&& self.slots@[w.index as int].generation == w.generation
        &&& self.slots@[w.index as int].strong > 0
    }

    /// A strong reference is valid for this arena.
    pub open spec fn strong_valid(self, r: StrongRef) -> bool {
        self.ref_live(r.spec_weak())
    }

    /// The slot a reference points at.
    pub open spec fn slot_of(self, w: WeakRef) -> Slot<T> {
        self.slots@[w.index as int]
    }

    /// Frame condition: every slot except `i` is unchanged, the slot count
    /// is unchanged, and the free list is unchanged.
    pub open spec fn unchanged_except(pre: Self, post: Self, i: int) -> bool {
        &&& post.slots@.len() == pre.slots@.len()
        &&& post.free@ == pre.free@
        &&& forall|j: int|
            0 <= j < pre.slots@.len() && j != i ==> post.slots@[j] == pre.slots@[j]
    }

    /// Frame condition for a pure reference-count change on slot `i`.
    pub open spec fn strong_set_to(pre: Self, post: Self, i: int, n: u64) -> bool {
        &&& Self::unchanged_except(pre, post, i)
        &&& post.slots@[i].generation == pre.slots@[i].generation
        &&& post.slots@[i].locked == pre.slots@[i].locked
        &&& post.slots@[i].value == pre.slots@[i].value
        &&& post.slots@[i].strong == n
    }

    /// A strong count one higher, saturating at the maximum; a slot at the
    /// maximum count stays there and is never destroyed.
    pub open spec fn bumped(n: u64) -> u64 {
        if n < u64::MAX {
            (n + 1) as u64
        } else {
            n
        }
    }

    /// Construct an empty arena.
    pub fn new() -> (a: Self)
        ensures
            a.wf(),
            a.slots@.len() == 0,
            a.free@.len() == 0,
    {
        EntityArena { slots: Vec::new(), free: Vec::new() }
    }

    /// Allocate a slot holding `value` and return the single strong
    /// reference to it. Never fails.
    pub fn create(&mut self, value: T) -> (r: StrongRef)
        requires
            old(self).wf(),
        ensures
            final(self).wf(),
            final(self).strong_valid(r),
            final(self).slot_of(r.spec_weak()).strong == 1,
            final(self).slot_of(r.spec_weak()).value == Some(value),
            final(self).slot_of(r.spec_weak()).locked == false,
            !old(self).ref_live(r.spec_weak()),
            final(self).slots@.len() >= old(self).slots@.len(),
            forall|j: int|
                0 <= j < old(self).slots@.len() && j != r.index as int ==> final(self).slots@[j]
                    == old(self).slots@[j],
            forall|w: WeakRef| old(self).ref_live(w) ==> final(self).ref_live(w),
    {
        match self.free.pop() {
            Some(i) => {
                let g = self.slots[i].generation;
                self.slots[i] = Slot { generation: g, strong: 1, locked: false, value: Some(value) };
                StrongRef { index: i, generation: g }
            },
            None => {
                let i = self.slots.len();
                self.slots.push(Slot { generation: 0, strong: 1, locked: false, value: Some(value) });
                StrongRef { index: i, generation: 0 }
            },
        }
    }

    /// Report whether a weak reference is still live.
    pub fn is_live(&self, w: &WeakRef) -> (b: bool)
        ensures
            b == self.ref_live(*w),
    {
        w.index < self.slots.len() && self.slots[w.index].generation == w.generation
            && self.slots[w.index].strong > 0
    }

    /// One more strong reference to the same entity; O(1). On a reference
    /// that does not belong to this arena the arena is left unchanged and
    /// the returned copy is as dead as its original.
    pub fn clone_strong(&mut self, r: &StrongRef) -> (r2: StrongRef)
        requires
            old(self).wf(),
        ensures
            final(self).wf(),
            r2.index == r.index && r2.generation == r.generation,
            old(self).strong_valid(*r) ==> Self::strong_set_to(
                *old(self),
                *final(self),
                r.index as int,
                Self::bumped(old(self).slot_of(r.spec_weak()).strong),
            ),
            !old(self).strong_valid(*r) ==> *final(self) == *old(self),
    {
        if r.index < self.slots.len() && self.slots[r.index].generation == r.generation
            && self.slots[r.index].strong > 0 {
            let n = self.slots[r.index].strong;
            if n < u64::MAX {
                self.slots[r.index].strong = n + 1;
            }
        }
        StrongRef { index: r.index, generation: r.generation }
    }

    /// Upgrade a weak reference: succeeds, with a fresh strong reference,
    /// exactly when the entity is still alive.
    pub fn upgrade(&mut self, w: &WeakRef) -> (r: Option<StrongRef>)
        requires
            old(self).wf(),
        ensures
            final(self).wf(),
            r is Some <==> old(self).ref_live(*w),
            r is Some ==> {
                &&& r.unwrap().index == w.index
                &&& r.unwrap().generation == w.generation
                &&& Self::strong_set_to(
                    *old(self),
                    *final(self),
                    w.index as int,
                    Self::bumped(old(self).slot_of(*w).strong),
                )
            },
            r is None ==> *final(self) == *old(self),
    {
        if w.index < self.slots.len() && self.slots[w.index].generation == w.generation
            && self.slots[w.index].strong > 0 {
            let n = self.slots[w.index].strong;
            if n < u64::MAX {
                self.slots[w.index].strong = n + 1;
            }
            Some(StrongRef { index: w.index, generation: w.generation })
        } else {
            None
        }
    }

    /// Drop one strong reference. When the last one goes, the value is
    /// destroyed, the generation is bumped, and the slot is recycled; every
    /// weak reference to it is dead from then on. A slot whose count
    /// saturated stays alive forever.
    pub fn release(&mut self, r: StrongRef)
        requires
            old(self).wf(),
        ensures
            final(self).wf(),
            !old(self).strong_valid(r) ==> *final(self) == *old(self),
            old(self).strong_valid(r) && old(self).slot_of(r.spec_weak()).strong == u64::MAX
                ==> *final(self) == *old(self),
            old(self).strong_valid(r) && 1 < old(self).slot_of(r.spec_weak()).strong < u64::MAX
                ==> Self::strong_set_to(
                *old(self),
                *final(self),
                r.index as int,
                (old(self).slot_of(r.spec_weak()).strong - 1) as u64,
            ),
            old(self).strong_valid(r) && old(self).slot_of(r.spec_weak()).strong == 1 ==> {
                &&& final(self).slots@.len() == old(self).slots@.len()
                &&& forall|j: int|
                    0 <= j < old(self).slots@.len() && j != r.index as int
                        ==> final(self).slots@[j] == old(self).slots@[j]
                &&& final(self).slot_of(r.spec_weak()).strong == 0
                &&& final(self).slot_of(r.spec_weak()).generation == r.generation + 1
                &&& final(self).slot_of(r.spec_weak()).value is None
                &&& !final(self).ref_live(r.spec_weak())
                &&& forall|w: WeakRef|
                    w.index == r.index ==> !final(self).ref_live(w)
                &&& r.generation + 1 < u64::MAX ==> final(self).free@ == old(self).free@.push(
                    r.index,
                )
                &&& r.generation + 1 == u64::MAX ==> final(self).free@ == old(self).free@
            },
    {
        if r.index < self.slots.len() && self.slots[r.index].generation == r.generation
            && self.slots[r.index].strong > 0 {
            let n = self.slots[r.index].strong;
            if n == 1 {
                let g = r.generation + 1;
                self.slots[r.index] = Slot { generation: g, strong: 0, locked: false, value: None };
                if g < u64::MAX {
                    self.free.push(r.index);
                }
            } else if n < u64::MAX {
                self.slots[r.index].strong = n - 1;
            }
        }
    }

    /// No slot is currently checked out.
    pub open spec fn all_unlocked(self) -> bool {
        forall|i: int| 0 <= i < self.slots@.len() ==> !(#[trigger] self.slots@[i].locked)
    }

    /// The two arenas agree on which references are live and which slots
    /// are checked out; only the held values (and saturated reference
    /// counts) may differ. A dispatch pass relates its entry and exit
    /// states this way: callbacks mutate entity state but never create or
    /// destroy entities.
    pub open spec fn same_liveness(a: Self, b: Self) -> bool {
        &&& b.slots@.len() == a.slots@.len()
        &&& b.free@ == a.free@
        &&& forall|i: int|
            0 <= i < a.slots@.len() ==> {
                &&& (#[trigger] b.slots@[i].generation) == a.slots@[i].generation
                &&& (b.slots@[i].strong > 0 <==> a.slots@[i].strong > 0)
                &&& b.slots@[i].locked == a.slots@[i].locked
            }
    }

    /// Arenas that agree on liveness agree on every reference.
    pub proof fn lemma_same_liveness_ref_live(a: Self, b: Self)
        requires
            Self::same_liveness(a, b),
        ensures
            forall|w: WeakRef| a.ref_live(w) == #[trigger] b.ref_live(w),
    {
    }

    /// Frame condition for a change of the lock flag and held value on slot
    /// `i` alone.
    pub open spec fn access_set_to(pre: Self, post: Self, i: int, locked: bool, value: Option<T>) -> bool {
        &&& Self::unchanged_except(pre, post, i)
        &&& post.slots@[i].generation == pre.slots@[i].generation
        &&& post.slots@[i].strong == pre.slots@[i].strong
        &&& post.slots@[i].locked == locked
        &&& post.slots@[i].value == value
    }

    /// Acquire exclusive access by checking the value out of its slot.
    /// Succeeds exactly when the entity is alive and nobody else holds
    /// access; in particular a second acquisition fails fast rather than
    /// handing out a second accessor.
    pub fn checkout(&mut self, r: &StrongRef) -> (v: Option<T>)
        requires
            old(self).wf(),
        ensures
            final(self).wf(),
            v is Some <==> (old(self).strong_valid(*r) && !old(self).slot_of(r.spec_weak()).locked),
            v is Some ==> {
                &&& Some(v.unwrap()) == old(self).slot_of(r.spec_weak()).value
                &&& Self::access_set_to(*old(self), *final(self), r.index as int, true, None)
            },
            v is None ==> *final(self) == *old(self),
    {
        if r.index < self.slots.len() && self.slots[r.index].generation == r.generation
            && self.slots[r.index].strong > 0 && !self.slots[r.index].locked {
            let taken = self.slots[r.index].value.take();
            self.slots[r.index].locked = true;
            taken
        } else {
            None
        }
    }

    /// Release exclusive access by checking a value back into its slot.
    /// Returns `None` when the slot accepted the value; if the entity died
    /// or was never checked out, the value is handed back to the caller.
    pub fn checkin(&mut self, r: &StrongRef, v: T) -> (back: Option<T>)
        requires
            old(self).wf(),
        ensures
            final(self).wf(),
            back is None <==> (old(self).strong_valid(*r) && old(self).slot_of(r.spec_weak()).locked),
            back is None ==> Self::access_set_to(*old(self), *final(self), r.index as int, false, Some(v)),
            back is Some ==> back == Some(v) && *final(self) == *old(self),
    {
        if r.index < self.slots.len() && self.slots[r.index].generation == r.generation
            && self.slots[r.index].strong > 0 && self.slots[r.index].locked {
            self.slots[r.index].value = Some(v);
            self.slots[r.index].locked = false;
            None
        } else {
            Some(v)
        }
    }
}

} // verus!
