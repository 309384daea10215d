//! The game: one capability container per capability kind, and the
//! dispatch passes the two clock drivers run against them.
//!
//! The host owns the loop and the clocks: a background driver calls
//! [`Game::fixed_tick`] once per configured timestep, and the foreground
//! driver calls [`Game::main_iteration`] once per frame with the freshly
//! polled event batch and the measured delta. Each pass locks one
//! container, prunes it, and invokes the capability method on every
//! surviving entity in insertion order, upgrading and taking exclusive
//! access at the point of dispatch.

use vstd::prelude::*;

use crate::container::ContainerStore;
use crate::container::Entities;
use crate::container::live_entries;
use crate::entity::EntityArena;
use crate::events::InputEvent;
use crate::events::has_quit;
use crate::renderer::Renderer;
use crate::traits::FixedUpdate;
use crate::traits::Interactive;
use crate::traits::RenderSink;
use crate::traits::Renderable;
use crate::traits::Update;

verus! {

/// Default number of milliseconds between fixed-update calls (50 Hz).
pub const DEFAULT_TIMESTEP: i64 = 20;

/// The game: four capability containers sharing one store, plus the
/// configured fixed-update interval.
pub struct Game {
    /// Backing storage shared by the four containers.
    pub store: ContainerStore,
    /// Entities receiving per-frame updates.
    pub update_entities: Entities,
    /// Entities receiving fixed-timestep updates.
    pub fixed_update_entities: Entities,
    /// Entities drawn by the render pass.
    pub renderable_entities: Entities,
    /// Entities receiving input events.
    pub interactive_entities: Entities,
    /// Milliseconds between fixed-update calls.
    pub timestep: i64,
}

impl Game {
    /// The four container handles name distinct containers of this game's
    /// store.
    pub open spec fn wf(self) -> bool {
        &&& self.update_entities.valid(self.store)
        &&& self.fixed_update_entities.valid(self.store)
        &&& self.renderable_entities.valid(self.store)
        &&& self.interactive_entities.valid(self.store)
        &&& self.update_entities.id != self.fixed_update_entities.id
        &&& self.update_entities.id != self.renderable_entities.id
        &&& self.update_entities.id != self.interactive_entities.id
        &&& self.fixed_update_entities.id != self.renderable_entities.id
        &&& self.fixed_update_entities.id != self.interactive_entities.id
        &&& self.renderable_entities.id != self.interactive_entities.id
    }

    /// The handles and the timestep are unchanged; only container
    /// contents may differ.
    pub open spec fn same_structure(pre: Self, post: Self) -> bool {
        &&& post.update_entities == pre.update_entities
        &&& post.fixed_update_entities == pre.fixed_update_entities
        &&& post.renderable_entities == pre.renderable_entities
        &&& post.interactive_entities == pre.interactive_entities
        &&& post.timestep == pre.timestep
        &&& post.store.container_count() == pre.store.container_count()
    }

    /// Create a new game with four empty containers and the default
    /// timestep.
    pub fn new() -> (g: Game)
        ensures
            g.wf(),
            g.store.contents(g.update_entities.id as int) == Seq::<crate::entity::WeakRef>::empty(),
            g.store.contents(g.fixed_update_entities.id as int) == Seq::<
                crate::entity::WeakRef,
            >::empty(),
            g.store.contents(g.renderable_entities.id as int) == Seq::<
                crate::entity::WeakRef,
            >::empty(),
            g.store.contents(g.interactive_entities.id as int) == Seq::<
                crate::entity::WeakRef,
            >::empty(),
            g.timestep == DEFAULT_TIMESTEP,
    {
        let mut store = ContainerStore::new();
        let update_entities = Entities::new(&mut store);
        let fixed_update_entities = Entities::new(&mut store);
        let renderable_entities = Entities::new(&mut store);
        let interactive_entities = Entities::new(&mut store);
        Game {
            store,
            update_entities,
            fixed_update_entities,
            renderable_entities,
            interactive_entities,
            timestep: DEFAULT_TIMESTEP,
        }
    }

    /// Customize the delay in milliseconds between fixed-update calls.
    pub fn with_timestep(self, timestep: i64) -> (g: Game)
        ensures
            g.timestep == timestep,
            g.store == self.store,
            g.update_entities == self.update_entities,
            g.fixed_update_entities == self.fixed_update_entities,
            g.renderable_entities == self.renderable_entities,
            g.interactive_entities == self.interactive_entities,
    {
        Game { timestep, ..self }
    }

    /// One tick of the background fixed driver: prune the fixed-update
    /// container and call `fixed_update(delta_ms)` on every surviving
    /// entity in insertion order, under exclusive access. The other three
    /// containers are untouched; no entity is created or destroyed.
    pub fn fixed_tick<T: FixedUpdate>(&mut self, arena: &mut EntityArena<T>, delta_ms: u64)
        requires
            old(self).wf(),
            old(arena).wf(),
            old(arena).all_unlocked(),
        ensures
            final(self).wf(),
            Self::same_structure(*old(self), *final(self)),
            final(arena).wf(),
            final(arena).all_unlocked(),
            EntityArena::same_liveness(*old(arena), *final(arena)),
            final(self).store.contents(old(self).fixed_update_entities.id as int) == live_entries(
                old(self).store.contents(old(self).fixed_update_entities.id as int),
                *old(arena),
            ),
            ContainerStore::others_unchanged(
                old(self).store,
                final(self).store,
                old(self).fixed_update_entities.id as int,
            ),
    {
        let handle = self.fixed_update_entities;
        let live = handle.access(&mut self.store, arena);
        let ghost snap = *arena;
        let n = live.len();
        let mut i: usize = 0;
        while i < n
            invariant
                n == live@.len(),
                i <= n,
                arena.wf(),
                arena.all_unlocked(),
                EntityArena::same_liveness(snap, *arena),
                forall|k: int| 0 <= k < live@.len() ==> snap.ref_live(#[trigger] live@[k]),
            decreases n - i,
        {
            let w = live[i];
            proof {
                EntityArena::lemma_same_liveness_ref_live(snap, *arena);
            }
            let ghost at_entry = *arena;
            match arena.upgrade(&w) {
                Some(r) => {
                    match arena.checkout(&r) {
                        Some(mut v) => {
                            v.fixed_update(delta_ms);
                            let back = arena.checkin(&r, v);
                            proof {
                                assert(back is None);
                            }
                        },
                        None => {
                            proof {
                                assert(false);
                            }
                        },
                    }
                    arena.release(r);
                    proof {
                        assert(EntityArena::same_liveness(at_entry, *arena));
                    }
                },
                None => {
                    proof {
                        assert(false);
                    }
                },
            }
            i += 1;
        }
        proof {
            EntityArena::lemma_same_liveness_ref_live(snap, *arena);
        }
    }

    /// The update step of the foreground driver: prune the update
    /// container and call `update(delta_ms)` on every surviving entity in
    /// insertion order, under exclusive access. The other three containers
    /// are untouched; no entity is created or destroyed.
    pub fn update_tick<T: Update>(&mut self, arena: &mut EntityArena<T>, delta_ms: u64)
        requires
            old(self).wf(),
            old(arena).wf(),
            old(arena).all_unlocked(),
        ensures
            final(self).wf(),
            Self::same_structure(*old(self), *final(self)),
            final(arena).wf(),
            final(arena).all_unlocked(),
            EntityArena::same_liveness(*old(arena), *final(arena)),
            final(self).store.contents(old(self).update_entities.id as int) == live_entries(
                old(self).store.contents(old(self).update_entities.id as int),
                *old(arena),
            ),
            ContainerStore::others_unchanged(
                old(self).store,
                final(self).store,
                old(self).update_entities.id as int,
            ),
    {
        let handle = self.update_entities;
        let live = handle.access(&mut self.store, arena);
        let ghost snap = *arena;
        let n = live.len();
        let mut i: usize = 0;
        while i < n
            invariant
                n == live@.len(),
                i <= n,
                arena.wf(),
                arena.all_unlocked(),
                EntityArena::same_liveness(snap, *arena),
                forall|k: int| 0 <= k < live@.len() ==> snap.ref_live(#[trigger] live@[k]),
            decreases n - i,
        {
            let w = live[i];
            proof {
                EntityArena::lemma_same_liveness_ref_live(snap, *arena);
            }
            let ghost at_entry = *arena;
            match arena.upgrade(&w) {
                Some(r) => {
                    match arena.checkout(&r) {
                        Some(mut v) => {
                            v.update(delta_ms);
                            let back = arena.checkin(&r, v);
                            proof {
                                assert(back is None);
                            }
                        },
                        None => {
                            proof {
                                assert(false);
                            }
                        },
                    }
                    arena.release(r);
                    proof {
                        assert(EntityArena::same_liveness(at_entry, *arena));
                    }
                },
                None => {
                    proof {
                        assert(false);
                    }
                },
            }
            i += 1;
        }
        proof {
            EntityArena::lemma_same_liveness_ref_live(snap, *arena);
        }
    }

    /// One iteration of the foreground driver, in strict order: dispatch
    /// the event batch (quit preempts the rest of the batch), run the
    /// update pass with the measured delta, and then either stop — the
    /// render step is skipped on the terminal iteration — or drive the
    /// render pass and present the frame. Returns whether the loop must
    /// now exit. The fixed-update container is untouched: the two drivers
    /// interact only through the entities themselves.
    pub fn main_iteration<T: Update + Interactive + Renderable<S>, S: RenderSink>(
        &mut self,
        renderer: &mut Renderer,
        arena: &mut EntityArena<T>,
        sink: &mut S,
        events: &Vec<InputEvent>,
        delta_ms: u64,
    ) -> (quit: bool)
        requires
            old(self).wf(),
            old(arena).wf(),
            old(arena).all_unlocked(),
        ensures
            final(self).wf(),
            Self::same_structure(*old(self), *final(self)),
            final(arena).wf(),
            final(arena).all_unlocked(),
            EntityArena::same_liveness(*old(arena), *final(arena)),
            quit == (old(renderer).quit || has_quit(events@)),
            final(renderer).quit == quit,
            final(renderer).config == old(renderer).config,
            final(self).store.contents(old(self).interactive_entities.id as int) == live_entries(
                old(self).store.contents(old(self).interactive_entities.id as int),
                *old(arena),
            ),
            final(self).store.contents(old(self).update_entities.id as int) == live_entries(
                old(self).store.contents(old(self).update_entities.id as int),
                *old(arena),
            ),
            final(self).store.contents(old(self).fixed_update_entities.id as int) == old(
                self,
            ).store.contents(old(self).fixed_update_entities.id as int),
            forall|j: int|
                0 <= j < old(self).store.container_count() && j != old(
                    self,
                ).interactive_entities.id as int && j != old(self).update_entities.id as int && j
                    != old(self).renderable_entities.id as int ==> final(self).store.seqs@[j]@
                    == old(self).store.seqs@[j]@,
            quit ==> final(self).store.contents(old(self).renderable_entities.id as int) == old(
                self,
            ).store.contents(old(self).renderable_entities.id as int),
            quit ==> final(renderer).camera == old(renderer).camera,
            !quit && old(renderer).camera is Some ==> final(self).store.contents(
                old(self).renderable_entities.id as int,
            ) == live_entries(
                old(self).store.contents(old(self).renderable_entities.id as int),
                *old(arena),
            ),
            !quit && old(renderer).camera is None ==> {
                &&& final(self).store.contents(old(self).renderable_entities.id as int) == old(
                    self,
                ).store.contents(old(self).renderable_entities.id as int)
                &&& final(renderer).camera == old(renderer).camera
            },
    {
        let interactive = self.interactive_entities;
        renderer.process_event(&mut self.store, &interactive, arena, events);
        let ghost arena1 = *arena;
        let ghost store1 = *self;
        self.update_tick(arena, delta_ms);
        proof {
            EntityArena::lemma_same_liveness_ref_live(*old(arena), arena1);
            crate::container::lemma_live_entries_agree(
                old(self).store.contents(old(self).update_entities.id as int),
                arena1,
                *old(arena),
            );
        }
        let ghost arena2 = *arena;
        let ghost store2 = *self;
        if renderer.has_quit() {
            return true;
        }
        let renderable = self.renderable_entities;
        renderer.render(&mut self.store, &renderable, arena, sink);
        proof {
            EntityArena::lemma_same_liveness_ref_live(*old(arena), arena2);
            crate::container::lemma_live_entries_agree(
                old(self).store.contents(old(self).renderable_entities.id as int),
                arena2,
                *old(arena),
            );
        }
        false
    }
}

impl Default for Game {
    /// Equivalent to [`Game::new`].
    fn default() -> (g: Game)
        ensures
            g.wf(),
            g.timestep == DEFAULT_TIMESTEP,
    {
        Game::new()
    }
}

} // verus!
