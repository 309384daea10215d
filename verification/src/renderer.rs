//! The renderer: quit tracking, the optional camera, and the input and
//! render passes of the foreground driver.

use vstd::prelude::*;

use crate::camera::Camera;
use crate::config::RendererConfig;
use crate::container::ContainerStore;
use crate::container::Entities;
use crate::container::live_entries;
use crate::entity::EntityArena;
use crate::events::InputEvent;
use crate::events::dispatchable_events;
use crate::events::batch_has_quit;
use crate::events::has_quit;
use crate::traits::Interactive;
use crate::traits::RenderSink;
use crate::traits::Renderable;

verus! {

/// Renders entities and routes input events. A camera is required for the
/// render pass to draw anything: without one it does nothing at all.
pub struct Renderer {
    /// The renderer's current configuration.
    pub config: RendererConfig,
    /// Whether a quit request has been observed.
    pub quit: bool,
    /// The camera the render pass draws with, if one was attached.
    pub camera: Option<Camera>,
}

impl Renderer {
    /// Construct a new renderer with the given configuration.
    pub fn new(config: RendererConfig) -> (r: Renderer)
        ensures
            r.config == config,
            !r.quit,
            r.camera is None,
    {
        Renderer { config, quit: false, camera: None }
    }

    /// Attach a camera to the renderer. A camera is required to render
    /// any entity.
    pub fn with_camera(self, camera: Camera) -> (r: Renderer)
        ensures
            r.config == self.config,
            r.quit == self.quit,
            r.camera == Some(camera),
    {
        Renderer { camera: Some(camera), ..self }
    }

    /// Whether a quit request has been observed.
    pub fn has_quit(&self) -> (q: bool)
        ensures
            q == self.quit,
    {
        self.quit
    }

    /// The input step of the foreground driver: prune the interactive
    /// container once, then dispatch every event of the batch that comes
    /// before the first quit request, in batch order, to every surviving
    /// entity in insertion order, under exclusive access. A quit request
    /// anywhere in the batch marks the renderer as quit and discards the
    /// remaining events of the batch.
    pub fn process_event<T: Interactive>(
        &mut self,
        store: &mut ContainerStore,
        entities: &Entities,
        arena: &mut EntityArena<T>,
        events: &Vec<InputEvent>,
    )
        requires
            old(arena).wf(),
            old(arena).all_unlocked(),
        ensures
            final(self).config == old(self).config,
            final(self).camera == old(self).camera,
            final(self).quit == (old(self).quit || has_quit(events@)),
            final(arena).wf(),
            final(arena).all_unlocked(),
            EntityArena::same_liveness(*old(arena), *final(arena)),
            entities.valid(*old(store)) ==> {
                &&& final(store).contents(entities.id as int) == live_entries(
                    old(store).contents(entities.id as int),
                    *old(arena),
                )
                &&& ContainerStore::others_unchanged(*old(store), *final(store), entities.id as int)
            },
            !entities.valid(*old(store)) ==> *final(store) == *old(store),
    {
        let live = entities.access(store, arena);
        let ds = dispatchable_events(events);
        let ghost snap = *arena;
        let m = ds.len();
        let mut j: usize = 0;
        while j < m
            invariant
                m == ds@.len(),
                j <= m,
                arena.wf(),
                arena.all_unlocked(),
                EntityArena::same_liveness(snap, *arena),
                forall|k: int| 0 <= k < live@.len() ==> snap.ref_live(#[trigger] live@[k]),
            decreases m - j,
        {
            let e = ds[j];
            let n = live.len();
            let mut i: usize = 0;
            while i < n
                invariant
                    n == live@.len(),
                    i <= n,
                    arena.wf(),
                    arena.all_unlocked(),
                    EntityArena::same_liveness(snap, *arena),
                    forall|k: int| 0 <= k < live@.len() ==> snap.ref_live(#[trigger] live@[k]),
                decreases n - i,
            {
                let w = live[i];
                proof {
                    EntityArena::lemma_same_liveness_ref_live(snap, *arena);
                }
                let ghost at_entry = *arena;
                match arena.upgrade(&w) {
                    Some(r) => {
                        match arena.checkout(&r) {
                            Some(mut v) => {
                                v.on_event(&e);
                                let back = arena.checkin(&r, v);
                                proof {
                                    assert(back is None);
                                }
                            },
                            None => {
                                proof {
                                    assert(false);
                                }
                            },
                        }
                        arena.release(r);
                        proof {
                            assert(EntityArena::same_liveness(at_entry, *arena));
                        }
                    },
                    None => {
                        proof {
                            assert(false);
                        }
                    },
                }
                i += 1;
            }
            j += 1;
        }
        if batch_has_quit(events) {
            self.quit = true;
        }
        proof {
            EntityArena::lemma_same_liveness_ref_live(snap, *arena);
        }
    }

    /// The render step of the foreground driver. Without a camera it does
    /// nothing at all. With one, it refreshes the camera's canvas size
    /// from the sink's output size, clears the frame, prunes the
    /// renderable container, calls `render(camera, sink)` on every
    /// surviving entity in insertion order under exclusive access, and
    /// presents the frame.
    pub fn render<T: Renderable<S>, S: RenderSink>(
        &mut self,
        store: &mut ContainerStore,
        entities: &Entities,
        arena: &mut EntityArena<T>,
        sink: &mut S,
    )
        requires
            old(arena).wf(),
            old(arena).all_unlocked(),
        ensures
            final(self).config == old(self).config,
            final(self).quit == old(self).quit,
            old(self).camera is None ==> {
                &&& *final(self) == *old(self)
                &&& *final(store) == *old(store)
                &&& *final(arena) == *old(arena)
            },
            old(self).camera is Some ==> {
                &&& final(self).camera is Some
                &&& final(self).camera.unwrap().position == old(self).camera.unwrap().position
                &&& final(self).camera.unwrap().wf()
                &&& final(arena).wf()
                &&& final(arena).all_unlocked()
                &&& EntityArena::same_liveness(*old(arena), *final(arena))
                &&& entities.valid(*old(store)) ==> {
                    &&& final(store).contents(entities.id as int) == live_entries(
                        old(store).contents(entities.id as int),
                        *old(arena),
                    )
                    &&& ContainerStore::others_unchanged(
                        *old(store),
                        *final(store),
                        entities.id as int,
                    )
                }
                &&& !entities.valid(*old(store)) ==> *final(store) == *old(store)
            },
    {
        let camera = match &self.camera {
            Some(c) => *c,
            None => {
                return ;
            },
        };
        let (width, height) = sink.output_size();
        let mut camera = camera;
        camera.update(width, height);
        self.camera = Some(camera);
        sink.clear();
        let live = entities.access(store, arena);
        let ghost snap = *arena;
        let n = live.len();
        let mut i: usize = 0;
        while i < n
            invariant
                n == live@.len(),
                i <= n,
                arena.wf(),
                arena.all_unlocked(),
                EntityArena::same_liveness(snap, *arena),
                forall|k: int| 0 <= k < live@.len() ==> snap.ref_live(#[trigger] live@[k]),
            decreases n - i,
        {
            let w = live[i];
            proof {
                EntityArena::lemma_same_liveness_ref_live(snap, *arena);
            }
            let ghost at_entry = *arena;
            match arena.upgrade(&w) {
                Some(r) => {
                    match arena.checkout(&r) {
                        Some(v) => {
                            v.render(&camera, sink);
                            let back = arena.checkin(&r, v);
                            proof {
                                assert(back is None);
                            }
                        },
                        None => {
                            proof {
                                assert(false);
                            }
                        },
                    }
                    arena.release(r);
                    proof {
                        assert(EntityArena::same_liveness(at_entry, *arena));
                    }
                },
                None => {
                    proof {
                        assert(false);
                    }
                },
            }
            i += 1;
        }
        sink.present();
        proof {
            EntityArena::lemma_same_liveness_ref_live(snap, *arena);
        }
    }
}

impl Default for Renderer {
    /// A renderer with the default configuration, no camera, and no quit
    /// request observed.
    fn default() -> (r: Renderer)
        ensures
            !r.quit,
            r.camera is None,
            r.config.dimensions is None,
            r.config.resizable,
            r.config.title@ == "ctrait"@,
    {
        Renderer::new(RendererConfig::default())
    }
}

} // verus!
