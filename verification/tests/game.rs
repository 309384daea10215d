use std::sync::{Arc, Mutex};

use ctrait::camera::Camera;
use ctrait::entity::EntityArena;
use ctrait::events::InputEvent;
use ctrait::game::{Game, DEFAULT_TIMESTEP};
use ctrait::laws::run_interleaved_increments;
use ctrait::rect::{CanvasRect, Color};
use ctrait::renderer::Renderer;
use ctrait::traits::{FixedUpdate, Interactive, RenderSink, Renderable, Update};

/// A recording entity: every callback appends a tagged entry to a shared
/// log, so a test can observe dispatch order and arguments.
struct Probe {
    id: u64,
    log: Arc<Mutex<Vec<String>>>,
}

impl Update for Probe {
    fn update(&mut self, delta_ms: u64) {
        self.log.lock().unwrap().push(format!("update:{}:{}", self.id, delta_ms));
    }
}

impl FixedUpdate for Probe {
    fn fixed_update(&mut self, delta_ms: u64) {
        self.log.lock().unwrap().push(format!("fixed:{}:{}", self.id, delta_ms));
    }
}

impl Interactive for Probe {
    fn on_event(&mut self, event: &InputEvent) {
        self.log.lock().unwrap().push(format!("event:{}:{:?}", self.id, event));
    }
}

impl Renderable<CountingSink> for Probe {
    fn render(&self, _camera: &Camera, sink: &mut CountingSink) {
        sink.rendered.push(self.id);
    }
}

/// A render sink that only counts what the render pass asks of it.
struct CountingSink {
    size: (u32, u32),
    clears: usize,
    presents: usize,
    rendered: Vec<u64>,
}

impl CountingSink {
    fn new() -> Self {
        CountingSink { size: (640, 480), clears: 0, presents: 0, rendered: Vec::new() }
    }
}

impl RenderSink for CountingSink {
    fn output_size(&self) -> (u32, u32) {
        self.size
    }
    fn clear(&mut self) {
        self.clears += 1;
    }
    fn fill_rect(&mut self, _rect: &CanvasRect, _color: &Color) {}
    fn copy_sprite(&mut self, _path: &str, _rect: &CanvasRect) {}
    fn present(&mut self) {
        self.presents += 1;
    }
}

fn probe(id: u64, log: &Arc<Mutex<Vec<String>>>) -> Probe {
    Probe { id, log: Arc::clone(log) }
}

#[test]
fn game_default() {
    let mut game = Game::default();
    let arena: EntityArena<Probe> = EntityArena::new();
    // By default there are no entities in any of the entity containers.
    let update = game.update_entities;
    assert!(update.access(&mut game.store, &arena).is_empty());
    let fixed = game.fixed_update_entities;
    assert!(fixed.access(&mut game.store, &arena).is_empty());
    let renderable = game.renderable_entities;
    assert!(renderable.access(&mut game.store, &arena).is_empty());
    let interactive = game.interactive_entities;
    assert!(interactive.access(&mut game.store, &arena).is_empty());
    // The timestep should be the default.
    assert_eq!(game.timestep, DEFAULT_TIMESTEP);
}

#[test]
fn game_with_timestep() {
    let game = Game::default().with_timestep(12);
    assert_eq!(game.timestep, 12);
}

#[test]
fn liveness_pruning() {
    // Push a weak reference, drop the only strong reference, and the next
    // access must come back empty.
    let log = Arc::new(Mutex::new(Vec::new()));
    let mut game = Game::new();
    let mut arena = EntityArena::new();
    let entity = arena.create(probe(1, &log));
    let update = game.update_entities;
    update.push(&mut game.store, &entity);
    arena.release(entity);
    assert!(update.access(&mut game.store, &arena).is_empty());
}

#[test]
fn multi_container_independence() {
    // The same entity registered in two different-capability containers:
    // dropping it empties both, in whichever order they are accessed.
    let log = Arc::new(Mutex::new(Vec::new()));
    let mut game = Game::new();
    let mut arena = EntityArena::new();
    let entity = arena.create(probe(1, &log));
    let update = game.update_entities;
    let interactive = game.interactive_entities;
    update.push(&mut game.store, &entity);
    interactive.push(&mut game.store, &entity);
    arena.release(entity);
    assert!(interactive.access(&mut game.store, &arena).is_empty());
    assert!(update.access(&mut game.store, &arena).is_empty());
}

#[test]
fn insertion_order_dispatch() {
    // Entities pushed as a, b, c, b are dispatched as a, b, c, b.
    let log = Arc::new(Mutex::new(Vec::new()));
    let mut game = Game::new();
    let mut arena = EntityArena::new();
    let a = arena.create(probe(1, &log));
    let b = arena.create(probe(2, &log));
    let c = arena.create(probe(3, &log));
    let update = game.update_entities;
    update.push(&mut game.store, &a);
    update.push(&mut game.store, &b);
    update.push(&mut game.store, &c);
    update.push(&mut game.store, &b);
    game.update_tick(&mut arena, 16);
    assert_eq!(
        *log.lock().unwrap(),
        vec!["update:1:16", "update:2:16", "update:3:16", "update:2:16"]
    );
}

#[test]
fn container_clone_shares_state() {
    // A push through the cloned handle is visible through the original.
    let log = Arc::new(Mutex::new(Vec::new()));
    let mut game = Game::new();
    let mut arena = EntityArena::new();
    let entity = arena.create(probe(1, &log));
    let original = game.renderable_entities;
    let duplicate = original;
    duplicate.push(&mut game.store, &entity);
    assert_eq!(original.access(&mut game.store, &arena).len(), 1);
}

#[test]
fn quit_preempts_remaining_input() {
    // Of the batch [KeyDown, Quit, KeyUp] only KeyDown is dispatched, the
    // iteration reports quit, and the render step is skipped.
    let log = Arc::new(Mutex::new(Vec::new()));
    let mut game = Game::new();
    let mut arena = EntityArena::new();
    let mut renderer = Renderer::default().with_camera(Camera::default());
    let mut sink = CountingSink::new();
    let entity = arena.create(probe(1, &log));
    let interactive = game.interactive_entities;
    interactive.push(&mut game.store, &entity);
    let renderable = game.renderable_entities;
    renderable.push(&mut game.store, &entity);
    let events = vec![InputEvent::KeyDown(1), InputEvent::Quit, InputEvent::KeyUp(1)];
    let quit = game.main_iteration(&mut renderer, &mut arena, &mut sink, &events, 16);
    assert!(quit);
    assert!(renderer.has_quit());
    let entries = log.lock().unwrap();
    let events_seen: Vec<&String> =
        entries.iter().filter(|e| e.starts_with("event:")).collect();
    assert_eq!(events_seen, vec![&format!("event:1:{:?}", InputEvent::KeyDown(1))]);
    // No render step ran on the terminal iteration.
    assert_eq!(sink.clears, 0);
    assert_eq!(sink.presents, 0);
    assert!(sink.rendered.is_empty());
}

#[test]
fn main_iteration_runs_update_and_render() {
    let log = Arc::new(Mutex::new(Vec::new()));
    let mut game = Game::new();
    let mut arena = EntityArena::new();
    let mut renderer = Renderer::default().with_camera(Camera::default());
    let mut sink = CountingSink::new();
    let entity = arena.create(probe(7, &log));
    let update = game.update_entities;
    update.push(&mut game.store, &entity);
    let renderable = game.renderable_entities;
    renderable.push(&mut game.store, &entity);
    let events = vec![InputEvent::KeyDown(3)];
    let quit = game.main_iteration(&mut renderer, &mut arena, &mut sink, &events, 25);
    assert!(!quit);
    assert_eq!(*log.lock().unwrap(), vec!["update:7:25"]);
    assert_eq!(sink.clears, 1);
    assert_eq!(sink.presents, 1);
    assert_eq!(sink.rendered, vec![7]);
}

#[test]
fn render_does_nothing_without_camera() {
    let log = Arc::new(Mutex::new(Vec::new()));
    let mut game = Game::new();
    let mut arena = EntityArena::new();
    let mut renderer = Renderer::default();
    let mut sink = CountingSink::new();
    let entity = arena.create(probe(7, &log));
    let renderable = game.renderable_entities;
    renderable.push(&mut game.store, &entity);
    let quit = game.main_iteration(&mut renderer, &mut arena, &mut sink, &Vec::new(), 5);
    assert!(!quit);
    assert_eq!(sink.clears, 0);
    assert_eq!(sink.presents, 0);
    assert!(sink.rendered.is_empty());
}

#[test]
fn fixed_tick_dispatches_in_order() {
    let log = Arc::new(Mutex::new(Vec::new()));
    let mut game = Game::new();
    let mut arena = EntityArena::new();
    let a = arena.create(probe(1, &log));
    let b = arena.create(probe(2, &log));
    let fixed = game.fixed_update_entities;
    fixed.push(&mut game.store, &a);
    fixed.push(&mut game.store, &b);
    game.fixed_tick(&mut arena, 10);
    game.fixed_tick(&mut arena, 11);
    assert_eq!(
        *log.lock().unwrap(),
        vec!["fixed:1:10", "fixed:2:10", "fixed:1:11", "fixed:2:11"]
    );
}

#[test]
fn fixed_and_main_passes_are_independent() {
    // Registrations for one driver are invisible to the other: fixed ticks
    // never call update entities and the other way round.
    let log = Arc::new(Mutex::new(Vec::new()));
    let mut game = Game::new();
    let mut arena = EntityArena::new();
    let fixed_probe = arena.create(probe(1, &log));
    let update_probe = arena.create(probe(2, &log));
    let fixed = game.fixed_update_entities;
    fixed.push(&mut game.store, &fixed_probe);
    let update = game.update_entities;
    update.push(&mut game.store, &update_probe);
    game.fixed_tick(&mut arena, 10);
    game.fixed_tick(&mut arena, 10);
    game.fixed_tick(&mut arena, 10);
    game.update_tick(&mut arena, 50);
    let entries = log.lock().unwrap();
    assert_eq!(entries.iter().filter(|e| e.starts_with("fixed:1")).count(), 3);
    assert_eq!(entries.iter().filter(|e| e.starts_with("update:2")).count(), 1);
    assert_eq!(entries.len(), 4);
}

#[test]
fn exclusive_access_serializes_increments() {
    // Interleaved critical sections from two drivers never lose an update.
    let mut arena: EntityArena<u64> = EntityArena::new();
    let counter = arena.create(0);
    let schedule =
        vec![true, false, false, true, true, false, true, false, false, true, true, false];
    run_interleaved_increments(&mut arena, &counter, &schedule);
    let value = arena.checkout(&counter).unwrap();
    assert_eq!(value, 12);
    assert!(arena.checkin(&counter, value).is_none());
}

#[test]
fn quit_is_sticky() {
    // Once quit has been observed, every later iteration reports quit,
    // even with no further quit event.
    let mut game = Game::new();
    let mut arena: EntityArena<Probe> = EntityArena::new();
    let mut renderer = Renderer::default();
    let mut sink = CountingSink::new();
    let quit =
        game.main_iteration(&mut renderer, &mut arena, &mut sink, &vec![InputEvent::Quit], 1);
    assert!(quit);
    let again = game.main_iteration(&mut renderer, &mut arena, &mut sink, &Vec::new(), 1);
    assert!(again);
}

#[test]
fn renderer_with_camera() {
    let renderer = Renderer::default().with_camera(Camera::default());
    assert!(renderer.camera.is_some());
}

#[test]
fn renderer_new_with_config() {
    let config = ctrait::config::RendererConfig {
        dimensions: Some((100, 100)),
        ..ctrait::config::RendererConfig::default()
    };
    let renderer = Renderer::new(config);
    assert!(!renderer.has_quit());
    assert_eq!(renderer.config.dimensions(), (100, 100));
    assert!(renderer.camera.is_none());
}
