//! Trait-based game engine core: shared entities behind generation-counted
//! handles, capability containers of weak references with lazy pruning, and a
//! dual-clock scheduler that dispatches per-frame, fixed-timestep, input and
//! render callbacks to the registered entities.

pub mod camera;
pub mod config;
pub mod container;
pub mod entity;
pub mod error;
pub mod events;
pub mod game;
pub mod laws;
pub mod math;
pub mod rect;
pub mod renderer;
pub mod sprite;
pub mod tile;
pub mod traits;
