//! Capability traits that entity types implement, and the render sink the
//! host supplies.
//!
//! Each trait names one capability: a container holds entities that all
//! satisfy one of them, and the scheduler invokes the capability method on
//! every live entry of the matching container. User callbacks carry no
//! contracts; what they do to their own state is their own business.

use vstd::prelude::*;

use crate::camera::Camera;
use crate::events::InputEvent;
use crate::rect::CanvasRect;
use crate::rect::Color;

verus! {

/// A type that should update every main-loop iteration.
pub trait Update: Send {
    /// Called once per main-loop iteration. `delta_ms` is the measured
    /// number of milliseconds since the previous iteration.
    fn update(&mut self, delta_ms: u64);
}

/// A type that should update every fixed timestep. Use this instead of
/// [`Update`] for time-dependent simulation.
pub trait FixedUpdate: Send {
    /// Called once per tick of the fixed driver. `delta_ms` is the
    /// measured number of milliseconds since the previous tick, which is
    /// close to, but not exactly, the configured timestep.
    fn fixed_update(&mut self, delta_ms: u64);
}

/// A type that is responsive to user events.
pub trait Interactive: Send {
    /// Called for each dispatched event of the batch.
    fn on_event(&mut self, event: &InputEvent);
}

/// A type that can be rendered to a sink of type `S`.
pub trait Renderable<S>: Send {
    /// Called once per render pass with the camera for this frame.
    fn render(&self, camera: &Camera, sink: &mut S);
}

/// The presentation side the render pass drives: the host implements this
/// for whatever actually draws frames.
pub trait RenderSink {
    /// Current size of the output surface, as `(width, height)`.
    fn output_size(&self) -> (u32, u32);

    /// Clear the frame before the entities are drawn.
    fn clear(&mut self);

    /// Fill one canvas rectangle with a color.
    fn fill_rect(&mut self, rect: &CanvasRect, color: &Color);

    /// Draw the texture at `path` onto one canvas rectangle.
    fn copy_sprite(&mut self, path: &str, rect: &CanvasRect);

    /// Present the finished frame.
    fn present(&mut self);
}

} // verus!
