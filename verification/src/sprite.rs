//! Sprite used to display textures.

use vstd::prelude::*;

use crate::camera::Camera;
use crate::rect::Rect;
use crate::traits::RenderSink;
use crate::traits::Renderable;

verus! {

/// A sprite: a path to a texture and the rectangle it is drawn onto.
#[derive(Debug, Clone, PartialEq)]
pub struct Sprite {
    /// Path to the texture.
    pub path: String,
    /// Rectangle giving the sprite's position and size.
    pub rect: Rect,
}

impl Sprite {
    /// Construct a new sprite drawing the texture at `path` onto `rect`.
    pub fn new(path: &str, rect: &Rect) -> (s: Sprite)
        ensures
            s.path@ == path@,
            s.rect == *rect,
    {
        Sprite { path: path.to_owned(), rect: *rect }
    }
}

impl<S: RenderSink> Renderable<S> for Sprite {
    /// Draw the texture onto the projected rectangle; a sprite outside the
    /// camera's view draws nothing.
    fn render(&self, camera: &Camera, sink: &mut S) {
        if let Some(canvas_rect) = self.rect.as_canvas_rect(camera) {
            sink.copy_sprite(self.path.as_str(), &canvas_rect);
        }
    }
}

} // verus!
