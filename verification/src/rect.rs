//! Rectangles in world coordinates, and their projection onto the canvas.

use vstd::prelude::*;

use crate::camera::Camera;
use crate::math::Vec2;
use crate::traits::RenderSink;
use crate::traits::Renderable;

verus! {

/// An RGBA color.
#[derive(Clone, Copy, PartialEq, Eq, Structural, Debug)]
pub struct Color {
    /// Red component.
    pub r: u8,
    /// Green component.
    pub g: u8,
    /// Blue component.
    pub b: u8,
    /// Alpha component.
    pub a: u8,
}

impl Color {
    /// An opaque color from its red, green and blue components.
    pub fn rgb(r: u8, g: u8, b: u8) -> (c: Color)
        ensures
            c == (Color { r, g, b, a: 255 }),
    {
        Color { r, g, b, a: 255 }
    }

    /// A color from all four components.
    pub fn rgba(r: u8, g: u8, b: u8, a: u8) -> (c: Color)
        ensures
            c == (Color { r, g, b, a }),
    {
        Color { r, g, b, a }
    }
}

/// A rectangle in canvas coordinates, as the render sink consumes it.
#[derive(Clone, Copy, PartialEq, Eq, Structural, Debug)]
pub struct CanvasRect {
    /// Canvas x of the top-left corner.
    pub x: i32,
    /// Canvas y of the top-left corner.
    pub y: i32,
    /// Width in pixels.
    pub width: u32,
    /// Height in pixels.
    pub height: u32,
}

/// A rectangle relative to world coordinates.
#[derive(Clone, Copy, PartialEq, Debug)]
pub struct Rect {
    /// Position of the top-left corner.
    pub position: Vec2,
    /// Width and height of the rectangle.
    pub size: Vec2,
    /// Color of the rectangle; it must be `Some` for the rectangle to be
    /// drawn.
    pub color: Option<Color>,
}

impl Rect {
    /// Sizes are non-negative.
    pub open spec fn wf(self) -> bool {
        &&& self.size.x >= 0
        &&& self.size.y >= 0
    }

    /// The rectangle has no area.
    pub open spec fn spec_is_empty(self) -> bool {
        self.size.x == 0 || self.size.y == 0
    }

    /// Two rectangles overlap in a region with area; rectangles without
    /// area intersect nothing.
    pub open spec fn spec_intersects(self, other: Rect) -> bool {
        &&& !self.spec_is_empty()
        &&& !other.spec_is_empty()
        &&& self.position.x < other.position.x + other.size.x
        &&& self.position.x + self.size.x > other.position.x
        &&& self.position.y < other.position.y + other.size.y
        &&& self.position.y + self.size.y > other.position.y
    }

    /// Construct a new rectangle; `x` and `y` are the top-left corner.
    pub fn new(x: i64, y: i64, width: i64, height: i64) -> (r: Rect)
        ensures
            r == (Rect {
                position: Vec2 { x, y },
                size: Vec2 { x: width, y: height },
                color: None,
            }),
    {
        Rect { position: Vec2 { x, y }, size: Vec2 { x: width, y: height }, color: None }
    }

    /// Construct a new rectangle with the given center position.
    pub fn from_center(center_x: i64, center_y: i64, width: i64, height: i64) -> (r: Rect)
        requires
            0 <= width,
            0 <= height,
            i64::MIN <= center_x - width / 2,
            i64::MIN <= center_y - height / 2,
        ensures
            r.position.x == center_x - width / 2,
            r.position.y == center_y - height / 2,
            r.size == (Vec2 { x: width, y: height }),
            r.color is None,
            r.wf(),
    {
        Rect::new(center_x - width / 2, center_y - height / 2, width, height)
    }

    /// The same rectangle with the given color.
    pub fn with_color(self, color: &Color) -> (r: Rect)
        ensures
            r.position == self.position,
            r.size == self.size,
            r.color == Some(*color),
    {
        Rect { color: Some(*color), ..self }
    }

    /// The center position of the rectangle.
    pub fn center(&self) -> (c: Vec2)
        requires
            self.wf(),
            self.position.x + self.size.x / 2 <= i64::MAX,
            self.position.y + self.size.y / 2 <= i64::MAX,
        ensures
            c.x == self.position.x + self.size.x / 2,
            c.y == self.position.y + self.size.y / 2,
    {
        let x = ((self.position.x as i128) + (self.size.x as i128) / 2) as i64;
        let y = ((self.position.y as i128) + (self.size.y as i128) / 2) as i64;
        Vec2 { x, y }
    }

    /// Center the rectangle on the given coordinates.
    pub fn center_on(&mut self, center_x: i64, center_y: i64)
        requires
            old(self).wf(),
            i64::MIN <= center_x - old(self).size.x / 2,
            i64::MIN <= center_y - old(self).size.y / 2,
        ensures
            final(self).position.x == center_x - old(self).size.x / 2,
            final(self).position.y == center_y - old(self).size.y / 2,
            final(self).size == old(self).size,
            final(self).color == old(self).color,
    {
        let x = ((center_x as i128) - (self.size.x as i128) / 2) as i64;
        let y = ((center_y as i128) - (self.size.y as i128) / 2) as i64;
        self.position = Vec2 { x, y };
    }

    /// Whether the rectangle has no area.
    pub fn is_empty(&self) -> (e: bool)
        ensures
            e == self.spec_is_empty(),
    {
        self.size.x == 0 || self.size.y == 0
    }

    /// Whether the given rectangle intersects this one. Rectangles without
    /// area intersect nothing.
    pub fn intersects(&self, other: &Rect) -> (b: bool)
        ensures
            b == self.spec_intersects(*other),
    {
        if self.is_empty() || other.is_empty() {
            return false;
        }
        (self.position.x as i128) < (other.position.x as i128) + (other.size.x as i128)
            && (self.position.x as i128) + (self.size.x as i128) > (other.position.x as i128)
            && (self.position.y as i128) < (other.position.y as i128) + (other.size.y as i128)
            && (self.position.y as i128) + (self.size.y as i128) > (other.position.y as i128)
    }

    /// The rectangle's position on the canvas, seen from `camera`.
    pub open spec fn spec_canvas_x(self, camera: Camera) -> int {
        camera.canvas_x(self.position.x as int)
    }

    /// The rectangle's position on the canvas, seen from `camera`.
    pub open spec fn spec_canvas_y(self, camera: Camera) -> int {
        camera.canvas_y(self.position.y as int)
    }

    /// The projected rectangle overlaps the camera's view.
    pub open spec fn spec_in_view(self, camera: Camera) -> bool {
        &&& self.spec_canvas_x(camera) < camera.canvas_size.x
        &&& self.spec_canvas_x(camera) + self.size.x > 0
        &&& self.spec_canvas_y(camera) < camera.canvas_size.y
        &&& self.spec_canvas_y(camera) + self.size.y > 0
    }

    /// The projected rectangle fits the canvas integer types.
    pub open spec fn spec_fits_canvas(self, camera: Camera) -> bool {
        &&& i32::MIN <= self.spec_canvas_x(camera) <= i32::MAX
        &&& i32::MIN <= self.spec_canvas_y(camera) <= i32::MAX
        &&& 0 <= self.size.x <= u32::MAX
        &&& 0 <= self.size.y <= u32::MAX
    }

    /// The equivalent canvas rectangle relative to the camera: `Some`
    /// exactly when the camera has a well-formed canvas size and the
    /// projection overlaps the camera's view and fits the canvas
    /// coordinate types, `None` otherwise.
    pub fn as_canvas_rect(&self, camera: &Camera) -> (r: Option<CanvasRect>)
        ensures
            r is Some <==> (camera.canvas_size.x >= 0 && camera.canvas_size.y >= 0
                && self.spec_in_view(*camera) && self.spec_fits_canvas(*camera)),
            r is Some ==> {
                &&& r.unwrap().x as int == self.spec_canvas_x(*camera)
                &&& r.unwrap().y as int == self.spec_canvas_y(*camera)
                &&& r.unwrap().width as int == self.size.x as int
                &&& r.unwrap().height as int == self.size.y as int
            },
    {
        if camera.canvas_size.x < 0 || camera.canvas_size.y < 0 {
            return None;
        }
        let cx = (self.position.x as i128) - (camera.position.x as i128)
            + (camera.canvas_size.x as i128) / 2;
        let cy = (self.position.y as i128) - (camera.position.y as i128)
            + (camera.canvas_size.y as i128) / 2;
        let w = self.size.x as i128;
        let h = self.size.y as i128;
        let in_view = cx < camera.canvas_size.x as i128 && cx + w > 0
            && cy < camera.canvas_size.y as i128 && cy + h > 0;
        let fits = i32::MIN as i128 <= cx && cx <= i32::MAX as i128 && i32::MIN as i128 <= cy
            && cy <= i32::MAX as i128 && 0 <= w && w <= u32::MAX as i128 && 0 <= h && h
            <= u32::MAX as i128;
        if in_view && fits {
            Some(
                CanvasRect {
                    x: cx as i32,
                    y: cy as i32,
                    width: self.size.x as u32,
                    height: self.size.y as u32,
                },
            )
        } else {
            None
        }
    }
}

impl Default for Rect {
    /// A rectangle with no position, no size and no color.
    fn default() -> (r: Rect)
        ensures
            r == (Rect {
                position: Vec2 { x: 0, y: 0 },
                size: Vec2 { x: 0, y: 0 },
                color: None,
            }),
    {
        Rect { position: Vec2 { x: 0, y: 0 }, size: Vec2 { x: 0, y: 0 }, color: None }
    }
}

impl<S: RenderSink> Renderable<S> for Rect {
    /// Fill the projected rectangle with its color. A rectangle without a
    /// color, or one outside the camera's view, draws nothing.
    fn render(&self, camera: &Camera, sink: &mut S) {
        if let Some(color) = self.color {
            if let Some(canvas_rect) = self.as_canvas_rect(camera) {
                sink.fill_rect(&canvas_rect, &color);
            }
        }
    }
}

} // verus!
