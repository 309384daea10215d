//! Camera used to convert between world and canvas positions.

use vstd::prelude::*;

use crate::math::Vec2;

verus! {

/// Camera with a world position; its canvas size is refreshed from the
/// render sink once per render pass and determines where world points land
/// on the canvas.
#[derive(Clone, Copy, PartialEq, Eq, Structural, Debug)]
pub struct Camera {
    /// World position of the camera.
    pub position: Vec2,
    /// Size of the output canvas, updated once per render pass.
    pub canvas_size: Vec2,
}

impl Camera {
    /// The canvas size components are sizes: non-negative and within the
    /// range a window system reports.
    pub open spec fn wf(self) -> bool {
        &&& 0 <= self.canvas_size.x <= u32::MAX
        &&& 0 <= self.canvas_size.y <= u32::MAX
    }

    /// Horizontal world coordinate of a canvas coordinate.
    pub open spec fn world_x(self, x: int) -> int {
        x + self.position.x - self.canvas_size.x / 2
    }

    /// Vertical world coordinate of a canvas coordinate.
    pub open spec fn world_y(self, y: int) -> int {
        y + self.position.y - self.canvas_size.y / 2
    }

    /// Horizontal canvas coordinate of a world coordinate.
    pub open spec fn canvas_x(self, x: int) -> int {
        x - self.position.x + self.canvas_size.x / 2
    }

    /// Vertical canvas coordinate of a world coordinate.
    pub open spec fn canvas_y(self, y: int) -> int {
        y - self.position.y + self.canvas_size.y / 2
    }

    /// Construct a camera at the given world position; the canvas size
    /// starts at zero until the first render pass updates it.
    pub fn new(position: Vec2) -> (c: Camera)
        ensures
            c == (Camera { position, canvas_size: Vec2 { x: 0, y: 0 } }),
            c.wf(),
    {
        Camera { position, canvas_size: Vec2 { x: 0, y: 0 } }
    }

    /// Retrieve the size of the canvas, as updated once per render pass.
    pub fn canvas_size(&self) -> (s: Vec2)
        ensures
            s == self.canvas_size,
    {
        self.canvas_size
    }

    /// Convert a canvas position to its equivalent world position.
    pub fn get_world_position(&self, canvas_position: Vec2) -> (w: Vec2)
        requires
            self.wf(),
            i64::MIN <= self.world_x(canvas_position.x as int) <= i64::MAX,
            i64::MIN <= self.world_y(canvas_position.y as int) <= i64::MAX,
        ensures
            w.x == self.world_x(canvas_position.x as int),
            w.y == self.world_y(canvas_position.y as int),
    {
        let x = ((canvas_position.x as i128) + (self.position.x as i128)
            - (self.canvas_size.x as i128) / 2) as i64;
        let y = ((canvas_position.y as i128) + (self.position.y as i128)
            - (self.canvas_size.y as i128) / 2) as i64;
        Vec2 { x, y }
    }

    /// Convert a world position to its equivalent canvas position.
    pub fn get_canvas_position(&self, world_position: Vec2) -> (c: Vec2)
        requires
            self.wf(),
            i64::MIN <= self.canvas_x(world_position.x as int) <= i64::MAX,
            i64::MIN <= self.canvas_y(world_position.y as int) <= i64::MAX,
        ensures
            c.x == self.canvas_x(world_position.x as int),
            c.y == self.canvas_y(world_position.y as int),
    {
        let x = ((world_position.x as i128) - (self.position.x as i128)
            + (self.canvas_size.x as i128) / 2) as i64;
        let y = ((world_position.y as i128) - (self.position.y as i128)
            + (self.canvas_size.y as i128) / 2) as i64;
        Vec2 { x, y }
    }

    /// Refresh the canvas size from the current output size.
    pub fn update(&mut self, width: u32, height: u32)
        ensures
            final(self).position == old(self).position,
            final(self).canvas_size == (Vec2 { x: width as i64, y: height as i64 }),
            final(self).wf(),
    {
        self.canvas_size = Vec2 { x: width as i64, y: height as i64 };
    }
}

impl Default for Camera {
    /// A camera at the world origin.
    fn default() -> (c: Camera)
        ensures
            c == (Camera { position: Vec2 { x: 0, y: 0 }, canvas_size: Vec2 { x: 0, y: 0 } }),
    {
        Camera::new(Vec2 { x: 0, y: 0 })
    }
}

/// Converting a world position to canvas coordinates and back (or the other
/// way round) returns the starting position: the two camera transforms are
/// inverses of one another.
pub proof fn lemma_camera_transforms_inverse(camera: Camera, x: int, y: int)
    ensures
        camera.world_x(camera.canvas_x(x)) == x,
        camera.world_y(camera.canvas_y(y)) == y,
        camera.canvas_x(camera.world_x(x)) == x,
        camera.canvas_y(camera.world_y(y)) == y,
{
}

} // verus!
