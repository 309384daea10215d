//! Minimal integer 2-D vector used for world and canvas coordinates.

use vstd::prelude::*;

verus! {

/// A 2-D vector with integer components.
#[derive(Clone, Copy, PartialEq, Eq, Structural, Debug)]
pub struct Vec2 {
    /// Horizontal component.
    pub x: i64,
    /// Vertical component.
    pub y: i64,
}

impl Vec2 {
    /// Construct a vector from its components.
    pub fn new(x: i64, y: i64) -> (v: Vec2)
        ensures
            v == (Vec2 { x, y }),
    {
        Vec2 { x, y }
    }

    /// The zero vector.
    pub fn zeros() -> (v: Vec2)
        ensures
            v == (Vec2 { x: 0, y: 0 }),
    {
        Vec2 { x: 0, y: 0 }
    }

    /// A vector with both components equal to `value`.
    pub fn repeat(value: i64) -> (v: Vec2)
        ensures
            v == (Vec2 { x: value, y: value }),
    {
        Vec2 { x: value, y: value }
    }
}

} // verus!
