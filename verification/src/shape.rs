//! The entity shared by the player and the enemies.

use vstd::prelude::*;

verus! {

/// A disc (the player) or a square (an enemy), centred on `(x, y)`.
///
/// The origin is the top-left corner of the screen and `y` grows downward.
#[derive(Clone, Copy, Debug, PartialEq, Eq, Structural)]
pub struct Shape {
    /// Diameter of the disc or edge of the square, in units.
    pub size: i32,
    /// Speed in pixels per second.
    pub speed: i32,
    /// Horizontal position of the centre, in units.
    pub x: i32,
    /// Vertical position of the centre, in units.
    pub y: i32,
    /// Colour as `0xRRGGBB`, fixed at creation.
    pub color: u32,
}

impl Shape {
    /// A shape is well formed when its size and speed are positive and its
    /// size is even, so that half of it is a whole number of units.
    pub open spec fn wf(self) -> bool {
        &&& 0 < self.size
        &&& self.size % 2 == 0
        &&& 0 < self.speed
    }

    /// Half of the size: the radius of the disc, or the distance from the
    /// centre of the square to its edges.
    pub open spec fn half(self) -> int {
        self.size / 2
    }

    /// Builds a shape from its five attributes.
    pub fn new(size: i32, speed: i32, x: i32, y: i32, color: u32) -> (s: Self)
        ensures
            s == (Shape { size, speed, x, y, color }),
    {
        Shape { size, speed, x, y, color }
    }

    /// Tells whether the shape is well formed.
    pub fn is_well_formed(&self) -> (ok: bool)
        ensures
            ok == self.wf(),
    {
        0 < self.size && self.size % 2 == 0 && 0 < self.speed
    }

    /// Returns half of the size of a well-formed shape.
    pub fn half_size(&self) -> (h: i32)
        requires
            self.wf(),
        ensures
            h == self.half(),
            2 * h == self.size,
    {
        self.size / 2
    }
}

} // verus!
