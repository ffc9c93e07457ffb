//! Grid points and the dimensions of the play area.

use vstd::prelude::*;

verus! {

/// Width of the map, in tiles.
pub const SCREEN_WIDTH: i32 = 80;
/// Height of the map, in tiles.
pub const SCREEN_HEIGHT: i32 = 50;
/// Width of the sprite consoles.
pub const DISPLAY_WIDTH: i32 = 40;
/// Height of the sprite consoles.
pub const DISPLAY_HEIGHT: i32 = 25;
/// Number of tiles of a map.
pub const NUM_TILES: usize = 4000;

/// A position on the grid (or an offset between two positions).
#[derive(Clone, Copy, Debug, PartialEq, Eq, Structural, Hash)]
pub struct Point {
    pub x: i32,
    pub y: i32,
}

impl Point {
    pub fn new(x: i32, y: i32) -> (p: Point)
        ensures
            p.x == x,
            p.y == y,
    {
        Point { x, y }
    }

    pub fn zero() -> (p: Point)
        ensures
            p.x == 0,
            p.y == 0,
    {
        Point { x: 0, y: 0 }
    }

    /// Component-wise sum of two points.
    pub open spec fn spec_plus(self, other: Point) -> Point {
        Point { x: (self.x + other.x) as i32, y: (self.y + other.y) as i32 }
    }

    /// Whether the component-wise sum fits the coordinate type.
    pub open spec fn can_add(self, other: Point) -> bool {
        &&& i32::MIN <= self.x + other.x <= i32::MAX
        &&& i32::MIN <= self.y + other.y <= i32::MAX
    }

    pub fn plus(self, other: Point) -> (p: Point)
        requires
            self.can_add(other),
        ensures
            p == self.spec_plus(other),
            p.x == self.x + other.x,
            p.y == self.y + other.y,
    {
        Point { x: self.x + other.x, y: self.y + other.y }
    }
}

} // verus!
