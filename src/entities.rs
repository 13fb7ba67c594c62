use vstd::prelude::*;

verus! {

/// Largest coordinate magnitude, in thousandths of a pixel, that the
/// simulation accepts. It lies far beyond anything a session reaches and
/// leaves ample headroom for the per-tick arithmetic in `i64`.
pub const COORD_LIMIT: i64 = 1_000_000_000_000;

/// Coordinate bound at the start of a tick; one tick moves nothing by more
/// than a few pixels, so every intermediate value stays within `COORD_LIMIT`.
pub const TICK_LIMIT: i64 = 500_000_000_000;

/// Whether a coordinate lies within the range the simulation accepts.
pub open spec fn coord_ok(v: int) -> bool {
    -COORD_LIMIT <= v <= COORD_LIMIT
}

/// `v` brought into `[lo, hi]`.
pub open spec fn clamp(v: int, lo: int, hi: int) -> int {
    if v < lo {
        lo
    } else if v > hi {
        hi
    } else {
        v
    }
}

/// Physical constants of the simulation. Distances are in thousandths of a
/// pixel and durations in ticks.
pub struct Physics;

impl Physics {
    /// Vertical distance covered by a jumping or falling body in one tick.
    pub const GRAVITY: i64 = 2050;

    /// Number of fixed simulation steps in one second.
    pub const TICKS_PER_SECOND: u32 = 300;
}

/// Dimensions of the playing field, in thousandths of a pixel.
pub struct WindowMeasurements;

impl WindowMeasurements {
    pub const WINDOW_WIDTH: i64 = 1_024_000;

    pub const WINDOW_HEIGHT: i64 = 924_000;
}

/// A point of the playing field, in thousandths of a pixel; `y` grows
/// downwards.
#[derive(Debug, Clone, Copy, PartialEq, Eq, Structural)]
pub struct Position {
    pub x: i64,
    pub y: i64,
}

/// An axis-aligned box given by its four edges.
#[derive(Debug, Clone, Copy, PartialEq, Eq, Structural)]
pub struct BoundingRectEdges {
    pub left: i64,
    pub top: i64,
    pub right: i64,
    pub bottom: i64,
}

impl BoundingRectEdges {
    pub fn new(left: i64, top: i64, right: i64, bottom: i64) -> (r: Self)
        ensures
            r.left == left,
            r.top == top,
            r.right == right,
            r.bottom == bottom,
    {
        BoundingRectEdges { left, top, right, bottom }
    }

    /// The degenerate box at the origin, used for an entity that has no box yet.
    pub fn zero() -> (r: Self)
        ensures
            r == (BoundingRectEdges { left: 0, top: 0, right: 0, bottom: 0 }),
    {
        BoundingRectEdges { left: 0, top: 0, right: 0, bottom: 0 }
    }

    /// Two boxes overlap when they intersect or touch.
    pub open spec fn overlaps_spec(self, other: Self) -> bool {
        &&& self.left <= other.right
        &&& self.right >= other.left
        &&& self.top <= other.bottom
        &&& self.bottom >= other.top
    }

    pub fn overlaps(&self, other: &Self) -> (r: bool)
        ensures
            r == self.overlaps_spec(*other),
    {
        self.left <= other.right && self.right >= other.left && self.top <= other.bottom
            && self.bottom >= other.top
    }
}

/// An entity that occupies a box on the playing field.
pub trait BoundableEntity {
    spec fn bounding_rect_spec(&self) -> BoundingRectEdges;

    fn bounding_rect(&self) -> (r: BoundingRectEdges)
        ensures
            r == self.bounding_rect_spec(),
    ;
}

} // verus!
