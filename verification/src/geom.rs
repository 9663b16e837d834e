//! Integer 2D vectors and axis-aligned rectangles.
//!
//! All world coordinates are `i64` values bounded by [`COORD_LIMIT`], which
//! leaves ample headroom for the doubled-coordinate arithmetic used by the
//! collision engine without any risk of overflow.

use vstd::prelude::*;

verus! {

/// Largest magnitude a world coordinate (or extent) may take.
pub const COORD_LIMIT: i64 = 1_000_000_000_000;

/// A 2D point or translation in integer world units.
#[derive(Clone, Copy, PartialEq, Eq, Structural, Debug)]
pub struct Vec2i {
    pub x: i64,
    pub y: i64,
}

/// An axis-aligned rectangle: origin (`x`, `y`) plus extents (`w`, `h`).
#[derive(Clone, Copy, PartialEq, Eq, Structural, Debug)]
pub struct Recti {
    pub x: i64,
    pub y: i64,
    pub w: i64,
    pub h: i64,
}

/// A single coordinate is within the world bounds.
pub open spec fn coord_ok(v: int) -> bool {
    -(COORD_LIMIT as int) <= v <= COORD_LIMIT as int
}

/// Both components of a vector are within the world bounds.
pub open spec fn vec_ok(v: Vec2i) -> bool {
    coord_ok(v.x as int) && coord_ok(v.y as int)
}

/// A rectangle has in-range origin and non-negative, in-range extents.
/// The collision engine assumes non-negative extents.
pub open spec fn rect_ok(r: Recti) -> bool {
    &&& coord_ok(r.x as int)
    &&& coord_ok(r.y as int)
    &&& 0 <= r.w <= COORD_LIMIT as int
    &&& 0 <= r.h <= COORD_LIMIT as int
}

/// Magnitude of a mathematical integer.
pub open spec fn mag(v: int) -> int {
    if v >= 0 {
        v
    } else {
        -v
    }
}

impl Vec2i {
    /// The zero vector.
    pub fn zero() -> (r: Vec2i)
        ensures
            r.x == 0,
            r.y == 0,
    {
        Vec2i { x: 0, y: 0 }
    }

    pub fn new(x: i64, y: i64) -> (r: Vec2i)
        ensures
            r.x == x,
            r.y == y,
    {
        Vec2i { x, y }
    }
}

impl Recti {
    pub fn new(x: i64, y: i64, w: i64, h: i64) -> (r: Recti)
        ensures
            r.x == x,
            r.y == y,
            r.w == w,
            r.h == h,
    {
        Recti { x, y, w, h }
    }
}

} // verus!
