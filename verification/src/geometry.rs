//! Integer world-space geometry: points, axis-aligned boxes, and the overlap
//! test used for every collision decision in the game.
//!
//! All positions and extents in the simulation are whole numbers of world
//! units (a tile is `SQUARE_SIZE` units across), so coordinates are kept as
//! `i32` and the box overlap test is exact integer arithmetic. Boxes are
//! stored as a center and a full extent; to avoid halving the extent, the
//! overlap test compares doubled coordinates, which keeps odd extents (such
//! as the wall thickness) exact.

use vstd::prelude::*;

verus! {

/// Side length of one board tile, in world units.
pub const SQUARE_SIZE: i32 = 40;

/// Number of tiles along each side of the square board.
pub const SQUARE_AMOUNT: i32 = 16;

/// A point in world units.
#[derive(Clone, Copy, PartialEq, Eq, Structural, Debug)]
pub struct Vec2i {
    pub x: i32,
    pub y: i32,
}

/// An axis-aligned box given by its center and its full extent on each axis.
#[derive(Clone, Copy, PartialEq, Eq, Structural, Debug)]
pub struct Aabb {
    pub center: Vec2i,
    pub size: Vec2i,
}

/// Whether two boxes overlap. The box `b` covers the closed interval
/// `[b.center - b.size / 2, b.center + b.size / 2]` on each axis; boxes that
/// merely touch along an edge count as overlapping. Stated over doubled
/// coordinates so that odd extents stay exact.
pub open spec fn boxes_overlap(a: Aabb, b: Aabb) -> bool {
    &&& 2 * a.center.x - a.size.x <= 2 * b.center.x + b.size.x
    &&& 2 * b.center.x - b.size.x <= 2 * a.center.x + a.size.x
    &&& 2 * a.center.y - a.size.y <= 2 * b.center.y + b.size.y
    &&& 2 * b.center.y - b.size.y <= 2 * a.center.y + a.size.y
}

/// Exact closed-interval overlap test for two axis-aligned boxes.
pub fn aabb_intersects(a: &Aabb, b: &Aabb) -> (r: bool)
    ensures
        r == boxes_overlap(*a, *b),
{
    let ax_min: i64 = 2 * (a.center.x as i64) - (a.size.x as i64);
    let ax_max: i64 = 2 * (a.center.x as i64) + (a.size.x as i64);
    let ay_min: i64 = 2 * (a.center.y as i64) - (a.size.y as i64);
    let ay_max: i64 = 2 * (a.center.y as i64) + (a.size.y as i64);
    let bx_min: i64 = 2 * (b.center.x as i64) - (b.size.x as i64);
    let bx_max: i64 = 2 * (b.center.x as i64) + (b.size.x as i64);
    let by_min: i64 = 2 * (b.center.y as i64) - (b.size.y as i64);
    let by_max: i64 = 2 * (b.center.y as i64) + (b.size.y as i64);
    ax_min <= bx_max && bx_min <= ax_max && ay_min <= by_max && by_min <= ay_max
}

} // verus!
