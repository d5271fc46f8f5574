//! The four static boundary walls. Each wall has a visible extent flush with
//! the board's edge and a separate collision boundary pushed a fixed margin
//! outward, so the snake visually touches a wall one step before the hit
//! registers.

use vstd::prelude::*;

use crate::geometry::Aabb;
use crate::geometry::Vec2i;

verus! {

/// Coordinate of the left board edge: half the board, `SQUARE_AMOUNT / 2`
/// tiles of `SQUARE_SIZE` units, out from the origin. The other edges mirror
/// it.
pub const LEFT_WALL: i32 = -320;

/// Coordinate of the right board edge, in world units.
pub const RIGHT_WALL: i32 = 320;

/// Coordinate of the top board edge, in world units.
pub const TOP_WALL: i32 = 320;

/// Coordinate of the bottom board edge, in world units.
pub const BOTTOM_WALL: i32 = -320;

/// Length of a wall: the full board side, `SQUARE_AMOUNT * SQUARE_SIZE`
/// world units.
pub const WALL_LENGTH: i32 = 640;

/// How far outward from the visible wall the collision boundary sits.
pub const WALL_COLLISION_OFFSET: i32 = 10;

/// Thickness of a wall, in world units.
pub const WALL_THICKNESS: i32 = 5;

/// One of the four boundary walls.
#[derive(Clone, Copy, PartialEq, Eq, Structural, Debug)]
pub enum WallLocation {
    Left,
    Right,
    Top,
    Bottom,
}

/// Center of a wall's visible extent.
pub open spec fn wall_position_spec(loc: WallLocation) -> Vec2i {
    match loc {
        WallLocation::Left => Vec2i { x: LEFT_WALL, y: 0 },
        WallLocation::Right => Vec2i { x: RIGHT_WALL, y: 0 },
        WallLocation::Top => Vec2i { x: 0, y: TOP_WALL },
        WallLocation::Bottom => Vec2i { x: 0, y: BOTTOM_WALL },
    }
}

/// Center of a wall's collision boundary: the visible center pushed
/// `WALL_COLLISION_OFFSET` units away from the board.
pub open spec fn wall_collision_position_spec(loc: WallLocation) -> Vec2i {
    match loc {
        WallLocation::Left => Vec2i { x: (LEFT_WALL - WALL_COLLISION_OFFSET) as i32, y: 0 },
        WallLocation::Right => Vec2i { x: (RIGHT_WALL + WALL_COLLISION_OFFSET) as i32, y: 0 },
        WallLocation::Top => Vec2i { x: 0, y: (TOP_WALL + WALL_COLLISION_OFFSET) as i32 },
        WallLocation::Bottom => Vec2i { x: 0, y: (BOTTOM_WALL - WALL_COLLISION_OFFSET) as i32 },
    }
}

/// Full extent of a wall: as long as the board on its running axis and
/// `WALL_THICKNESS` across. Visible extent and collision boundary share it.
pub open spec fn wall_size_spec(loc: WallLocation) -> Vec2i {
    match loc {
        WallLocation::Left | WallLocation::Right => Vec2i {
            x: WALL_THICKNESS,
            y: WALL_LENGTH,
        },
        WallLocation::Top | WallLocation::Bottom => Vec2i {
            x: WALL_LENGTH,
            y: WALL_THICKNESS,
        },
    }
}

/// The box the snake's head is tested against for this wall.
pub open spec fn wall_collision_box_spec(loc: WallLocation) -> Aabb {
    Aabb { center: wall_collision_position_spec(loc), size: wall_size_spec(loc) }
}

impl WallLocation {
    /// Center of this wall's visible extent.
    pub fn position(&self) -> (p: Vec2i)
        ensures
            p == wall_position_spec(*self),
    {
        match self {
            WallLocation::Left => Vec2i { x: LEFT_WALL, y: 0 },
            WallLocation::Right => Vec2i { x: RIGHT_WALL, y: 0 },
            WallLocation::Top => Vec2i { x: 0, y: TOP_WALL },
            WallLocation::Bottom => Vec2i { x: 0, y: BOTTOM_WALL },
        }
    }

    /// Center of this wall's collision boundary, offset outward from the
    /// visible wall.
    pub fn collision_position(&self) -> (p: Vec2i)
        ensures
            p == wall_collision_position_spec(*self),
    {
        match self {
            WallLocation::Left => Vec2i { x: LEFT_WALL - WALL_COLLISION_OFFSET, y: 0 },
            WallLocation::Right => Vec2i { x: RIGHT_WALL + WALL_COLLISION_OFFSET, y: 0 },
            WallLocation::Top => Vec2i { x: 0, y: TOP_WALL + WALL_COLLISION_OFFSET },
            WallLocation::Bottom => Vec2i { x: 0, y: BOTTOM_WALL - WALL_COLLISION_OFFSET },
        }
    }

    /// Full extent of this wall.
    pub fn size(&self) -> (s: Vec2i)
        ensures
            s == wall_size_spec(*self),
    {
        match self {
            WallLocation::Left | WallLocation::Right => Vec2i {
                x: WALL_THICKNESS,
                y: WALL_LENGTH,
            },
            WallLocation::Top | WallLocation::Bottom => Vec2i {
                x: WALL_LENGTH,
                y: WALL_THICKNESS,
            },
        }
    }

    /// The box the snake's head is tested against for this wall.
    pub fn collision_box(&self) -> (b: Aabb)
        ensures
            b == wall_collision_box_spec(*self),
    {
        Aabb { center: self.collision_position(), size: self.size() }
    }

    /// The four walls, in the fixed order the collision resolver visits them.
    pub fn all() -> (locs: Vec<WallLocation>)
        ensures
            locs@ == seq![
                WallLocation::Left,
                WallLocation::Right,
                WallLocation::Top,
                WallLocation::Bottom,
            ],
    {
        let mut locs: Vec<WallLocation> = Vec::new();
        locs.push(WallLocation::Left);
        locs.push(WallLocation::Right);
        locs.push(WallLocation::Top);
        locs.push(WallLocation::Bottom);
        proof {
            assert(locs@ =~= seq![
                WallLocation::Left,
                WallLocation::Right,
                WallLocation::Top,
                WallLocation::Bottom,
            ]);
        }
        locs
    }
}

} // verus!
