//! The snake's four-way heading, and the per-tick input resolution that turns
//! held movement keys into the heading for the coming movement step.

use vstd::prelude::*;

verus! {

/// The snake's heading on the grid.
#[derive(Clone, Copy, PartialEq, Eq, Structural, Debug)]
pub enum Direction {
    Left,
    Right,
    Up,
    Down,
}

/// The heading pointing the opposite way.
pub open spec fn opposite_spec(d: Direction) -> Direction {
    match d {
        Direction::Left => Direction::Right,
        Direction::Right => Direction::Left,
        Direction::Up => Direction::Down,
        Direction::Down => Direction::Up,
    }
}

impl Direction {
    /// The heading pointing the opposite way.
    pub fn opposite(self) -> (r: Direction)
        ensures
            r == opposite_spec(self),
    {
        match self {
            Direction::Left => Direction::Right,
            Direction::Right => Direction::Left,
            Direction::Up => Direction::Down,
            Direction::Down => Direction::Up,
        }
    }
}

/// Reversing a heading twice gives the heading back: `opposite` is an
/// involution.
pub proof fn lemma_opposite_involutive(d: Direction)
    ensures
        opposite_spec(opposite_spec(d)) == d,
{
}

/// Which movement keys are currently held, one flag per logical key (each
/// covers both of its bindings).
#[derive(Clone, Copy, PartialEq, Eq, Structural, Debug)]
pub struct InputState {
    pub left: bool,
    pub right: bool,
    pub down: bool,
    pub up: bool,
}

/// The heading the held keys ask for, before reversal rejection: keys are
/// consulted in the fixed priority order left, right, down, up, and when no
/// key is held the current heading is kept.
pub open spec fn requested_direction(current: Direction, input: InputState) -> Direction {
    if input.left {
        Direction::Left
    } else if input.right {
        Direction::Right
    } else if input.down {
        Direction::Down
    } else if input.up {
        Direction::Up
    } else {
        current
    }
}

/// The heading after input resolution: the requested heading, unless it is
/// the exact opposite of the current one, which would let the snake reverse
/// into itself; then the current heading is kept.
pub open spec fn resolve_direction_spec(current: Direction, input: InputState) -> Direction {
    if requested_direction(current, input) == opposite_spec(current) {
        current
    } else {
        requested_direction(current, input)
    }
}

/// Resolves one tick's held keys against the current heading.
pub fn resolve_direction(current: Direction, input: InputState) -> (r: Direction)
    ensures
        r == resolve_direction_spec(current, input),
{
    let requested = if input.left {
        Direction::Left
    } else if input.right {
        Direction::Right
    } else if input.down {
        Direction::Down
    } else if input.up {
        Direction::Up
    } else {
        current
    };
    if requested == current.opposite() {
        current
    } else {
        requested
    }
}

/// A request for the exact opposite of the current heading is rejected:
/// input resolution then keeps the current heading.
pub proof fn lemma_reversal_rejected(current: Direction, input: InputState)
    requires
        requested_direction(current, input) == opposite_spec(current),
    ensures
        resolve_direction_spec(current, input) == current,
{
}

} // verus!
