//! The snake's game state and the per-tick update steps that mutate it.
//!
//! Every step is specified as a pure transition on [`StateModel`], the
//! mathematical view of the state, and each executable step is proved to
//! realize its transition exactly. Events are explicit flags carried in the
//! state: a collision raises `growth_pending` or `game_over_pending`, and the
//! step that consumes the flag clears it. A game-over raised by the collision
//! resolver is consumed by the next tick's game-over step, one tick later,
//! while growth is consumed in the same tick that raises it.

use vstd::prelude::*;

use crate::direction::Direction;
use crate::direction::InputState;
use crate::direction::resolve_direction;
use crate::direction::resolve_direction_spec;
use crate::geometry::Aabb;
use crate::geometry::SQUARE_SIZE;
use crate::geometry::Vec2i;
use crate::geometry::aabb_intersects;
use crate::geometry::boxes_overlap;
use crate::walls::WallLocation;
use crate::walls::wall_collision_box_spec;

verus! {

/// Full extent of the food box: three quarters of a tile.
pub const FOOD_SIZE: i32 = 30;

/// How far out a head coordinate may sit and still leave room for one more
/// tile of movement within `i32`: a machine limit, not a game rule.
pub const COORD_LIMIT: i32 = 2000000000;

/// The mathematical model of the whole game state: the segment chain
/// head-first, the heading, the head's current extent (zeroed when a wall
/// hit neutralizes it), the spot the tail vacated on the last movement step,
/// the live food (at most one by construction), and the two pending one-shot
/// signals.
#[verifier::ext_equal]
pub ghost struct StateModel {
    pub segments: Seq<Vec2i>,
    pub direction: Direction,
    pub head_size: Vec2i,
    pub last_tail: Vec2i,
    pub food: Option<Vec2i>,
    pub growth_pending: bool,
    pub game_over_pending: bool,
}

impl StateModel {
    /// Well-formedness: the chain always holds the head and at least one
    /// trailing segment.
    pub open spec fn wf(self) -> bool {
        self.segments.len() >= 2
    }
}

/// Horizontal displacement of one movement step along `d`.
pub open spec fn dx(d: Direction) -> int {
    match d {
        Direction::Left => -SQUARE_SIZE as int,
        Direction::Right => SQUARE_SIZE as int,
        Direction::Up => 0,
        Direction::Down => 0,
    }
}

/// Vertical displacement of one movement step along `d`.
pub open spec fn dy(d: Direction) -> int {
    match d {
        Direction::Left => 0,
        Direction::Right => 0,
        Direction::Up => SQUARE_SIZE as int,
        Direction::Down => -SQUARE_SIZE as int,
    }
}

/// Both head coordinates leave one tile of headroom within `i32`.
pub open spec fn head_in_range(m: StateModel) -> bool {
    &&& -COORD_LIMIT <= m.segments[0].x <= COORD_LIMIT
    &&& -COORD_LIMIT <= m.segments[0].y <= COORD_LIMIT
}

/// Where the head lands after one movement step: displaced exactly one tile
/// along the heading.
pub open spec fn moved_head(m: StateModel) -> Vec2i {
    Vec2i {
        x: (m.segments[0].x + dx(m.direction)) as i32,
        y: (m.segments[0].y + dy(m.direction)) as i32,
    }
}

/// Whether the head's next position lands on a trailing segment. Trailing
/// segments shift to the old positions of segments `0 .. len - 1`, so those
/// are the spots compared; the spot the tail vacates is free to enter.
pub open spec fn self_collision(m: StateModel) -> bool {
    exists|i: int| 0 <= i < m.segments.len() - 1 && m.segments[i] == moved_head(m)
}

/// The head's bounding box: centered on the first segment, with the head's
/// current extent.
pub open spec fn head_box(m: StateModel) -> Aabb {
    Aabb { center: m.segments[0], size: m.head_size }
}

/// The bounding box of segment `i`: the head carries its own extent, every
/// trailing segment is a full tile.
pub open spec fn seg_box(m: StateModel, i: int) -> Aabb {
    Aabb {
        center: m.segments[i],
        size: if i == 0 {
            m.head_size
        } else {
            Vec2i { x: SQUARE_SIZE, y: SQUARE_SIZE }
        },
    }
}

/// The food's bounding box at center `p`.
pub open spec fn food_box(p: Vec2i) -> Aabb {
    Aabb { center: p, size: Vec2i { x: FOOD_SIZE, y: FOOD_SIZE } }
}

/// Whether the head's box overlaps the live food's box.
pub open spec fn eats_food(m: StateModel) -> bool {
    m.food matches Some(f) && boxes_overlap(head_box(m), food_box(f))
}

/// Whether the head's box overlaps any wall's collision boundary.
pub open spec fn wall_hit(m: StateModel) -> bool {
    ||| boxes_overlap(head_box(m), wall_collision_box_spec(WallLocation::Left))
    ||| boxes_overlap(head_box(m), wall_collision_box_spec(WallLocation::Right))
    ||| boxes_overlap(head_box(m), wall_collision_box_spec(WallLocation::Top))
    ||| boxes_overlap(head_box(m), wall_collision_box_spec(WallLocation::Bottom))
}

/// The freshly spawned game: a two-segment snake heading right, head one
/// half-tile past the origin and the tail one tile behind it, no food, no
/// pending signals. The vacated-tail cache seeds at the tail's position.
pub open spec fn initial_model() -> StateModel {
    StateModel {
        segments: seq![Vec2i { x: 20, y: 20 }, Vec2i { x: -20i32, y: 20 }],
        direction: Direction::Right,
        head_size: Vec2i { x: SQUARE_SIZE, y: SQUARE_SIZE },
        last_tail: Vec2i { x: -20i32, y: 20 },
        food: None,
        growth_pending: false,
        game_over_pending: false,
    }
}

/// Input resolution: only the heading changes, to the resolved one.
pub open spec fn input_step(m: StateModel, input: InputState) -> StateModel {
    StateModel { direction: resolve_direction_spec(m.direction, input), ..m }
}

/// Movement: the head advances one tile along the heading, every trailing
/// segment takes the spot of the segment ahead of it, the vacated tail spot
/// is recorded, and landing on a trailing segment raises game over.
pub open spec fn movement_step(m: StateModel) -> StateModel {
    StateModel {
        segments: seq![moved_head(m)] + m.segments.drop_last(),
        last_tail: m.segments[m.segments.len() - 1],
        game_over_pending: m.game_over_pending || self_collision(m),
        ..m
    }
}

/// Game over: a pending signal tears the whole state down and respawns the
/// initial snake; otherwise nothing changes.
pub open spec fn game_over_step(m: StateModel) -> StateModel {
    if m.game_over_pending {
        initial_model()
    } else {
        m
    }
}

/// Collision resolution: the head eating the food removes it and raises
/// growth, and the head entering any wall's collision boundary raises game
/// over and neutralizes the head to zero extent. The food and all four
/// walls are tested against the head box as it stood on entry.
pub open spec fn collision_step(m: StateModel) -> StateModel {
    StateModel {
        food: if eats_food(m) {
            None
        } else {
            m.food
        },
        growth_pending: m.growth_pending || eats_food(m),
        game_over_pending: m.game_over_pending || wall_hit(m),
        head_size: if wall_hit(m) {
            Vec2i { x: 0, y: 0 }
        } else {
            m.head_size
        },
        ..m
    }
}

/// Growth: a pending signal appends exactly one segment at the spot the
/// tail vacated before the signal was raised, and is consumed.
pub open spec fn growth_step(m: StateModel) -> StateModel {
    if m.growth_pending {
        StateModel { segments: m.segments.push(m.last_tail), growth_pending: false, ..m }
    } else {
        m
    }
}

/// The live game state. Owned exclusively by whoever drives the tick; the
/// step methods are its only mutators.
#[derive(Debug)]
pub struct GameState {
    pub segments: Vec<Vec2i>,
    pub direction: Direction,
    pub head_size: Vec2i,
    pub last_tail: Vec2i,
    pub food: Option<Vec2i>,
    pub growth_pending: bool,
    pub game_over_pending: bool,
}

impl View for GameState {
    type V = StateModel;

    open spec fn view(&self) -> StateModel {
        StateModel {
            segments: self.segments@,
            direction: self.direction,
            head_size: self.head_size,
            last_tail: self.last_tail,
            food: self.food,
            growth_pending: self.growth_pending,
            game_over_pending: self.game_over_pending,
        }
    }
}

/// Spawns the fresh two-segment snake.
pub fn spawn_snake() -> (s: GameState)
    ensures
        s@ == initial_model(),
        s@.wf(),
{
    let mut segments: Vec<Vec2i> = Vec::new();
    segments.push(Vec2i { x: 20, y: 20 });
    segments.push(Vec2i { x: -20, y: 20 });
    let s = GameState {
        segments,
        direction: Direction::Right,
        head_size: Vec2i { x: SQUARE_SIZE, y: SQUARE_SIZE },
        last_tail: Vec2i { x: -20, y: 20 },
        food: None,
        growth_pending: false,
        game_over_pending: false,
    };
    proof {
        assert(s@.segments =~= initial_model().segments);
        assert(s@ =~= initial_model());
    }
    s
}

impl GameState {
    /// Resolves this tick's held keys into the heading for the coming
    /// movement step.
    pub fn step_input(&mut self, input: InputState)
        ensures
            final(self)@ == input_step(old(self)@, input),
    {
        let ghost m0 = self@;
        self.direction = resolve_direction(self.direction, input);
        proof {
            assert(self@ =~= input_step(m0, input));
        }
    }

    /// Advances the snake one tile: the head moves along the heading, each
    /// trailing segment follows the one ahead of it, the vacated tail spot
    /// is recorded for growth, and landing on a trailing segment raises
    /// game over.
    pub fn step_movement(&mut self)
        requires
            old(self)@.wf(),
            head_in_range(old(self)@),
        ensures
            final(self)@ == movement_step(old(self)@),
            final(self)@.wf(),
    {
        let ghost m0 = self@;
        let len = self.segments.len();
        let old_tail = self.segments[len - 1];
        let head = self.segments[0];
        let new_head = match self.direction {
            Direction::Left => Vec2i { x: head.x - SQUARE_SIZE, y: head.y },
            Direction::Right => Vec2i { x: head.x + SQUARE_SIZE, y: head.y },
            Direction::Up => Vec2i { x: head.x, y: head.y + SQUARE_SIZE },
            Direction::Down => Vec2i { x: head.x, y: head.y - SQUARE_SIZE },
        };
        proof {
            assert(new_head == moved_head(m0));
        }
        // The trailing segments will occupy the old spots of segments
        // 0 .. len - 1; test those spots against the head's next position.
        let mut hit = false;
        let mut k: usize = 0;
        while k < len - 1
            invariant
                self@ == m0,
                2 <= len == self.segments.len(),
                k <= len - 1,
                new_head == moved_head(m0),
                hit == exists|i: int| 0 <= i < k && m0.segments[i] == moved_head(m0),
            decreases len - 1 - k,
        {
            if self.segments[k].x == new_head.x && self.segments[k].y == new_head.y {
                hit = true;
            }
            k += 1;
        }
        // Shift from the tail forward so each segment takes the spot of the
        // one ahead of it.
        let mut i: usize = len - 1;
        while i >= 1
            invariant
                2 <= len == self.segments.len(),
                i <= len - 1,
                forall|j: int| i < j < len ==> self.segments@[j] == m0.segments[j - 1],
                forall|j: int| 0 <= j <= i ==> self.segments@[j] == m0.segments[j],
                self.direction == m0.direction,
                self.head_size == m0.head_size,
                self.last_tail == m0.last_tail,
                self.food == m0.food,
                self.growth_pending == m0.growth_pending,
                self.game_over_pending == m0.game_over_pending,
            decreases i,
        {
            let prev = self.segments[i - 1];
            self.segments[i] = prev;
            i -= 1;
        }
        self.segments[0] = new_head;
        self.last_tail = old_tail;
        if hit {
            self.game_over_pending = true;
        }
        proof {
            assert(self@.segments =~= movement_step(m0).segments);
            assert(self@ =~= movement_step(m0));
        }
    }

    /// Consumes a pending game-over signal: tears the snake and any food
    /// down and respawns the initial snake.
    pub fn step_game_over(&mut self)
        ensures
            final(self)@ == game_over_step(old(self)@),
    {
        if self.game_over_pending {
            *self = spawn_snake();
        }
    }

    /// Resolves this tick's collisions: the food first, then the four walls
    /// in a fixed order, all against the head box as it stood on entry.
    /// Eating removes the food and raises growth; a wall hit raises game
    /// over and shrinks the head to zero extent so nothing further registers
    /// before teardown.
    pub fn step_collisions(&mut self)
        requires
            old(self)@.wf(),
        ensures
            final(self)@ == collision_step(old(self)@),
    {
        let ghost m0 = self@;
        let hb = Aabb { center: self.segments[0], size: self.head_size };
        if let Some(f) = self.food {
            let fb = Aabb { center: f, size: Vec2i { x: FOOD_SIZE, y: FOOD_SIZE } };
            if aabb_intersects(&hb, &fb) {
                self.food = None;
                self.growth_pending = true;
            }
        }
        let hit_left = aabb_intersects(&hb, &WallLocation::Left.collision_box());
        let hit_right = aabb_intersects(&hb, &WallLocation::Right.collision_box());
        let hit_top = aabb_intersects(&hb, &WallLocation::Top.collision_box());
        let hit_bottom = aabb_intersects(&hb, &WallLocation::Bottom.collision_box());
        if hit_left || hit_right || hit_top || hit_bottom {
            self.game_over_pending = true;
            self.head_size = Vec2i { x: 0, y: 0 };
        }
        proof {
            assert(self@ =~= collision_step(m0));
        }
    }

    /// Consumes a pending growth signal: appends one segment at the spot
    /// the tail vacated on the last movement step, preserving head-first
    /// order.
    pub fn step_growth(&mut self)
        ensures
            final(self)@ == growth_step(old(self)@),
    {
        let ghost m0 = self@;
        if self.growth_pending {
            self.growth_pending = false;
            self.segments.push(self.last_tail);
        }
        proof {
            assert(self@ =~= growth_step(m0));
        }
    }
}

/// One movement step displaces the head exactly one tile along the heading
/// and hands every trailing segment the position the segment ahead of it
/// held before the step; the vacated tail spot is recorded.
pub proof fn lemma_movement_follow_the_leader(m: StateModel)
    requires
        m.wf(),
        head_in_range(m),
    ensures
        movement_step(m).segments.len() == m.segments.len(),
        movement_step(m).segments[0].x == m.segments[0].x + dx(m.direction),
        movement_step(m).segments[0].y == m.segments[0].y + dy(m.direction),
        forall|i: int|
            1 <= i < m.segments.len() ==> movement_step(m).segments[i] == m.segments[i - 1],
        movement_step(m).last_tail == m.segments[m.segments.len() - 1],
{
}

/// Processing one growth signal grows the chain by exactly one segment, and
/// the new segment sits at the recorded vacated-tail spot.
pub proof fn lemma_growth_appends_one(m: StateModel)
    requires
        m.growth_pending,
    ensures
        growth_step(m).segments.len() == m.segments.len() + 1,
        growth_step(m).segments.last() == m.last_tail,
        growth_step(m).segments.take(m.segments.len() as int) == m.segments,
        !growth_step(m).growth_pending,
{
    assert(growth_step(m).segments.take(m.segments.len() as int) =~= m.segments);
}

/// The head box overlapping the food box removes the food and raises growth
/// in the same tick; the head box overlapping any wall's collision boundary
/// raises game over and neutralizes the head to zero extent.
pub proof fn lemma_collision_outcomes(m: StateModel)
    ensures
        eats_food(m) ==> collision_step(m).food is None && collision_step(m).growth_pending,
        wall_hit(m) ==> collision_step(m).game_over_pending && collision_step(m).head_size
            == (Vec2i { x: 0, y: 0 }),
{
}

/// Game over is a full reset: from any state with the signal raised,
/// whatever the snake's length, the game-over step yields the initial
/// two-segment snake at the start position and heading, with no food.
pub proof fn lemma_reset_restores_initial(m: StateModel)
    requires
        m.game_over_pending,
    ensures
        game_over_step(m) == initial_model(),
        game_over_step(m).segments.len() == 2,
        game_over_step(m).food is None,
{
}

} // verus!
