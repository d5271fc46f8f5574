//! The food spawner: at most one food item lives at a time, placed on a
//! uniformly chosen board tile and only where its box stays clear of every
//! snake segment. The random choice comes from an outside generator, so the
//! spawn step's contract states what holds of every possible outcome, and
//! the placement check itself is a verified function of the candidate.

use vstd::prelude::*;

use rand::seq::IteratorRandom;

use crate::board::Tile;
use crate::geometry::Aabb;
use crate::geometry::SQUARE_SIZE;
use crate::geometry::Vec2i;
use crate::geometry::aabb_intersects;
use crate::geometry::boxes_overlap;
use crate::state::FOOD_SIZE;
use crate::state::GameState;
use crate::state::StateModel;
use crate::state::food_box;
use crate::state::seg_box;

verus! {

/// Relies on `rand::seq::IteratorRandom::choose` over the range `0..n` with
/// `rand::thread_rng()`: it returns `Some` of one of the iterated values
/// whenever the iterator is non-empty, so the choice is a valid index below
/// `n`. Nothing more is assumed of which index comes back.
#[verifier::external_body]
fn choose_random_index(n: usize) -> (r: usize)
    requires
        1 <= n,
    ensures
        r < n,
{
    let mut rng = rand::thread_rng();
    (0..n).choose(&mut rng).unwrap()
}

/// Whether a food box centered on `candidate` stays clear of every segment
/// of the snake in `m`.
pub open spec fn placement_clear(m: StateModel, candidate: Vec2i) -> bool {
    forall|j: int| 0 <= j < m.segments.len() ==> !boxes_overlap(seg_box(m, j), food_box(candidate))
}

/// How many food items `m` holds.
pub open spec fn food_count(m: StateModel) -> nat {
    if m.food is Some {
        1
    } else {
        0
    }
}

/// The admissible results of one food-spawn step from `pre` over the board
/// `tiles`: everything but the food is untouched; live food stays put; with
/// none live, either a food appears on some tile whose box is clear of every
/// segment, or nothing appears, which can only happen when some tile's box
/// does overlap a segment.
pub open spec fn food_outcome(pre: StateModel, post: StateModel, tiles: Seq<Tile>) -> bool {
    &&& post.segments == pre.segments
    &&& post.direction == pre.direction
    &&& post.head_size == pre.head_size
    &&& post.last_tail == pre.last_tail
    &&& post.growth_pending == pre.growth_pending
    &&& post.game_over_pending == pre.game_over_pending
    &&& (pre.food is Some ==> post.food == pre.food)
    &&& (pre.food is None ==> match post.food {
        Some(f) => (exists|i: int| 0 <= i < tiles.len() && tiles[i].position == f)
            && placement_clear(pre, f),
        None => exists|i: int| 0 <= i < tiles.len() && !placement_clear(pre, tiles[i].position),
    })
}

impl GameState {
    /// Tests one candidate center against every segment's box and places the
    /// food there exactly when all of them stay clear.
    pub fn try_place_food(&mut self, candidate: Vec2i) -> (placed: bool)
        requires
            old(self)@.food is None,
        ensures
            placed == placement_clear(old(self)@, candidate),
            placed ==> final(self)@ == (StateModel { food: Some(candidate), ..old(self)@ }),
            !placed ==> final(self)@ == old(self)@,
    {
        let ghost m0 = self@;
        let fb = Aabb { center: candidate, size: Vec2i { x: FOOD_SIZE, y: FOOD_SIZE } };
        let len = self.segments.len();
        let mut j: usize = 0;
        while j < len
            invariant
                self@ == m0,
                j <= len == self.segments.len(),
                fb == food_box(candidate),
                forall|t: int| 0 <= t < j ==> !boxes_overlap(seg_box(m0, t), food_box(candidate)),
            decreases len - j,
        {
            let sb = if j == 0 {
                Aabb { center: self.segments[0], size: self.head_size }
            } else {
                Aabb {
                    center: self.segments[j],
                    size: Vec2i { x: SQUARE_SIZE, y: SQUARE_SIZE },
                }
            };
            proof {
                assert(sb == seg_box(m0, j as int));
            }
            if aabb_intersects(&sb, &fb) {
                proof {
                    assert(!placement_clear(m0, candidate));
                }
                return false;
            }
            j += 1;
        }
        self.food = Some(candidate);
        proof {
            assert(self@ =~= (StateModel { food: Some(candidate), ..m0 }));
        }
        true
    }

    /// One food-spawn step: with food already live it does nothing, else it
    /// draws a uniformly random board tile and places the food there unless
    /// the food box would overlap a snake segment, in which case this tick
    /// spawns nothing and the next tick retries.
    pub fn step_food(&mut self, tiles: &Vec<Tile>)
        requires
            tiles@.len() >= 1,
        ensures
            food_outcome(old(self)@, final(self)@, tiles@),
    {
        let ghost m0 = self@;
        if self.food.is_some() {
            return;
        }
        let idx = choose_random_index(tiles.len());
        let candidate = tiles[idx].position;
        let placed = self.try_place_food(candidate);
        proof {
            if placed {
                assert(exists|i: int|
                    0 <= i < tiles@.len() && tiles@[i].position == candidate) by {
                    assert(tiles@[idx as int].position == candidate);
                }
            } else {
                assert(exists|i: int|
                    0 <= i < tiles@.len() && !placement_clear(m0, tiles@[i].position)) by {
                    assert(!placement_clear(m0, tiles@[idx as int].position));
                }
            }
        }
    }
}

/// Food is a singleton: no state holds more than one.
pub proof fn lemma_food_at_most_one(m: StateModel)
    ensures
        food_count(m) <= 1,
{
}

/// A food-spawn outcome never places food overlapping the snake: whenever a
/// spawn step turns no food into some food at `f`, the food box at `f` is
/// clear of every segment the snake had.
pub proof fn lemma_spawned_food_clear(pre: StateModel, post: StateModel, tiles: Seq<Tile>, f: Vec2i)
    requires
        food_outcome(pre, post, tiles),
        pre.food is None,
        post.food == Some(f),
    ensures
        forall|j: int| 0 <= j < pre.segments.len() ==> !boxes_overlap(seg_box(pre, j), food_box(f)),
{
}

} // verus!
