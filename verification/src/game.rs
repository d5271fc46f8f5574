//! The tick orchestrator: one fixed-rate tick runs the update steps in
//! strict order — input resolution, movement, game-over reset, collision
//! resolution, growth, food spawn. The order carries the game's event
//! timing: a game-over raised by this tick's collision step waits for the
//! next tick's game-over step, while growth raised by this tick's collision
//! step is consumed by this tick's growth step.

use vstd::prelude::*;

use crate::board::Tile;
use crate::direction::InputState;
use crate::food::food_outcome;
use crate::state::GameState;
use crate::state::StateModel;
use crate::state::collision_step;
use crate::state::game_over_step;
use crate::state::growth_step;
use crate::state::head_in_range;
use crate::state::input_step;
use crate::state::movement_step;
use crate::state::self_collision;

verus! {

/// The state a tick reaches deterministically, just before the food spawn:
/// the first five steps composed in tick order.
pub open spec fn pre_food_model(m: StateModel, input: InputState) -> StateModel {
    growth_step(collision_step(game_over_step(movement_step(input_step(m, input)))))
}

impl GameState {
    /// Runs one full tick. Everything up to the food spawn is deterministic
    /// and lands exactly on [`pre_food_model`]; the food spawn then leaves
    /// that state untouched except for the food, within the outcomes
    /// [`food_outcome`] admits.
    pub fn tick(&mut self, input: InputState, tiles: &Vec<Tile>)
        requires
            old(self)@.wf(),
            head_in_range(old(self)@),
            tiles@.len() >= 1,
        ensures
            food_outcome(pre_food_model(old(self)@, input), final(self)@, tiles@),
            final(self)@.wf(),
    {
        let ghost m0 = self@;
        self.step_input(input);
        self.step_movement();
        self.step_game_over();
        self.step_collisions();
        self.step_growth();
        proof {
            assert(self@ == pre_food_model(m0, input));
        }
        self.step_food(tiles);
    }
}

/// While the game keeps running — no reset consumed this tick — the chain
/// never shrinks: a tick preserves the segment count or grows it by one.
pub proof fn lemma_length_never_shrinks_without_reset(m: StateModel, input: InputState)
    requires
        m.wf(),
        !m.game_over_pending,
        !self_collision(input_step(m, input)),
    ensures
        m.segments.len() <= pre_food_model(m, input).segments.len() <= m.segments.len() + 1,
{
}

} // verus!
