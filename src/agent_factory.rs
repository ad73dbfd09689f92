//! Ready-made agents.

use crate::game_definition::Game;
use crate::human_agent::Human;
use crate::q_learning_agent::{ExplorationPolicy, QLearningBot};
use crate::quality::QUALITY_ONE;
use vstd::prelude::*;

verus! {

/// A person at the keyboard.
pub fn human() -> Human {
    Human {}
}

/// A learning agent for `game` with the given rates (in millionths), the
/// derived exploration rule, and a table of independent draws from `[0, 1)`.
pub fn bot(learning_rate: u32, discount_factor: u32, game: &Game, seed: u64) -> (b: QLearningBot)
    requires
        0 < learning_rate <= QUALITY_ONE,
        discount_factor <= QUALITY_ONE,
    ensures
        b.fits(game),
        b.alpha() == learning_rate,
        b.gamma() == discount_factor,
        b.exploration_policy() == ExplorationPolicy::Derived,
        forall|i: int|
            0 <= i < b.table().len() ==> {
                let row = #[trigger] b.table()[i];
                &&& 0 <= row.0 < QUALITY_ONE
                &&& 0 <= row.1 < QUALITY_ONE
            },
{
    let mut b = QLearningBot::new(learning_rate, discount_factor, game, seed);
    b.initialize_q_table();
    b
}

} // verus!
