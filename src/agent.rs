//! The capability shared by every kind of player.

use crate::game_definition::{Action, Game, MoveResult};
use crate::q_learning_agent::QLearningBot;
use vstd::prelude::*;

verus! {

/// Something that chooses one action per call and applies it to a game.
pub trait Agent {
    /// The agent can play on `game`.
    spec fn ready_for(&self, game: &Game) -> bool;

    /// Chooses one move, Left or Right, and applies it through `Game::update`,
    /// learning from the outcome where the agent learns: the new game is the
    /// old one after exactly that move.
    fn act(&mut self, game: &mut Game)
        requires
            old(self).ready_for(old(game)),
            old(game).wf(),
            old(game).counters_in_range(),
        ensures
            final(self).ready_for(final(game)),
            final(game).wf(),
            exists|a: Action, r: MoveResult|
                (a == Action::Left || a == Action::Right) && #[trigger] Game::update_spec(
                    old(game),
                    final(game),
                    a,
                    r,
                ),
    ;
}

impl Agent for QLearningBot {
    open spec fn ready_for(&self, game: &Game) -> bool {
        self.fits(game)
    }

    fn act(&mut self, game: &mut Game) {
        QLearningBot::act(self, game);
    }
}

} // verus!
