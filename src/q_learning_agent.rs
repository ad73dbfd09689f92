//! The tabular Q-learning agent: an epsilon-greedy policy over a table of
//! fixed-point quality values, trained by the temporal-difference rule.

use crate::game_definition::{Action, Game, MoveResult};
use crate::quality::{
    greedy_picks_right, lemma_td_update_between, row_best, row_max, td_target, td_update, td_update_value,
    QUALITY_ONE,
};
use rand::rngs::StdRng;
use rand::Rng;
use rand::SeedableRng;
use vstd::prelude::*;

verus! {

#[verifier::external_type_specification]
#[verifier::external_body]
pub struct ExStdRng(rand::rngs::StdRng);

/// Relies on rand's `SeedableRng::seed_from_u64` for `StdRng`: a generator
/// whose stream is fixed by the seed.
#[verifier::external_body]
fn seeded_rng(seed: u64) -> StdRng {
    StdRng::seed_from_u64(seed)
}

/// Relies on rand's `Rng::gen_range(low, high)`: a value in `[low, high)`; it
/// panics only when `low >= high`, which `requires` rules out.
#[verifier::external_body]
fn draw_below(rng: &mut StdRng, bound: u64) -> (r: u64)
    requires
        bound > 0,
    ensures
        r < bound,
{
    rng.gen_range(0, bound)
}

/// Where the probability of a random move comes from.
#[derive(Clone, Copy, Debug, PartialEq, Eq, Structural)]
pub enum ExplorationPolicy {
    /// `1 / runs` after `runs` completed episodes, and 1 before the first.
    Derived,
    /// A fixed probability, in millionths.
    Fixed(u64),
}

/// Whether a roll in `[0, QUALITY_ONE)` asks for a random move: the roll,
/// read as a fraction of 1, is below the exploration probability.
pub open spec fn explores_spec(policy: ExplorationPolicy, runs: int, roll: int) -> bool {
    match policy {
        ExplorationPolicy::Derived => runs == 0 || roll * runs < QUALITY_ONE,
        ExplorationPolicy::Fixed(p) => roll < p,
    }
}

/// The action with the given index in the list of moves `[Left, Right]`.
pub open spec fn action_of_id(id: int) -> Action {
    if id == 0 {
        Action::Left
    } else {
        Action::Right
    }
}

/// The index of a move in the list `[Left, Right]`.
pub open spec fn id_of_action(action: Action) -> int {
    if action == Action::Right {
        1
    } else {
        0
    }
}

/// One of the two moves that the agent ever makes.
pub open spec fn is_move(action: Action) -> bool {
    action == Action::Left || action == Action::Right
}

/// The entry of a row that belongs to `action`.
pub open spec fn row_entry(row: (i64, i64), action: Action) -> int {
    if action == Action::Right {
        row.1 as int
    } else {
        row.0 as int
    }
}

/// The row with the entry of `action` replaced by `v`.
pub open spec fn row_with(row: (i64, i64), action: Action, v: i64) -> (i64, i64) {
    if action == Action::Right {
        (row.0, v)
    } else {
        (v, row.1)
    }
}

/// The action a greedy search over `row` returns.
pub open spec fn greedy_action(row: (i64, i64)) -> Action {
    if greedy_picks_right(row.0 as int, row.1 as int) {
        Action::Right
    } else {
        Action::Left
    }
}

/// An agent that learns one quality value per position and move.
pub struct QLearningBot {
    /// One row per board position: the quality of moving left, then right.
    q_table: Vec<(i64, i64)>,
    /// The discount factor, in millionths.
    discount_factor: u32,
    /// The learning rate, in millionths.
    learning_rate: u32,
    exploration: ExplorationPolicy,
    rng: StdRng,
}

impl QLearningBot {
    /// The table's rows, as a sequence.
    pub closed spec fn table(&self) -> Seq<(i64, i64)> {
        self.q_table@
    }

    /// The learning rate, in millionths.
    pub closed spec fn alpha(&self) -> int {
        self.learning_rate as int
    }

    /// The discount factor, in millionths.
    pub closed spec fn gamma(&self) -> int {
        self.discount_factor as int
    }

    /// The rule that sets the probability of a random move.
    pub closed spec fn exploration_policy(&self) -> ExplorationPolicy {
        self.exploration
    }

    /// The rates lie in [0, 1] and the table has one row per cell of `game`'s board.
    pub open spec fn fits(&self, game: &Game) -> bool {
        &&& self.alpha() <= QUALITY_ONE
        &&& self.gamma() <= QUALITY_ONE
        &&& self.table().len() == game.world().len()
    }

    /// The table after learning from `action`, taken in `pre` and leading to `post`.
    pub open spec fn learned(&self, pre: &Game, post: &Game, action: Action) -> Seq<(i64, i64)> {
        let row = self.table()[pre.player_pos as int];
        let next = self.table()[post.player_pos as int];
        let v = td_update(
            row_entry(row, action),
            self.alpha(),
            self.gamma(),
            post.score - pre.score,
            row_max(next.0 as int, next.1 as int),
        );
        self.table().update(pre.player_pos as int, row_with(row, action, v as i64))
    }

    /// An agent for `game` with the given rates (in millionths), the derived
    /// exploration rule, a table of zeros, and a generator seeded with `seed`.
    pub fn new(learning_rate: u32, discount_factor: u32, game: &Game, seed: u64) -> (bot: Self)
        requires
            0 < learning_rate <= QUALITY_ONE,
            discount_factor <= QUALITY_ONE,
        ensures
            bot.fits(game),
            bot.alpha() == learning_rate,
            bot.gamma() == discount_factor,
            bot.exploration_policy() == ExplorationPolicy::Derived,
            forall|i: int| 0 <= i < bot.table().len() ==> #[trigger] bot.table()[i] == (0i64, 0i64),
    {
        let n = game.state.world.len();
        let mut q_table: Vec<(i64, i64)> = Vec::new();
        let mut i: usize = 0;
        while i < n
            invariant
                n == game.world().len(),
                i <= n,
                q_table@.len() == i,
                forall|j: int| 0 <= j < i ==> #[trigger] q_table@[j] == (0i64, 0i64),
            decreases n - i,
        {
            q_table.push((0, 0));
            i = i + 1;
        }
        QLearningBot {
            q_table,
            discount_factor,
            learning_rate,
            exploration: ExplorationPolicy::Derived,
            rng: seeded_rng(seed),
        }
    }

    /// The number of rows of the table, one per board position.
    pub fn table_len(&self) -> (r: usize)
        ensures
            r == self.table().len(),
    {
        self.q_table.len()
    }

    /// The quality the table holds for `action` at `pos`.
    pub fn quality(&self, pos: usize, action: Action) -> (r: i64)
        requires
            pos < self.table().len(),
        ensures
            r == row_entry(self.table()[pos as int], action),
    {
        let row = self.q_table[pos];
        match action {
            Action::Right => row.1,
            _ => row.0,
        }
    }

    /// The same agent with another exploration rule.
    pub fn with_exploration(self, exploration: ExplorationPolicy) -> (bot: Self)
        ensures
            bot.table() == self.table(),
            bot.alpha() == self.alpha(),
            bot.gamma() == self.gamma(),
            bot.exploration_policy() == exploration,
    {
        QLearningBot { exploration, ..self }
    }

    /// Fills the table from `draws`, row by row, the left-hand entry first:
    /// row `i` becomes `(draws[2 * i], draws[2 * i + 1])`.
    pub fn fill_q_table(&mut self, draws: &Vec<u64>)
        requires
            draws@.len() == 2 * old(self).table().len(),
            forall|k: int| 0 <= k < draws@.len() ==> #[trigger] draws@[k] < QUALITY_ONE,
        ensures
            final(self).table().len() == old(self).table().len(),
            final(self).alpha() == old(self).alpha(),
            final(self).gamma() == old(self).gamma(),
            final(self).exploration_policy() == old(self).exploration_policy(),
            forall|i: int|
                0 <= i < final(self).table().len() ==> #[trigger] final(self).table()[i] == (
                draws@[2 * i] as i64,
                draws@[2 * i + 1] as i64,
            ),
    {
        let n = self.q_table.len();
        let total = draws.len();
        let mut i: usize = 0;
        while i < n
            invariant
                n == self.table().len(),
                n == old(self).table().len(),
                total == draws@.len(),
                draws@.len() == 2 * n,
                forall|k: int| 0 <= k < draws@.len() ==> #[trigger] draws@[k] < QUALITY_ONE,
                i <= n,
                self.alpha() == old(self).alpha(),
                self.gamma() == old(self).gamma(),
                self.exploration_policy() == old(self).exploration_policy(),
                forall|j: int|
                    0 <= j < i ==> #[trigger] self.table()[j] == (
                    draws@[2 * j] as i64,
                    draws@[2 * j + 1] as i64,
                ),
            decreases n - i,
        {
            assert(2 * i + 1 < total);
            let left = draws[2 * i];
            let right = draws[2 * i + 1];
            self.q_table[i] = (left as i64, right as i64);
            i = i + 1;
        }
    }

    /// Fills every entry of the table with an independent draw from `[0, 1)`,
    /// row by row, the left-hand entry first.
    pub fn initialize_q_table(&mut self)
        ensures
            final(self).table().len() == old(self).table().len(),
            final(self).alpha() == old(self).alpha(),
            final(self).gamma() == old(self).gamma(),
            final(self).exploration_policy() == old(self).exploration_policy(),
            forall|i: int|
                0 <= i < final(self).table().len() ==> {
                    let row = #[trigger] final(self).table()[i];
                    &&& 0 <= row.0 < QUALITY_ONE
                    &&& 0 <= row.1 < QUALITY_ONE
                },
    {
        let n = self.q_table.len();
        let mut draws: Vec<u64> = Vec::new();
        let mut k: usize = 0;
        while k < n
            invariant
                n == self.table().len(),
                n == old(self).table().len(),
                self.alpha() == old(self).alpha(),
                self.gamma() == old(self).gamma(),
                self.exploration_policy() == old(self).exploration_policy(),
                k <= n,
                draws@.len() == 2 * k,
                forall|m: int| 0 <= m < draws@.len() ==> #[trigger] draws@[m] < QUALITY_ONE,
            decreases n - k,
        {
            draws.push(draw_below(&mut self.rng, QUALITY_ONE as u64));
            draws.push(draw_below(&mut self.rng, QUALITY_ONE as u64));
            k = k + 1;
        }
        self.fill_q_table(&draws);
        assert forall|i: int| 0 <= i < self.table().len() implies {
            let row = #[trigger] self.table()[i];
            &&& 0 <= row.0 < QUALITY_ONE
            &&& 0 <= row.1 < QUALITY_ONE
        } by {
            assert(draws@[2 * i] < QUALITY_ONE);
            assert(draws@[2 * i + 1] < QUALITY_ONE);
        }
    }

    /// The move the table rates highest at `player_pos`, with its value. The
    /// search starts from Left with a baseline of 0 and moves on only to a
    /// strictly greater entry.
    pub fn get_max_q_table_action(&self, player_pos: usize) -> (r: (Action, i64))
        requires
            player_pos < self.table().len(),
        ensures
            r.0 == greedy_action(self.table()[player_pos as int]),
            r.1 == row_best(
                self.table()[player_pos as int].0 as int,
                self.table()[player_pos as int].1 as int,
            ),
    {
        let row = self.q_table[player_pos];
        let mut max_action_id: usize = 0;
        let mut max_action_val: i64 = 0;
        if row.0 > max_action_val {
            max_action_id = 0;
            max_action_val = row.0;
        }
        if row.1 > max_action_val {
            max_action_id = 1;
            max_action_val = row.1;
        }
        (Self::action_from_id(max_action_id), max_action_val)
    }

    /// Blends the quality of `action` at `old_player_pos` toward the reward plus
    /// the discounted best value at `new_player_pos`.
    pub fn update_q_table(
        &mut self,
        old_player_pos: usize,
        new_player_pos: usize,
        action: Action,
        score_delta: i64,
    )
        requires
            old(self).alpha() <= QUALITY_ONE,
            old(self).gamma() <= QUALITY_ONE,
            old_player_pos < old(self).table().len(),
            new_player_pos < old(self).table().len(),
            is_move(action),
        ensures
            final(self).alpha() == old(self).alpha(),
            final(self).gamma() == old(self).gamma(),
            final(self).exploration_policy() == old(self).exploration_policy(),
            ({
                let row = old(self).table()[old_player_pos as int];
                let next = old(self).table()[new_player_pos as int];
                let v = td_update(
                    row_entry(row, action),
                    old(self).alpha(),
                    old(self).gamma(),
                    score_delta as int,
                    row_max(next.0 as int, next.1 as int),
                );
                final(self).table() == old(self).table().update(
                    old_player_pos as int,
                    row_with(row, action, v as i64),
                )
            }),
    {
        let action_id = Self::get_action_id(action);
        let row = self.q_table[old_player_pos];
        let old_state_quality = if action_id == 0 {
            row.0
        } else {
            row.1
        };
        let next = self.q_table[new_player_pos];
        let best_quality_in_future = if next.1 > next.0 {
            next.1
        } else {
            next.0
        };
        let new_state_quality = td_update_value(
            old_state_quality,
            self.learning_rate,
            self.discount_factor,
            score_delta,
            best_quality_in_future,
        );
        self.q_table[old_player_pos] = if action_id == 0 {
            (new_state_quality, row.1)
        } else {
            (row.0, new_state_quality)
        };
    }

    /// The index of a move in the list `[Left, Right]`.
    pub fn get_action_id(action: Action) -> (r: usize)
        requires
            is_move(action),
        ensures
            r == id_of_action(action),
            r < 2,
    {
        match action {
            Action::Right => 1,
            _ => 0,
        }
    }

    /// The move with index `id` in the list `[Left, Right]`.
    pub fn action_from_id(id: usize) -> (r: Action)
        requires
            id < 2,
        ensures
            r == action_of_id(id as int),
            is_move(r),
    {
        if id == 0 {
            Action::Left
        } else {
            Action::Right
        }
    }

    /// Whether `roll`, a draw from `[0, QUALITY_ONE)`, asks for a random move
    /// after `runs` completed episodes.
    pub fn explores(&self, runs: u32, roll: u64) -> (r: bool)
        requires
            roll < QUALITY_ONE,
        ensures
            r == explores_spec(self.exploration_policy(), runs as int, roll as int),
    {
        proof {
            assert((roll as int) * (runs as int) < 0x1_0000_0000_0000_0000_0000) by (nonlinear_arith)
                requires
                    roll < 1_000_000,
                    runs < 0x1_0000_0000,
            ;
        }
        match self.exploration {
            ExplorationPolicy::Derived => runs == 0 || (roll as u128) * (runs as u128) < QUALITY_ONE
                as u128,
            ExplorationPolicy::Fixed(p) => roll < p,
        }
    }

    /// Applies `action` to `game` and learns from the change of score and position.
    pub fn learn_from_move(&mut self, game: &mut Game, action: Action) -> (r: MoveResult)
        requires
            old(self).fits(old(game)),
            old(game).wf(),
            old(game).ends_episode(action) ==> old(game).counters_in_range(),
            is_move(action),
        ensures
            final(self).fits(final(game)),
            final(game).wf(),
            Game::update_spec(old(game), final(game), action, r),
            final(self).table() == old(self).learned(old(game), final(game), action),
            final(self).alpha() == old(self).alpha(),
            final(self).gamma() == old(self).gamma(),
            final(self).exploration_policy() == old(self).exploration_policy(),
    {
        let old_score = game.score;
        let old_position = game.player_pos;
        let move_result = game.update(action);
        let score_delta = game.score as i64 - old_score as i64;
        self.update_q_table(old_position, game.player_pos, action, score_delta);
        move_result
    }

    /// The move for a step after `runs` completed episodes at `pos`, given the
    /// exploration roll `roll` and the random pick `pick`: the pick when the
    /// roll asks for a random move, else the greedy move of the position's row.
    pub open spec fn chosen(&self, runs: int, pos: int, roll: int, pick: int) -> Action {
        if explores_spec(self.exploration_policy(), runs, roll) {
            action_of_id(pick)
        } else {
            greedy_action(self.table()[pos])
        }
    }

    /// Chooses a move from the two random draws of a step; `pick` counts only
    /// when `roll` asks for a random move.
    pub fn choose_action(&self, runs: u32, pos: usize, roll: u64, pick: u64) -> (a: Action)
        requires
            pos < self.table().len(),
            roll < QUALITY_ONE,
            pick < 2,
        ensures
            a == self.chosen(runs as int, pos as int, roll as int, pick as int),
            is_move(a),
    {
        if self.explores(runs, roll) {
            Self::action_from_id(pick as usize)
        } else {
            let (best_action, _) = self.get_max_q_table_action(pos);
            best_action
        }
    }

    /// One step of play: rolls for exploration, draws a random move only when
    /// the roll asks for one, otherwise takes the greedy move, applies the move
    /// to `game` and learns from it.
    pub fn act(&mut self, game: &mut Game) -> (r: MoveResult)
        requires
            old(self).fits(old(game)),
            old(game).wf(),
            old(game).counters_in_range(),
        ensures
            final(self).fits(final(game)),
            final(game).wf(),
            final(self).alpha() == old(self).alpha(),
            final(self).gamma() == old(self).gamma(),
            final(self).exploration_policy() == old(self).exploration_policy(),
            exists|roll: u64, pick: u64|
                {
                    let action = #[trigger] old(self).chosen(
                        old(game).runs as int,
                        old(game).player_pos as int,
                        roll as int,
                        pick as int,
                    );
                    &&& roll < QUALITY_ONE
                    &&& pick < 2
                    &&& Game::update_spec(old(game), final(game), action, r)
                    &&& final(self).table() == old(self).learned(old(game), final(game), action)
                },
    {
        let ghost start = *self;
        let roll = draw_below(&mut self.rng, QUALITY_ONE as u64);
        let pick = if self.explores(game.runs, roll) {
            draw_below(&mut self.rng, 2)
        } else {
            0
        };
        let action = self.choose_action(game.runs, game.player_pos, roll, pick);
        let ghost pre_self = *self;
        let ghost pre_game = *game;
        assert(action == start.chosen(
            pre_game.runs as int,
            pre_game.player_pos as int,
            roll as int,
            pick as int,
        ));
        let r = self.learn_from_move(game, action);
        assert(Game::update_spec(&pre_game, game, action, r) && self.table() == start.learned(
            &pre_game,
            game,
            action,
        ));
        r
    }
}

/// A greedy search picks Left when Left's value is strictly higher, Right when
/// Right's value is strictly higher and above the baseline 0, and Left on a
/// tie or when neither value is above 0.
pub proof fn lemma_greedy_choice(row: (i64, i64))
    ensures
        row.0 > row.1 ==> greedy_action(row) == Action::Left,
        row.1 > row.0 && row.1 > 0 ==> greedy_action(row) == Action::Right,
        row.0 == row.1 || (row.0 <= 0 && row.1 <= 0) ==> greedy_action(row) == Action::Left,
{
}

/// The entry that one step of learning rewrites ends between its old value
/// and the step's target, `reward + gamma * best` rounded down, both included.
pub proof fn lemma_learning_step_is_convex(
    bot: &QLearningBot,
    pre: &Game,
    post: &Game,
    action: Action,
)
    requires
        bot.fits(pre),
        pre.wf(),
        post.player_pos < bot.table().len(),
    ensures
        ({
            let row = bot.table()[pre.player_pos as int];
            let next = bot.table()[post.player_pos as int];
            let q = row_entry(row, action);
            let v = row_entry(bot.learned(pre, post, action)[pre.player_pos as int], action);
            let t = td_target(bot.gamma(), post.score - pre.score, row_max(next.0 as int, next.1 as int));
            (q <= v <= t) || (t <= v <= q)
        }),
{
    let row = bot.table()[pre.player_pos as int];
    let next = bot.table()[post.player_pos as int];
    lemma_td_update_between(
        row_entry(row, action),
        bot.alpha(),
        bot.gamma(),
        post.score - pre.score,
        row_max(next.0 as int, next.1 as int),
    );
}

} // verus!
