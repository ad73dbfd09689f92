//! The board, the episode bookkeeping, and the only mutator of a game.

use vstd::prelude::*;

verus! {

/// What one cell of the board holds.
#[derive(Clone, Copy, Debug, PartialEq, Eq, Structural)]
pub enum TileType {
    Empty,
    Player,
    Pit,
    Cheese,
}

impl TileType {
    /// The character that shows this tile on a one-line picture of the board.
    pub fn symbol(&self) -> (c: char)
        ensures
            c == match *self {
                TileType::Empty => '=',
                TileType::Player => 'P',
                TileType::Cheese => 'C',
                TileType::Pit => 'O',
            },
    {
        match *self {
            TileType::Empty => '=',
            TileType::Player => 'P',
            TileType::Cheese => 'C',
            TileType::Pit => 'O',
        }
    }
}

/// The effect of one call of [`Game::update`].
#[derive(Clone, Copy, Debug, PartialEq, Eq, Structural)]
pub enum MoveResult {
    NextRound,
    Win,
    Loss,
    Quit,
}

/// The board: a fixed-length row of tiles.
#[derive(Debug)]
pub struct State {
    pub world: Vec<TileType>,
}

/// A move request. `Invalid` stands for input that could not be read as a move.
#[derive(Clone, Copy, Debug, PartialEq, Eq, Structural)]
pub enum Action {
    Left,
    Right,
    Quit,
    Invalid,
}

/// When a game counts as over, besides an explicit quit.
#[derive(Clone, Copy, Debug, PartialEq, Eq, Structural)]
pub enum TerminationPolicy {
    /// Over once more than this many episodes have been completed.
    RunLimit(u32),
    /// Over once the score is at or below the first bound, or at or above the second.
    ScoreBound(i32, i32),
}

/// The index at which the player starts on a board built by [`Game::new`].
pub const DEFAULT_STARTING_POS: usize = 5;

/// The number of completed episodes after which a game built by [`Game::new`] is over.
pub const DEFAULT_RUN_LIMIT: u32 = 20;

/// A board together with the bookkeeping of the episodes played on it.
#[derive(Debug)]
pub struct Game {
    pub score: i32,
    pub runs: u32,
    pub state: State,
    pub player_pos: usize,
    pub player_starting_pos: usize,
    pub quit: bool,
    pub termination: TerminationPolicy,
}

/// The board with the player's old cell cleared.
pub open spec fn vacated(world: Seq<TileType>, pos: int) -> Seq<TileType> {
    world.update(pos, TileType::Empty)
}

/// Whether `policy` declares a game with this quit flag, score and run count over.
pub open spec fn over_spec(policy: TerminationPolicy, quit: bool, score: int, runs: int) -> bool {
    quit || match policy {
        TerminationPolicy::RunLimit(limit) => runs > limit,
        TerminationPolicy::ScoreBound(low, high) => score <= low || score >= high,
    }
}

impl Game {
    /// The board, as a sequence of tiles.
    pub open spec fn world(&self) -> Seq<TileType> {
        self.state.world@
    }

    /// The player stands on the board, exactly one cell holds the player,
    /// and the starting position is on the board.
    pub open spec fn wf(&self) -> bool {
        &&& self.player_pos < self.world().len()
        &&& self.player_starting_pos < self.world().len()
        &&& self.world()[self.player_pos as int] == TileType::Player
        &&& forall|i: int|
            0 <= i < self.world().len() && i != self.player_pos ==> #[trigger] self.world()[i]
                != TileType::Player
    }

    /// No counter can overflow in one call of `update`.
    pub open spec fn counters_in_range(&self) -> bool {
        &&& i32::MIN < self.score < i32::MAX
        &&& self.runs < u32::MAX
    }

    /// The move lands on the reward or the hazard tile and so ends an episode,
    /// which is the only step that adds to the score or the run counter.
    pub open spec fn ends_episode(&self, action: Action) -> bool {
        &&& (action == Action::Left || action == Action::Right)
        &&& !self.leaves_board(action)
        &&& (self.world()[self.destination(action)] == TileType::Cheese
            || self.world()[self.destination(action)] == TileType::Pit)
    }

    /// The move would take the player off the board.
    pub open spec fn leaves_board(&self, action: Action) -> bool {
        ||| action == Action::Left && self.player_pos == 0
        ||| action == Action::Right && self.player_pos + 1 == self.world().len()
    }

    /// The cell that a move onto the board lands on.
    pub open spec fn destination(&self, action: Action) -> int {
        if action == Action::Left {
            self.player_pos - 1
        } else {
            self.player_pos + 1
        }
    }

    /// The configuration, which no move changes.
    pub open spec fn same_setup(&self, other: &Game) -> bool {
        &&& self.player_starting_pos == other.player_starting_pos
        &&& self.termination == other.termination
        &&& self.world().len() == other.world().len()
    }

    /// What one call of `update` with `action` does to `pre`, ending in `post`
    /// and returning `r`.
    pub open spec fn update_spec(pre: &Game, post: &Game, action: Action, r: MoveResult) -> bool {
        &&& post.same_setup(pre)
        &&& match action {
            Action::Quit => {
                &&& post.quit
                &&& post.world() == pre.world()
                &&& post.score == pre.score
                &&& post.runs == pre.runs
                &&& post.player_pos == pre.player_pos
                &&& r == MoveResult::Quit
            },
            Action::Invalid => {
                &&& post.quit == pre.quit
                &&& post.world() == pre.world()
                &&& post.score == pre.score
                &&& post.runs == pre.runs
                &&& post.player_pos == pre.player_pos
                &&& r == MoveResult::Loss
            },
            _ => if pre.leaves_board(action) {
                &&& post.quit == pre.quit
                &&& post.world() == pre.world()
                &&& post.score == -1
                &&& post.runs == pre.runs
                &&& post.player_pos == pre.player_pos
                &&& r == MoveResult::Loss
            } else {
                let dest = pre.destination(action);
                let cleared = vacated(pre.world(), pre.player_pos as int);
                let start = pre.player_starting_pos;
                &&& post.quit == pre.quit
                &&& match pre.world()[dest] {
                    TileType::Cheese => {
                        &&& post.world() == cleared.update(start as int, TileType::Player)
                        &&& post.score == pre.score + 1
                        &&& post.runs == pre.runs + 1
                        &&& post.player_pos == start
                        &&& r == MoveResult::Win
                    },
                    TileType::Pit => {
                        &&& post.world() == cleared.update(start as int, TileType::Player)
                        &&& post.score == pre.score - 1
                        &&& post.runs == pre.runs + 1
                        &&& post.player_pos == start
                        &&& r == MoveResult::Loss
                    },
                    _ => {
                        &&& post.world() == cleared.update(dest, TileType::Player)
                        &&& post.score == pre.score
                        &&& post.runs == pre.runs
                        &&& post.player_pos == dest
                        &&& r == MoveResult::NextRound
                    },
                }
            },
        }
    }

    /// Places the player at index 5 of `state`, with a limit of 20 completed episodes.
    pub fn new(state: State) -> (g: Game)
        requires
            state.world@.len() > DEFAULT_STARTING_POS,
            forall|i: int|
                0 <= i < state.world@.len() && i != DEFAULT_STARTING_POS ==> #[trigger] state.world@[i]
                    != TileType::Player,
        ensures
            g.wf(),
            g.world() == state.world@.update(DEFAULT_STARTING_POS as int, TileType::Player),
            g.player_pos == DEFAULT_STARTING_POS,
            g.player_starting_pos == DEFAULT_STARTING_POS,
            g.score == 0,
            g.runs == 0,
            !g.quit,
            g.termination == TerminationPolicy::RunLimit(DEFAULT_RUN_LIMIT),
    {
        Game::with_setup(state, DEFAULT_STARTING_POS, TerminationPolicy::RunLimit(DEFAULT_RUN_LIMIT))
    }

    /// Places the player at `starting_pos` of `state`, under the given termination policy.
    pub fn with_setup(mut state: State, starting_pos: usize, termination: TerminationPolicy) -> (g: Game)
        requires
            starting_pos < state.world@.len(),
            forall|i: int|
                0 <= i < state.world@.len() && i != starting_pos ==> #[trigger] state.world@[i]
                    != TileType::Player,
        ensures
            g.wf(),
            g.world() == state.world@.update(starting_pos as int, TileType::Player),
            g.player_pos == starting_pos,
            g.player_starting_pos == starting_pos,
            g.score == 0,
            g.runs == 0,
            !g.quit,
            g.termination == termination,
    {
        state.world[starting_pos] = TileType::Player;
        Game {
            runs: 0,
            score: 0,
            state,
            player_starting_pos: starting_pos,
            player_pos: starting_pos,
            quit: false,
            termination,
        }
    }

    /// Applies one action and reports its effect.
    ///
    /// Input that could not be read as a move (`Action::Invalid`) is answered
    /// with `Loss` and changes nothing, not even the run counter. A caller that
    /// would rather ask again, as the terminal player does, does so before
    /// calling.
    pub fn update(&mut self, action: Action) -> (r: MoveResult)
        requires
            old(self).wf(),
            old(self).ends_episode(action) ==> old(self).counters_in_range(),
        ensures
            final(self).wf(),
            final(self).player_pos < final(self).world().len(),
            Game::update_spec(old(self), final(self), action, r),
    {
        match action {
            Action::Invalid => MoveResult::Loss,
            Action::Left => {
                if self.player_pos == 0 {
                    self.score = -1;
                    MoveResult::Loss
                } else {
                    self.state.world[self.player_pos] = TileType::Empty;
                    self.player_pos = self.player_pos - 1;
                    self.evaluate_new_pos()
                }
            },
            Action::Right => {
                if self.player_pos == self.state.world.len() - 1 {
                    self.score = -1;
                    MoveResult::Loss
                } else {
                    self.state.world[self.player_pos] = TileType::Empty;
                    self.player_pos = self.player_pos + 1;
                    self.evaluate_new_pos()
                }
            },
            Action::Quit => {
                self.quit = true;
                MoveResult::Quit
            },
        }
    }

    /// Resolves the tile the player has just moved onto.
    fn evaluate_new_pos(&mut self) -> (r: MoveResult)
        requires
            old(self).player_pos < old(self).world().len(),
            old(self).player_starting_pos < old(self).world().len(),
            old(self).world()[old(self).player_pos as int] != TileType::Player,
            forall|i: int|
                0 <= i < old(self).world().len() ==> #[trigger] old(self).world()[i]
                    != TileType::Player,
            (old(self).world()[old(self).player_pos as int] == TileType::Cheese
                || old(self).world()[old(self).player_pos as int] == TileType::Pit)
                ==> old(self).counters_in_range(),
        ensures
            final(self).wf(),
            final(self).same_setup(old(self)),
            final(self).quit == old(self).quit,
            match old(self).world()[old(self).player_pos as int] {
                TileType::Cheese => {
                    &&& final(self).world() == old(self).world().update(
                        old(self).player_starting_pos as int,
                        TileType::Player,
                    )
                    &&& final(self).score == old(self).score + 1
                    &&& final(self).runs == old(self).runs + 1
                    &&& final(self).player_pos == old(self).player_starting_pos
                    &&& r == MoveResult::Win
                },
                TileType::Pit => {
                    &&& final(self).world() == old(self).world().update(
                        old(self).player_starting_pos as int,
                        TileType::Player,
                    )
                    &&& final(self).score == old(self).score - 1
                    &&& final(self).runs == old(self).runs + 1
                    &&& final(self).player_pos == old(self).player_starting_pos
                    &&& r == MoveResult::Loss
                },
                _ => {
                    &&& final(self).world() == old(self).world().update(
                        old(self).player_pos as int,
                        TileType::Player,
                    )
                    &&& final(self).score == old(self).score
                    &&& final(self).runs == old(self).runs
                    &&& final(self).player_pos == old(self).player_pos
                    &&& r == MoveResult::NextRound
                },
            },
    {
        match self.state.world[self.player_pos] {
            TileType::Cheese => {
                self.win();
                MoveResult::Win
            },
            TileType::Pit => {
                self.lose();
                MoveResult::Loss
            },
            _ => {
                self.state.world[self.player_pos] = TileType::Player;
                MoveResult::NextRound
            },
        }
    }

    /// Whether the game is over under its termination policy.
    pub fn game_over(&self) -> (r: bool)
        ensures
            r == over_spec(self.termination, self.quit, self.score as int, self.runs as int),
    {
        self.quit || match self.termination {
            TerminationPolicy::RunLimit(limit) => self.runs > limit,
            TerminationPolicy::ScoreBound(low, high) => self.score <= low || self.score >= high,
        }
    }

    /// Ends an episode on the reward tile.
    fn win(&mut self)
        requires
            old(self).score < i32::MAX,
            old(self).runs < u32::MAX,
            old(self).player_starting_pos < old(self).world().len(),
        ensures
            final(self).score == old(self).score + 1,
            final(self).runs == old(self).runs + 1,
            final(self).world() == old(self).world().update(
                old(self).player_starting_pos as int,
                TileType::Player,
            ),
            final(self).player_pos == old(self).player_starting_pos,
            final(self).same_setup(old(self)),
            final(self).quit == old(self).quit,
    {
        self.score = self.score + 1;
        self.runs = self.runs + 1;
        self.reset();
    }

    /// Ends an episode on the hazard tile.
    fn lose(&mut self)
        requires
            old(self).score > i32::MIN,
            old(self).runs < u32::MAX,
            old(self).player_starting_pos < old(self).world().len(),
        ensures
            final(self).score == old(self).score - 1,
            final(self).runs == old(self).runs + 1,
            final(self).world() == old(self).world().update(
                old(self).player_starting_pos as int,
                TileType::Player,
            ),
            final(self).player_pos == old(self).player_starting_pos,
            final(self).same_setup(old(self)),
            final(self).quit == old(self).quit,
    {
        self.score = self.score - 1;
        self.runs = self.runs + 1;
        self.reset();
    }

    /// Puts the player back on the starting position; the rest of the board stays.
    fn reset(&mut self)
        requires
            old(self).player_starting_pos < old(self).world().len(),
        ensures
            final(self).world() == old(self).world().update(
                old(self).player_starting_pos as int,
                TileType::Player,
            ),
            final(self).player_pos == old(self).player_starting_pos,
            final(self).score == old(self).score,
            final(self).runs == old(self).runs,
            final(self).same_setup(old(self)),
            final(self).quit == old(self).quit,
    {
        self.state.world[self.player_starting_pos] = TileType::Player;
        self.player_pos = self.player_starting_pos;
    }
}

/// A move off either end of the board is a loss that leaves the player where
/// it stood, sets the score to -1 and does not count as an episode, whatever
/// the board holds.
pub proof fn lemma_leaving_board_is_loss(pre: &Game, post: &Game, action: Action, r: MoveResult)
    requires
        Game::update_spec(pre, post, action, r),
        pre.leaves_board(action),
    ensures
        r == MoveResult::Loss,
        post.player_pos == pre.player_pos,
        post.score == -1,
        post.runs == pre.runs,
        post.world() == pre.world(),
{
}

/// Landing on the reward tile wins: one more episode, one more point, and the
/// player back on the starting position. Landing on the hazard tile is the
/// same with one point less.
pub proof fn lemma_landing_ends_episode(pre: &Game, post: &Game, action: Action, r: MoveResult)
    requires
        pre.wf(),
        Game::update_spec(pre, post, action, r),
        action == Action::Left || action == Action::Right,
        !pre.leaves_board(action),
    ensures
        pre.world()[pre.destination(action)] == TileType::Cheese ==> {
            &&& r == MoveResult::Win
            &&& post.runs == pre.runs + 1
            &&& post.score == pre.score + 1
            &&& post.player_pos == pre.player_starting_pos
            &&& post.world()[pre.player_starting_pos as int] == TileType::Player
        },
        pre.world()[pre.destination(action)] == TileType::Pit ==> {
            &&& r == MoveResult::Loss
            &&& post.runs == pre.runs + 1
            &&& post.score == pre.score - 1
            &&& post.player_pos == pre.player_starting_pos
            &&& post.world()[pre.player_starting_pos as int] == TileType::Player
        },
{
}

/// After a win, or a loss on a tile rather than at the edge, the player stands
/// on the starting position and the board shows it there; the board is the
/// old one with the player's old cell cleared and the starting cell marked,
/// the landing tile kept, and marking the starting cell again changes nothing.
pub proof fn lemma_episode_end_resets(pre: &Game, post: &Game, action: Action, r: MoveResult)
    requires
        pre.wf(),
        Game::update_spec(pre, post, action, r),
        action == Action::Left || action == Action::Right,
        !pre.leaves_board(action),
        r == MoveResult::Win || r == MoveResult::Loss,
    ensures
        post.player_pos == post.player_starting_pos,
        post.world()[post.player_starting_pos as int] == TileType::Player,
        post.world() == vacated(pre.world(), pre.player_pos as int).update(
            pre.player_starting_pos as int,
            TileType::Player,
        ),
        post.world().update(post.player_starting_pos as int, TileType::Player) == post.world(),
{
    assert(post.world().update(post.player_starting_pos as int, TileType::Player) =~= post.world());
}

/// On a board of at least two cells, no action takes the player off the board.
pub proof fn lemma_update_keeps_player_on_board(
    pre: &Game,
    post: &Game,
    action: Action,
    r: MoveResult,
)
    requires
        pre.wf(),
        pre.world().len() >= 2,
        Game::update_spec(pre, post, action, r),
    ensures
        post.player_pos < post.world().len(),
        post.world().len() == pre.world().len(),
{
}

} // verus!
