use ml_playground::agent_factory::{bot, human};
use ml_playground::human_agent::Human;
use ml_playground::q_learning_agent::ExplorationPolicy;
use ml_playground::quality::td_update_value;
use ml_playground::{Action, Agent, Game, MoveResult, QLearningBot, State, TileType, QUALITY_ONE};

fn pit_board() -> Game {
    let mut world = vec![TileType::Empty; 16];
    world[0] = TileType::Pit;
    world[14] = TileType::Cheese;
    Game::new(State { world })
}

fn table(b: &QLearningBot) -> Vec<(i64, i64)> {
    let mut rows = Vec::new();
    for i in 0..b.table_len() {
        rows.push((b.quality(i, Action::Left), b.quality(i, Action::Right)));
    }
    rows
}

#[test]
fn td_update_exact_value() {
    assert_eq!(td_update_value(500_000, 200_000, 900_000, 1, 800_000), 744_000);
}

#[test]
fn td_update_full_rate_takes_target() {
    assert_eq!(td_update_value(0, 1_000_000, 0, -1, 0), -1_000_000);
    assert_eq!(td_update_value(300_000, 1_000_000, 500_000, 0, 800_000), 400_000);
}

#[test]
fn td_update_rounds_down() {
    assert_eq!(td_update_value(-1, 500_000, 0, 0, 0), -1);
    assert_eq!(td_update_value(1, 500_000, 0, 0, 0), 0);
}

#[test]
fn td_update_zero_rate_keeps_value() {
    assert_eq!(td_update_value(123_456, 0, 900_000, 5, 999_999), 123_456);
}

#[test]
fn td_update_saturates() {
    assert_eq!(td_update_value(0, 1_000_000, 1_000_000, i64::MAX, i64::MAX), i64::MAX);
    assert_eq!(td_update_value(0, 1_000_000, 1_000_000, i64::MIN, i64::MIN), i64::MIN);
}

#[test]
fn td_update_is_between_old_and_target() {
    let cases: [(i64, u32, u32, i64, i64); 5] = [
        (500_000, 200_000, 900_000, 1, 800_000),
        (-700_000, 350_000, 100_000, -4, 20_000),
        (900_000, 999_999, 0, 0, 0),
        (0, 1, 1_000_000, 1, 1_000_000),
        (42, 600_000, 450_000, -1, 0),
    ];
    for (q, a, g, r, b) in cases.iter() {
        let v = td_update_value(*q, *a, *g, *r, *b);
        let t = ((*r as i128) * 1_000_000_000_000 + (*g as i128) * (*b as i128)).div_euclid(1_000_000) as i64;
        assert!((*q <= v && v <= t) || (t <= v && v <= *q), "{} {} {}", q, v, t);
    }
}

#[test]
fn new_bot_has_zero_table_of_board_size() {
    let game = pit_board();
    let b = QLearningBot::new(200_000, 900_000, &game, 7);
    assert_eq!(b.table_len(), 16);
    for row in table(&b) {
        assert_eq!(row, (0, 0));
    }
}

#[test]
fn initialized_values_lie_in_unit_interval() {
    let game = pit_board();
    let b = bot(200_000, 900_000, &game, 11);
    let rows = table(&b);
    assert_eq!(rows.len(), 16);
    let mut distinct = false;
    for (l, r) in rows.iter() {
        assert!(0 <= *l && *l < QUALITY_ONE);
        assert!(0 <= *r && *r < QUALITY_ONE);
        if *l != rows[0].0 {
            distinct = true;
        }
    }
    assert!(distinct);
}

#[test]
fn same_seed_gives_same_table() {
    let game = pit_board();
    let a = bot(200_000, 900_000, &game, 99);
    let b = bot(200_000, 900_000, &game, 99);
    assert_eq!(table(&a), table(&b));
}

#[test]
fn greedy_prefers_strictly_larger() {
    let game = pit_board();
    let mut g = pit_board();
    let mut b2 = QLearningBot::new(1_000_000, 0, &game, 1);
    // Moving right from 13 onto the cheese gives Right at 13 the value 1.
    for _ in 0..8 {
        g.update(Action::Right);
    }
    b2.learn_from_move(&mut g, Action::Right);
    assert_eq!(b2.quality(13, Action::Right), 1_000_000);
    assert_eq!(b2.get_max_q_table_action(13), (Action::Right, 1_000_000));
    // Moving left from 1 into the pit gives Left at 1 the value -1.
    let mut g = pit_board();
    for _ in 0..4 {
        g.update(Action::Left);
    }
    b2.learn_from_move(&mut g, Action::Left);
    assert_eq!(b2.quality(1, Action::Left), -1_000_000);
    assert_eq!(b2.get_max_q_table_action(1), (Action::Left, 0));
}

#[test]
fn greedy_tie_and_nonpositive_rows_pick_left() {
    let game = pit_board();
    let b = QLearningBot::new(200_000, 900_000, &game, 3);
    assert_eq!(b.get_max_q_table_action(5), (Action::Left, 0));
    let mut b2 = QLearningBot::new(1_000_000, 0, &game, 3);
    let mut g = pit_board();
    for _ in 0..4 {
        g.update(Action::Left);
    }
    b2.learn_from_move(&mut g, Action::Left);
    // Row 1 is (-1, 0): Right is larger but not above 0.
    assert_eq!(b2.get_max_q_table_action(1), (Action::Left, 0));
}

#[test]
fn greedy_picks_left_when_left_is_larger() {
    let mut world = vec![TileType::Empty; 8];
    world[4] = TileType::Cheese;
    let mut game = Game::new(State { world });
    let mut b = QLearningBot::new(1_000_000, 0, &game, 5);
    assert_eq!(b.learn_from_move(&mut game, Action::Left), MoveResult::Win);
    assert_eq!(b.get_max_q_table_action(5), (Action::Left, 1_000_000));
}

#[test]
fn learning_uses_score_delta_and_reset_row() {
    let game0 = pit_board();
    let mut b = QLearningBot::new(500_000, 500_000, &game0, 2);
    let mut g = pit_board();
    for _ in 0..8 {
        g.update(Action::Right);
    }
    assert_eq!(b.learn_from_move(&mut g, Action::Right), MoveResult::Win);
    // (1 - 0.5) * 0 + 0.5 * (1 + 0.5 * 0) = 0.5
    assert_eq!(b.quality(13, Action::Right), 500_000);
    assert_eq!(g.player_pos, 5);
}

#[test]
fn boundary_loss_reward_is_actual_score_delta() {
    let world = vec![TileType::Empty; 7];
    let mut g = Game::new(State { world });
    g.update(Action::Right);
    g.score = 2;
    let mut b = QLearningBot::new(1_000_000, 0, &g, 4);
    assert_eq!(b.learn_from_move(&mut g, Action::Right), MoveResult::Loss);
    assert_eq!(g.score, -1);
    assert_eq!(b.quality(6, Action::Right), -3_000_000);
}

#[test]
fn derived_exploration_rule() {
    let game = pit_board();
    let b = QLearningBot::new(200_000, 900_000, &game, 1);
    assert!(b.explores(0, 999_999));
    assert!(b.explores(1, 999_999));
    assert!(b.explores(4, 249_999));
    assert!(!b.explores(4, 250_000));
    assert!(!b.explores(3, 333_334));
    assert!(b.explores(3, 333_333));
}

#[test]
fn fixed_exploration_rule() {
    let game = pit_board();
    let b = QLearningBot::new(200_000, 900_000, &game, 1).with_exploration(ExplorationPolicy::Fixed(100_000));
    assert!(b.explores(0, 99_999));
    assert!(!b.explores(0, 100_000));
    let never = QLearningBot::new(200_000, 900_000, &game, 1).with_exploration(ExplorationPolicy::Fixed(0));
    assert!(!never.explores(0, 0));
}

#[test]
fn greedy_bot_walks_to_its_best_move() {
    let mut game = pit_board();
    let mut b = QLearningBot::new(200_000, 900_000, &game, 8).with_exploration(ExplorationPolicy::Fixed(0));
    b.act(&mut game);
    assert_eq!(game.player_pos, 4);
    assert_eq!(b.quality(5, Action::Left), 0);
}

#[test]
fn bot_plays_many_steps_on_pit_board() {
    let mut game = pit_board();
    let mut b = bot(200_000, 900_000, &game, 21);
    let mut steps = 0;
    while !game.game_over() && steps < 5_000 {
        Agent::act(&mut b, &mut game);
        assert!(game.player_pos < 16);
        let mut players = 0;
        for t in game.state.world.iter() {
            if *t == TileType::Player {
                players += 1;
            }
        }
        assert_eq!(players, 1);
        steps += 1;
    }
    assert_eq!(b.table_len(), 16);
}

#[test]
fn action_ids() {
    assert_eq!(QLearningBot::get_action_id(Action::Left), 0);
    assert_eq!(QLearningBot::get_action_id(Action::Right), 1);
    assert_eq!(QLearningBot::action_from_id(0), Action::Left);
    assert_eq!(QLearningBot::action_from_id(1), Action::Right);
}

#[test]
fn human_input_mapping() {
    let _ = human();
    assert_eq!(Human::parse_action("a\n"), Action::Left);
    assert_eq!(Human::parse_action("A"), Action::Left);
    assert_eq!(Human::parse_action("Dance"), Action::Right);
    assert_eq!(Human::parse_action("q"), Action::Quit);
    assert_eq!(Human::parse_action("Quit"), Action::Quit);
    assert_eq!(Human::parse_action("x"), Action::Invalid);
    assert_eq!(Human::parse_action(""), Action::Invalid);
    assert_eq!(Human::parse_action(" a"), Action::Invalid);
}

#[test]
fn fill_q_table_places_draws_row_by_row() {
    let game = pit_board();
    let mut b = QLearningBot::new(200_000, 900_000, &game, 1);
    let draws: Vec<u64> = (0..32u64).map(|k| k * 1_000 + 7).collect();
    b.fill_q_table(&draws);
    for i in 0..16usize {
        assert_eq!(b.quality(i, Action::Left), (2 * i as i64) * 1_000 + 7);
        assert_eq!(b.quality(i, Action::Right), (2 * i as i64 + 1) * 1_000 + 7);
    }
}

#[test]
fn bootstrap_uses_plain_maximum_of_next_row() {
    let mut game = Game::with_setup(
        State { world: vec![TileType::Empty, TileType::Pit] },
        0,
        ml_playground::TerminationPolicy::RunLimit(10),
    );
    let mut b = QLearningBot::new(1_000_000, 1_000_000, &game, 6);
    assert_eq!(b.learn_from_move(&mut game, Action::Left), MoveResult::Loss);
    assert_eq!(b.quality(0, Action::Left), -1_000_000);
    assert_eq!(b.learn_from_move(&mut game, Action::Right), MoveResult::Loss);
    assert_eq!(game.score, -2);
    assert_eq!(b.quality(0, Action::Right), -1_000_000);
    // Edge loss sets the score from -2 to -1: reward +1, and the best of the
    // row (-1, -1) is -1, so the target is 0.
    assert_eq!(b.learn_from_move(&mut game, Action::Left), MoveResult::Loss);
    assert_eq!(b.quality(0, Action::Left), 0);
}

#[test]
fn choose_action_follows_draws() {
    let game = pit_board();
    let b = QLearningBot::new(200_000, 900_000, &game, 1);
    assert_eq!(b.choose_action(0, 5, 999_999, 1), Action::Right);
    assert_eq!(b.choose_action(0, 5, 0, 0), Action::Left);
    assert_eq!(b.choose_action(4, 5, 250_000, 1), Action::Left);
    let mut g = pit_board();
    let mut b2 = QLearningBot::new(1_000_000, 0, &game, 1).with_exploration(ExplorationPolicy::Fixed(0));
    for _ in 0..8 {
        g.update(Action::Right);
    }
    b2.learn_from_move(&mut g, Action::Right);
    assert_eq!(b2.choose_action(1, 13, 0, 0), Action::Right);
    assert_eq!(b2.choose_action(1, 12, 0, 1), Action::Left);
}
