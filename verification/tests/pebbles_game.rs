use pebbles_game::engine::{
    apply_turn, check_pebbles_input, give_up, handle, init, restart_game, state,
};
use pebbles_game::strategy::{choose_first_player, pebbles_auto_remove};
use pebbles_game::types::{
    DifficultyLevel, GameError, GameState, PebblesAction, PebblesEvent, PebblesInit, Player,
};

#[test]
fn test_check_pebbles_input() {
    let res: bool = check_pebbles_input(0, 0);
    assert!(!res);
    let res: bool = check_pebbles_input(10, 3);
    assert!(res);
    let res: bool = check_pebbles_input(1, 2);
    assert!(!res);
}

#[test]
fn test_choose_first_player() {
    assert_eq!(choose_first_player(0), Player::User);
    assert_eq!(choose_first_player(2), Player::User);
    assert_eq!(choose_first_player(1), Player::Program);
    assert_eq!(choose_first_player(u32::MAX), Player::Program);
}

fn playing_state(
    difficulty: DifficultyLevel,
    pebbles_count: u32,
    max_pebbles_per_turn: u32,
    pebbles_remaining: u32,
) -> GameState {
    GameState {
        pebbles_count,
        max_pebbles_per_turn,
        pebbles_remaining,
        difficulty,
        first_player: Player::User,
        winner: None,
    }
}

#[test]
fn test_easy_move_bound() {
    // Every easy-mode amount lies in [1, max_pebbles_per_turn].
    for random in 0..32u32 {
        let gs = playing_state(DifficultyLevel::Easy, 10, 3, 10);
        let amount = pebbles_auto_remove(&gs, random);
        assert!((1..=3).contains(&amount));
    }
    // Exact values of the formula random % cap + 1.
    let gs = playing_state(DifficultyLevel::Easy, 10, 3, 10);
    assert_eq!(pebbles_auto_remove(&gs, 0), 1);
    assert_eq!(pebbles_auto_remove(&gs, 4), 2);
    assert_eq!(pebbles_auto_remove(&gs, 5), 3);
}

#[test]
fn test_hard_move_values() {
    // Forcing move: 7 % (3 + 1) = 3, leaving a multiple of 4.
    let gs = playing_state(DifficultyLevel::Hard, 10, 3, 7);
    let amount = pebbles_auto_remove(&gs, 0);
    assert_eq!(amount, 3);
    assert_eq!((7 - amount) % 4, 0);
    // No forcing move from a multiple of 4: concede a single pebble.
    let gs = playing_state(DifficultyLevel::Hard, 10, 3, 8);
    assert_eq!(pebbles_auto_remove(&gs, 0), 1);
    // Finishing move: the whole pile fits in one turn.
    let gs = playing_state(DifficultyLevel::Hard, 10, 3, 2);
    assert_eq!(pebbles_auto_remove(&gs, 0), 2);
}

#[test]
fn test_restart_user_first() {
    let gs = restart_game(DifficultyLevel::Easy, 10, 3, 0, 99).unwrap();
    assert_eq!(gs.pebbles_count, 10);
    assert_eq!(gs.max_pebbles_per_turn, 3);
    assert_eq!(gs.pebbles_remaining, 10);
    assert_eq!(gs.difficulty, DifficultyLevel::Easy);
    assert_eq!(gs.first_player, Player::User);
    assert_eq!(gs.winner, None);
    assert!(gs.pebbles_remaining <= gs.pebbles_count);
}

#[test]
fn test_restart_program_first_easy() {
    // Odd first draw: the program opens; 5 % 3 + 1 = 3 pebbles are taken.
    let gs = restart_game(DifficultyLevel::Easy, 10, 3, 1, 5).unwrap();
    assert_eq!(gs.first_player, Player::Program);
    assert_eq!(gs.pebbles_remaining, 7);
    assert_eq!(gs.winner, None);
    assert!(gs.pebbles_remaining <= gs.pebbles_count);
}

#[test]
fn test_restart_program_first_hard() {
    // Pile 4, cap 3: 4 > 3 and 4 % 4 == 0, so the opening move takes 1.
    // The opening move can never empty the pile (it removes at most the
    // cap, which validation keeps below the pile size), so a fresh game
    // never starts with a recorded winner.
    let gs = restart_game(DifficultyLevel::Hard, 4, 3, 1, 0).unwrap();
    assert_eq!(gs.first_player, Player::Program);
    assert_eq!(gs.pebbles_remaining, 3);
    assert_eq!(gs.winner, None);
}

#[test]
fn test_restart_invalid() {
    assert_eq!(
        restart_game(DifficultyLevel::Easy, 0, 0, 0, 0),
        Err(GameError::InvalidConfiguration)
    );
    assert_eq!(
        restart_game(DifficultyLevel::Hard, 1, 2, 0, 0),
        Err(GameError::InvalidConfiguration)
    );
}

#[test]
fn test_init_matches_restart() {
    let msg = PebblesInit {
        difficulty: DifficultyLevel::Hard,
        pebbles_count: 10,
        max_pebbles_per_turn: 3,
    };
    assert_eq!(
        init(msg, 4, 7),
        restart_game(DifficultyLevel::Hard, 10, 3, 4, 7)
    );
    let bad = PebblesInit {
        difficulty: DifficultyLevel::Easy,
        pebbles_count: 3,
        max_pebbles_per_turn: 3,
    };
    assert_eq!(init(bad, 0, 0), Err(GameError::InvalidConfiguration));
}

#[test]
fn test_give_up_fresh() {
    // Conceding a fresh game: the program wins on the spot, whatever the
    // pile holds.
    let mut gs = restart_game(DifficultyLevel::Easy, 10, 3, 0, 0).unwrap();
    let event = give_up(&mut gs);
    assert_eq!(event, PebblesEvent::Won(Player::Program));
    assert_eq!(gs.winner, Some(Player::Program));
    assert_eq!(gs.pebbles_remaining, 10);
}

#[test]
fn test_give_up_idempotent() {
    let mut gs = restart_game(DifficultyLevel::Hard, 10, 3, 0, 0).unwrap();
    let first_event = give_up(&mut gs);
    let after_first = gs;
    let second_event = give_up(&mut gs);
    assert_eq!(first_event, PebblesEvent::Won(Player::Program));
    assert_eq!(second_event, PebblesEvent::Won(Player::Program));
    assert_eq!(gs, after_first);
    assert_eq!(gs.winner, Some(Player::Program));
}

#[test]
fn test_scenario_hard_10_3() {
    // Hard game over a pile of 10 with cap 3, the user opening.
    let mut gs = restart_game(DifficultyLevel::Hard, 10, 3, 0, 0).unwrap();
    assert_eq!(gs.first_player, Player::User);
    assert_eq!(gs.pebbles_remaining, 10);
    // The user asks for 4; it is clamped to 3, leaving 7, and the program
    // answers with 7 % 4 = 3, leaving 4.
    let event = apply_turn(&mut gs, 4, 0).unwrap();
    assert_eq!(event, PebblesEvent::CounterTurn(7));
    assert_eq!(gs.pebbles_remaining, 4);
    assert_eq!(gs.winner, None);
    // From 4 with cap 3 the user cannot empty the pile: another request of
    // 4 is again clamped to 3, leaving 1, and the program takes the last
    // pebble and wins.
    let event = apply_turn(&mut gs, 4, 0).unwrap();
    assert_eq!(event, PebblesEvent::CounterTurn(1));
    assert_eq!(gs.pebbles_remaining, 0);
    assert_eq!(gs.winner, Some(Player::Program));
}

#[test]
fn test_user_wins_by_emptying_pile() {
    let mut gs = playing_state(DifficultyLevel::Hard, 10, 3, 3);
    let event = apply_turn(&mut gs, 3, 0).unwrap();
    assert_eq!(event, PebblesEvent::Won(Player::User));
    assert_eq!(gs.pebbles_remaining, 0);
    assert_eq!(gs.winner, Some(Player::User));
}

#[test]
fn test_turn_keeps_existing_winner() {
    // After a concession the winner is already recorded; a user turn that
    // empties the pile reports that winner instead of overwriting it.
    let mut gs = playing_state(DifficultyLevel::Hard, 10, 3, 3);
    let _ = give_up(&mut gs);
    let event = apply_turn(&mut gs, 3, 0).unwrap();
    assert_eq!(event, PebblesEvent::Won(Player::Program));
    assert_eq!(gs.winner, Some(Player::Program));
    assert_eq!(gs.pebbles_remaining, 0);
}

#[test]
fn test_turn_zero_removes_nothing() {
    // A requested 0 is accepted as-is: the user removes nothing and the
    // program still answers with its own move (7 % 4 = 3 here).
    let mut gs = playing_state(DifficultyLevel::Hard, 10, 3, 7);
    let event = apply_turn(&mut gs, 0, 0).unwrap();
    assert_eq!(event, PebblesEvent::CounterTurn(7));
    assert_eq!(gs.pebbles_remaining, 4);
}

#[test]
fn test_turn_rejects_unplayable_state() {
    let mut gs = GameState::default();
    let before = gs;
    assert_eq!(
        apply_turn(&mut gs, 1, 0),
        Err(GameError::InvalidConfiguration)
    );
    assert_eq!(gs, before);
}

#[test]
fn test_handle_dispatch() {
    let mut gs = restart_game(DifficultyLevel::Hard, 10, 3, 0, 0).unwrap();
    // A turn through the dispatcher behaves as apply_turn does.
    let reply = handle(&mut gs, PebblesAction::Turn(4), 0, 0).unwrap();
    assert_eq!(reply, Some(PebblesEvent::CounterTurn(7)));
    assert_eq!(gs.pebbles_remaining, 4);
    // A restart replaces the state and reports no event.
    let reply = handle(
        &mut gs,
        PebblesAction::Restart {
            difficulty: DifficultyLevel::Easy,
            pebbles_count: 20,
            max_pebbles_per_turn: 5,
        },
        0,
        0,
    )
    .unwrap();
    assert_eq!(reply, None);
    assert_eq!(gs.pebbles_count, 20);
    assert_eq!(gs.max_pebbles_per_turn, 5);
    assert_eq!(gs.pebbles_remaining, 20);
    assert_eq!(gs.difficulty, DifficultyLevel::Easy);
    assert_eq!(gs.winner, None);
    // A concession reports the program as the winner.
    let reply = handle(&mut gs, PebblesAction::GiveUp, 0, 0).unwrap();
    assert_eq!(reply, Some(PebblesEvent::Won(Player::Program)));
    assert_eq!(gs.winner, Some(Player::Program));
}

#[test]
fn test_handle_invalid_restart() {
    let mut gs = restart_game(DifficultyLevel::Hard, 10, 3, 0, 0).unwrap();
    let before = gs;
    let reply = handle(
        &mut gs,
        PebblesAction::Restart {
            difficulty: DifficultyLevel::Easy,
            pebbles_count: 5,
            max_pebbles_per_turn: 5,
        },
        0,
        0,
    );
    assert_eq!(reply, Err(GameError::InvalidConfiguration));
    assert_eq!(gs, before);
}

#[test]
fn test_state_snapshot() {
    let gs = restart_game(DifficultyLevel::Easy, 10, 3, 0, 0).unwrap();
    assert_eq!(state(&gs), Ok(gs));
    let unplayable = GameState::default();
    assert_eq!(state(&unplayable), Err(GameError::InvalidConfiguration));
}

#[test]
fn test_default_state_is_unplayable() {
    let gs = GameState::default();
    assert_eq!(gs.pebbles_count, 0);
    assert_eq!(gs.max_pebbles_per_turn, 0);
    assert_eq!(gs.pebbles_remaining, 0);
    assert_eq!(gs.difficulty, DifficultyLevel::Easy);
    assert_eq!(gs.first_player, Player::User);
    assert_eq!(gs.winner, None);
    assert!(!check_pebbles_input(gs.pebbles_count, gs.max_pebbles_per_turn));
}
