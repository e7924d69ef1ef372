//! The game engine: validation, (re)initialization, turn application,
//! concession, dispatch of a request, and the state snapshot.
//!
//! Every operation is specified against a spec-level transition function
//! (`spec_restart`, `spec_turn`, `spec_give_up`), so the exact next state
//! is pinned down for every input. The host threads the one live
//! `GameState` value through these calls and supplies the random draws.

use vstd::prelude::*;

use crate::strategy::{choose_first_player, pebbles_auto_remove, spec_auto_remove, spec_first_player};
use crate::types::{
    is_valid_configuration, DifficultyLevel, GameError, GameState, PebblesAction, PebblesEvent,
    PebblesInit, Player,
};

verus! {

/// `value - amount`, floored at zero: the pile never goes negative however
/// large a removal is requested.
pub open spec fn saturating_sub_u32(value: u32, amount: int) -> u32
    recommends
        amount >= 0,
{
    if amount >= value {
        0u32
    } else {
        (value - amount) as u32
    }
}

/// The state a (re)initialization produces from a playable configuration:
/// a full pile, no winner, the first player drawn from `random_first`, and
/// — when the program opens — its first move already folded in, drawn from
/// `random_move` on easy difficulty. No winner is recorded even if that
/// opening move were to empty the pile.
pub open spec fn spec_restart(
    difficulty: DifficultyLevel,
    pebbles_count: u32,
    max_pebbles_per_turn: u32,
    random_first: u32,
    random_move: u32,
) -> GameState
    recommends
        is_valid_configuration(pebbles_count, max_pebbles_per_turn),
{
    let first_player = spec_first_player(random_first);
    let fresh = GameState {
        pebbles_count,
        max_pebbles_per_turn,
        pebbles_remaining: pebbles_count,
        difficulty,
        first_player,
        winner: None,
    };
    if first_player is Program {
        let amount = spec_auto_remove(difficulty, pebbles_count, max_pebbles_per_turn, random_move);
        GameState { pebbles_remaining: saturating_sub_u32(pebbles_count, amount), ..fresh }
    } else {
        fresh
    }
}

/// The state a concession produces: the program is recorded as the winner
/// unconditionally; the pile and the configuration are untouched.
pub open spec fn spec_give_up(state: GameState) -> GameState {
    GameState { winner: Some(Player::Program), ..state }
}

/// The state and event one user turn produces.
///
/// The requested amount is capped at `max_pebbles_per_turn` (a zero is
/// accepted as-is and removes nothing) and taken from the pile. If that
/// empties the pile, an already-recorded winner is reported unchanged;
/// otherwise the user wins. If pebbles remain, the event reports the pile
/// after the user's move, and the automated player immediately takes its
/// own move, winning if it empties the pile.
pub open spec fn spec_turn(state: GameState, requested: u32, random_move: u32) -> (GameState,
    PebblesEvent)
    recommends
        is_valid_configuration(state.pebbles_count, state.max_pebbles_per_turn),
{
    let clamped = if requested > state.max_pebbles_per_turn {
        state.max_pebbles_per_turn
    } else {
        requested
    };
    let after_user = saturating_sub_u32(state.pebbles_remaining, clamped as int);
    if after_user == 0 {
        match state.winner {
            Some(existing) => (
                GameState { pebbles_remaining: after_user, ..state },
                PebblesEvent::Won(existing),
            ),
            None => (
                GameState { pebbles_remaining: after_user, winner: Some(Player::User), ..state },
                PebblesEvent::Won(Player::User),
            ),
        }
    } else {
        let amount = spec_auto_remove(state.difficulty, after_user, state.max_pebbles_per_turn, random_move);
        let after_program = saturating_sub_u32(after_user, amount);
        let winner = if after_program == 0 {
            Some(Player::Program)
        } else {
            state.winner
        };
        (
            GameState { pebbles_remaining: after_program, winner, ..state },
            PebblesEvent::CounterTurn(after_user),
        )
    }
}

/// Validates a pile size and per-turn cap.
pub fn check_pebbles_input(
    init_msg_pebbles_count: u32,
    init_msg_max_pebbles_per_turn: u32,
) -> (valid: bool)
    ensures
        valid == is_valid_configuration(init_msg_pebbles_count, init_msg_max_pebbles_per_turn),
{
    if init_msg_pebbles_count < 1
        || init_msg_max_pebbles_per_turn < 1
        || init_msg_max_pebbles_per_turn >= init_msg_pebbles_count
    {
        return false;
    }
    true
}

/// Starts or restarts a game.
///
/// Rejects an unplayable configuration with `InvalidConfiguration`;
/// otherwise returns the freshly initialized state, with the program's
/// opening move already applied when the first draw picks it to open.
pub fn restart_game(
    init_msg_difficulty: DifficultyLevel,
    init_msg_pebbles_count: u32,
    init_msg_max_pebbles_per_turn: u32,
    random_first: u32,
    random_move: u32,
) -> (result: Result<GameState, GameError>)
    ensures
        result == if is_valid_configuration(init_msg_pebbles_count, init_msg_max_pebbles_per_turn) {
            Ok::<GameState, GameError>(
                spec_restart(
                    init_msg_difficulty,
                    init_msg_pebbles_count,
                    init_msg_max_pebbles_per_turn,
                    random_first,
                    random_move,
                ),
            )
        } else {
            Err::<GameState, GameError>(GameError::InvalidConfiguration)
        },
{
    if !check_pebbles_input(init_msg_pebbles_count, init_msg_max_pebbles_per_turn) {
        return Err(GameError::InvalidConfiguration);
    }
    let first_player = choose_first_player(random_first);
    let mut pebbles_game = GameState {
        difficulty: init_msg_difficulty,
        pebbles_count: init_msg_pebbles_count,
        max_pebbles_per_turn: init_msg_max_pebbles_per_turn,
        pebbles_remaining: init_msg_pebbles_count,
        first_player,
        winner: None,
    };
    if first_player == Player::Program {
        let program_take = pebbles_auto_remove(&pebbles_game, random_move);
        pebbles_game.pebbles_remaining = pebbles_game.pebbles_remaining.saturating_sub(
            program_take,
        );
    }
    Ok(pebbles_game)
}

/// Initializes the game from an initialization request.
pub fn init(init_msg: PebblesInit, random_first: u32, random_move: u32) -> (result: Result<
    GameState,
    GameError,
>)
    ensures
        result == if is_valid_configuration(init_msg.pebbles_count, init_msg.max_pebbles_per_turn) {
            Ok::<GameState, GameError>(
                spec_restart(
                    init_msg.difficulty,
                    init_msg.pebbles_count,
                    init_msg.max_pebbles_per_turn,
                    random_first,
                    random_move,
                ),
            )
        } else {
            Err::<GameState, GameError>(GameError::InvalidConfiguration)
        },
{
    restart_game(
        init_msg.difficulty,
        init_msg.pebbles_count,
        init_msg.max_pebbles_per_turn,
        random_first,
        random_move,
    )
}

/// Records the user's concession: the program wins on the spot, whatever
/// the pile holds, and a `Won(Program)` event is reported.
pub fn give_up(game: &mut GameState) -> (event: PebblesEvent)
    ensures
        *final(game) == spec_give_up(*old(game)),
        event == PebblesEvent::Won(Player::Program),
{
    game.winner = Some(Player::Program);
    PebblesEvent::Won(Player::Program)
}

/// Applies one user turn, and the automated player's reply when the pile
/// survives the user's move.
///
/// Fails with `InvalidConfiguration`, leaving the state untouched, only
/// when the stored configuration itself is unplayable; a turn amount out
/// of range is clamped, never rejected.
pub fn apply_turn(game: &mut GameState, requested: u32, random_move: u32) -> (result: Result<
    PebblesEvent,
    GameError,
>)
    ensures
        is_valid_configuration(old(game).pebbles_count, old(game).max_pebbles_per_turn) ==> {
            &&& *final(game) == spec_turn(*old(game), requested, random_move).0
            &&& result == Ok::<PebblesEvent, GameError>(
                spec_turn(*old(game), requested, random_move).1,
            )
        },
        !is_valid_configuration(old(game).pebbles_count, old(game).max_pebbles_per_turn) ==> {
            &&& *final(game) == *old(game)
            &&& result == Err::<PebblesEvent, GameError>(GameError::InvalidConfiguration)
        },
{
    if !check_pebbles_input(game.pebbles_count, game.max_pebbles_per_turn) {
        return Err(GameError::InvalidConfiguration);
    }
    let mut x = requested;
    if x > game.max_pebbles_per_turn {
        x = game.max_pebbles_per_turn;
    }
    game.pebbles_remaining = game.pebbles_remaining.saturating_sub(x);
    let peb_rem = game.pebbles_remaining;
    if peb_rem == 0 {
        match game.winner {
            Some(existing) => Ok(PebblesEvent::Won(existing)),
            None => {
                game.winner = Some(Player::User);
                Ok(PebblesEvent::Won(Player::User))
            },
        }
    } else {
        let snapshot = *game;
        let program_take = pebbles_auto_remove(&snapshot, random_move);
        game.pebbles_remaining = game.pebbles_remaining.saturating_sub(program_take);
        if game.pebbles_remaining == 0 {
            game.winner = Some(Player::Program);
        }
        Ok(PebblesEvent::CounterTurn(peb_rem))
    }
}

/// Dispatches one request to the engine.
///
/// A turn and a concession report an event; a restart replaces the state
/// and reports none. The random draws are consumed where the operation
/// needs them: `random_first` only by a restart, `random_move` by a
/// restart or a turn, and then only on the paths where the program moves.
pub fn handle(
    game: &mut GameState,
    action: PebblesAction,
    random_first: u32,
    random_move: u32,
) -> (result: Result<Option<PebblesEvent>, GameError>)
    ensures
        action is GiveUp ==> {
            &&& *final(game) == spec_give_up(*old(game))
            &&& result == Ok::<Option<PebblesEvent>, GameError>(
                Some(PebblesEvent::Won(Player::Program)),
            )
        },
        action matches PebblesAction::Turn(requested) ==> {
            &&& is_valid_configuration(old(game).pebbles_count, old(game).max_pebbles_per_turn)
                ==> {
                &&& *final(game) == spec_turn(*old(game), requested, random_move).0
                &&& result == Ok::<Option<PebblesEvent>, GameError>(
                    Some(spec_turn(*old(game), requested, random_move).1),
                )
            }
            &&& !is_valid_configuration(old(game).pebbles_count, old(game).max_pebbles_per_turn)
                ==> {
                &&& *final(game) == *old(game)
                &&& result == Err::<Option<PebblesEvent>, GameError>(
                    GameError::InvalidConfiguration,
                )
            }
        },
        action matches PebblesAction::Restart { difficulty, pebbles_count, max_pebbles_per_turn }
            ==> {
            &&& is_valid_configuration(pebbles_count, max_pebbles_per_turn) ==> {
                &&& *final(game) == spec_restart(
                    difficulty,
                    pebbles_count,
                    max_pebbles_per_turn,
                    random_first,
                    random_move,
                )
                &&& result == Ok::<Option<PebblesEvent>, GameError>(None)
            }
            &&& !is_valid_configuration(pebbles_count, max_pebbles_per_turn) ==> {
                &&& *final(game) == *old(game)
                &&& result == Err::<Option<PebblesEvent>, GameError>(
                    GameError::InvalidConfiguration,
                )
            }
        },
{
    match action {
        PebblesAction::GiveUp => {
            let event = give_up(game);
            Ok(Some(event))
        },
        PebblesAction::Turn(requested) => {
            match apply_turn(game, requested, random_move) {
                Ok(event) => Ok(Some(event)),
                Err(e) => Err(e),
            }
        },
        PebblesAction::Restart { difficulty, pebbles_count, max_pebbles_per_turn } => {
            match restart_game(
                difficulty,
                pebbles_count,
                max_pebbles_per_turn,
                random_first,
                random_move,
            ) {
                Ok(new_state) => {
                    *game = new_state;
                    Ok(None)
                },
                Err(e) => Err(e),
            }
        },
    }
}

/// Produces the queryable snapshot of the current state, after the same
/// configuration check every other validated operation makes.
pub fn state(game: &GameState) -> (result: Result<GameState, GameError>)
    ensures
        result == if is_valid_configuration(game.pebbles_count, game.max_pebbles_per_turn) {
            Ok::<GameState, GameError>(*game)
        } else {
            Err::<GameState, GameError>(GameError::InvalidConfiguration)
        },
{
    if !check_pebbles_input(game.pebbles_count, game.max_pebbles_per_turn) {
        return Err(GameError::InvalidConfiguration);
    }
    Ok(*game)
}

} // verus!
