//! The opponent strategy: how many pebbles the automated player removes,
//! and which party opens the game.
//!
//! Both decisions are pure functions of their inputs; the one random draw
//! either needs is handed in by the caller, so the host can substitute any
//! entropy source.

use vstd::prelude::*;

use crate::types::{is_valid_configuration, DifficultyLevel, GameState, Player};

verus! {

/// The first player chosen from one random draw: an even draw picks the
/// user, an odd one the program.
pub open spec fn spec_first_player(random: u32) -> Player {
    if random % 2 == 0 {
        Player::User
    } else {
        Player::Program
    }
}

/// The amount the automated player removes.
///
/// On easy difficulty it is `random % cap + 1`, uniform over `[1, cap]`
/// when the draw is uniform, blind to the pile size. On hard difficulty it
/// is the optimal move: take the whole pile when it fits in one turn;
/// otherwise take the residue of the pile modulo `cap + 1`, which leaves
/// the user on a losing multiple of `cap + 1`, or a minimal `1` when the
/// pile already sits on such a multiple and no forcing move exists.
pub open spec fn spec_auto_remove(
    difficulty: DifficultyLevel,
    pebbles_remaining: u32,
    max_pebbles_per_turn: u32,
    random: u32,
) -> int
    recommends
        max_pebbles_per_turn >= 1,
{
    match difficulty {
        DifficultyLevel::Easy => random as int % max_pebbles_per_turn as int + 1,
        DifficultyLevel::Hard => {
            if pebbles_remaining <= max_pebbles_per_turn {
                pebbles_remaining as int
            } else {
                let residue = pebbles_remaining as int % (max_pebbles_per_turn as int + 1);
                if residue == 0 {
                    1
                } else {
                    residue
                }
            }
        },
    }
}

/// Chooses who opens the game from one random draw.
pub fn choose_first_player(random: u32) -> (player: Player)
    ensures
        player == spec_first_player(random),
{
    match random % 2 {
        0 => Player::User,
        _ => Player::Program,
    }
}

/// Computes the automated player's move for the current state. The random
/// draw is consumed only on easy difficulty.
pub fn pebbles_auto_remove(game_state: &GameState, random: u32) -> (amount: u32)
    requires
        is_valid_configuration(game_state.pebbles_count, game_state.max_pebbles_per_turn),
    ensures
        amount as int == spec_auto_remove(
            game_state.difficulty,
            game_state.pebbles_remaining,
            game_state.max_pebbles_per_turn,
            random,
        ),
{
    match game_state.difficulty {
        DifficultyLevel::Easy => (random % game_state.max_pebbles_per_turn) + 1,
        DifficultyLevel::Hard => {
            let peb_rem = game_state.pebbles_remaining;
            if peb_rem <= game_state.max_pebbles_per_turn {
                peb_rem
            } else {
                let ret_peb = peb_rem % (game_state.max_pebbles_per_turn + 1);
                if ret_peb == 0 {
                    1
                } else {
                    ret_peb
                }
            }
        },
    }
}

} // verus!
