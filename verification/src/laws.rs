//! Laws of the engine and the strategy, proved once and for all inputs:
//! the bounds of the opponent's moves, the forcing and finishing behaviour
//! of the optimal strategy, and how (re)initialization, turns and
//! concessions treat the state invariant and the winner flag.

use vstd::prelude::*;

use vstd::arithmetic::div_mod::{
    lemma_fundamental_div_mod, lemma_mod_bound, lemma_mod_multiples_basic,
};

use crate::engine::{saturating_sub_u32, spec_give_up, spec_restart, spec_turn};
use crate::strategy::spec_auto_remove;
use crate::types::{is_valid_configuration, DifficultyLevel, GameState, Player};

verus! {

/// An easy-mode move always removes between `1` and `max_pebbles_per_turn`
/// pebbles, whatever the random draw and whatever the pile holds.
pub proof fn lemma_easy_move_bound(pebbles_remaining: u32, max_pebbles_per_turn: u32, random: u32)
    requires
        max_pebbles_per_turn >= 1,
    ensures
        1 <= spec_auto_remove(
            DifficultyLevel::Easy,
            pebbles_remaining,
            max_pebbles_per_turn,
            random,
        ) <= max_pebbles_per_turn,
{
    lemma_mod_bound(random as int, max_pebbles_per_turn as int);
}

/// A hard-mode move, too, always removes between `1` and
/// `max_pebbles_per_turn` pebbles, as long as any pebble remains.
pub proof fn lemma_hard_move_bound(pebbles_remaining: u32, max_pebbles_per_turn: u32, random: u32)
    requires
        max_pebbles_per_turn >= 1,
        pebbles_remaining >= 1,
    ensures
        1 <= spec_auto_remove(
            DifficultyLevel::Hard,
            pebbles_remaining,
            max_pebbles_per_turn,
            random,
        ) <= max_pebbles_per_turn,
{
    if pebbles_remaining > max_pebbles_per_turn {
        lemma_mod_bound(pebbles_remaining as int, max_pebbles_per_turn as int + 1);
    }
}

/// Whatever the difficulty, a move of the automated player removes at
/// least one and at most `max_pebbles_per_turn` pebbles, as long as any
/// pebble remains.
pub proof fn lemma_auto_move_bound(
    difficulty: DifficultyLevel,
    pebbles_remaining: u32,
    max_pebbles_per_turn: u32,
    random: u32,
)
    requires
        max_pebbles_per_turn >= 1,
        pebbles_remaining >= 1,
    ensures
        1 <= spec_auto_remove(difficulty, pebbles_remaining, max_pebbles_per_turn, random)
            <= max_pebbles_per_turn,
{
    match difficulty {
        DifficultyLevel::Easy => lemma_easy_move_bound(
            pebbles_remaining,
            max_pebbles_per_turn,
            random,
        ),
        DifficultyLevel::Hard => lemma_hard_move_bound(
            pebbles_remaining,
            max_pebbles_per_turn,
            random,
        ),
    }
}

/// The forcing law of the optimal strategy: whenever the pile exceeds the
/// per-turn cap and does not already sit on a multiple of `cap + 1`, the
/// hard-mode move leaves the pile on an exact multiple of `cap + 1` — the
/// losing residue class for the user.
///
/// On a pile that is itself a multiple of `cap + 1` no forcing move
/// exists; the strategy concedes a single pebble, and the resulting pile
/// is then not such a multiple.
pub proof fn lemma_hard_forcing(pebbles_remaining: u32, max_pebbles_per_turn: u32, random: u32)
    requires
        max_pebbles_per_turn >= 1,
        pebbles_remaining > max_pebbles_per_turn,
        pebbles_remaining as int % (max_pebbles_per_turn as int + 1) != 0,
    ensures
        ({
            let amount = spec_auto_remove(
                DifficultyLevel::Hard,
                pebbles_remaining,
                max_pebbles_per_turn,
                random,
            );
            saturating_sub_u32(pebbles_remaining, amount) as int % (max_pebbles_per_turn as int
                + 1) == 0
        }),
{
    let divisor = max_pebbles_per_turn as int + 1;
    let amount = pebbles_remaining as int % divisor;
    lemma_mod_bound(pebbles_remaining as int, divisor);
    lemma_fundamental_div_mod(pebbles_remaining as int, divisor);
    let quotient = pebbles_remaining as int / divisor;
    assert(pebbles_remaining as int - amount == quotient * divisor);
    lemma_mod_multiples_basic(quotient, divisor);
}

/// The finishing law of the optimal strategy: whenever the whole pile fits
/// in one turn, the hard-mode move takes exactly the pile, and the pile
/// afterwards is empty.
pub proof fn lemma_hard_finishing(pebbles_remaining: u32, max_pebbles_per_turn: u32, random: u32)
    requires
        1 <= pebbles_remaining <= max_pebbles_per_turn,
    ensures
        spec_auto_remove(DifficultyLevel::Hard, pebbles_remaining, max_pebbles_per_turn, random)
            == pebbles_remaining as int,
        saturating_sub_u32(
            pebbles_remaining,
            spec_auto_remove(
                DifficultyLevel::Hard,
                pebbles_remaining,
                max_pebbles_per_turn,
                random,
            ),
        ) == 0u32,
{
}

/// After a (re)initialization with a playable configuration the state is
/// well formed: the configuration is kept, the pile holds at most
/// `pebbles_count` pebbles — and, since any opening move of the program
/// removes at most the cap, which is below the pile size, at least one
/// pebble as well. The winner slot is empty: a fresh game is never already
/// decided, and the opening move alone can never empty the pile.
pub proof fn lemma_restart_well_formed(
    difficulty: DifficultyLevel,
    pebbles_count: u32,
    max_pebbles_per_turn: u32,
    random_first: u32,
    random_move: u32,
)
    requires
        is_valid_configuration(pebbles_count, max_pebbles_per_turn),
    ensures
        ({
            let s = spec_restart(
                difficulty,
                pebbles_count,
                max_pebbles_per_turn,
                random_first,
                random_move,
            );
            &&& s.well_formed()
            &&& s.pebbles_count == pebbles_count
            &&& s.max_pebbles_per_turn == max_pebbles_per_turn
            &&& s.difficulty == difficulty
            &&& 1 <= s.pebbles_remaining <= s.pebbles_count
            &&& s.winner is None
        }),
{
    lemma_auto_move_bound(difficulty, pebbles_count, max_pebbles_per_turn, random_move);
}

/// A turn preserves the state invariant: the configuration is untouched
/// and the pile only shrinks, so it stays within its configured size.
pub proof fn lemma_turn_preserves_well_formed(state: GameState, requested: u32, random_move: u32)
    requires
        state.well_formed(),
    ensures
        ({
            let next = spec_turn(state, requested, random_move).0;
            &&& next.well_formed()
            &&& next.pebbles_count == state.pebbles_count
            &&& next.max_pebbles_per_turn == state.max_pebbles_per_turn
            &&& next.difficulty == state.difficulty
            &&& next.pebbles_remaining <= state.pebbles_remaining
        }),
{
    let clamped = if requested > state.max_pebbles_per_turn {
        state.max_pebbles_per_turn
    } else {
        requested
    };
    let after_user = saturating_sub_u32(state.pebbles_remaining, clamped as int);
    if after_user != 0 {
        lemma_auto_move_bound(
            state.difficulty,
            after_user,
            state.max_pebbles_per_turn,
            random_move,
        );
    }
}

/// The terminal state of a concession is a fixed point: one concession
/// records the program as the winner, a repeated one changes nothing at
/// all, and the invariant is untouched either way.
pub proof fn lemma_give_up_idempotent(state: GameState)
    ensures
        spec_give_up(state).winner == Some(Player::Program),
        spec_give_up(state).pebbles_remaining == state.pebbles_remaining,
        spec_give_up(spec_give_up(state)) == spec_give_up(state),
        state.well_formed() ==> spec_give_up(state).well_formed(),
{
}

} // verus!
