//! The data model of the game: difficulty, players, requests, events, the
//! game state itself, and the one error the engine can raise.

use vstd::prelude::*;

verus! {

/// Difficulty of the automated opponent: on `Easy` it removes a random
/// amount each turn, on `Hard` it plays the optimal subtraction-game
/// strategy.
#[derive(Debug, Clone, Copy, PartialEq, Eq, Structural)]
pub enum DifficultyLevel {
    Easy,
    Hard,
}

/// One of the two parties of a game.
#[derive(Debug, Clone, Copy, PartialEq, Eq, Structural)]
pub enum Player {
    User,
    Program,
}

/// Parameters of an initialization request.
#[derive(Debug, Clone, Copy, PartialEq, Eq, Structural)]
pub struct PebblesInit {
    pub difficulty: DifficultyLevel,
    pub pebbles_count: u32,
    pub max_pebbles_per_turn: u32,
}

/// A request from the user: take pebbles, concede, or start the game over.
#[derive(Debug, Clone, Copy, PartialEq, Eq, Structural)]
pub enum PebblesAction {
    Turn(u32),
    GiveUp,
    Restart {
        difficulty: DifficultyLevel,
        pebbles_count: u32,
        max_pebbles_per_turn: u32,
    },
}

/// What the engine reports back after a turn or a concession: either the
/// pile left after the user's move, or the winner of the game.
#[derive(Debug, Clone, Copy, PartialEq, Eq, Structural)]
pub enum PebblesEvent {
    CounterTurn(u32),
    Won(Player),
}

/// The single mutable entity of the game.
///
/// `pebbles_count` and `max_pebbles_per_turn` are fixed at initialization;
/// `pebbles_remaining` only shrinks within a game; `winner` is `None` while
/// the game is in progress.
#[derive(Debug, Clone, Copy, PartialEq, Eq)]
pub struct GameState {
    pub pebbles_count: u32,
    pub max_pebbles_per_turn: u32,
    pub pebbles_remaining: u32,
    pub difficulty: DifficultyLevel,
    pub first_player: Player,
    pub winner: Option<Player>,
}

/// The only error the engine raises: the pile size and per-turn cap do not
/// form a playable configuration. Out-of-range turn amounts are never
/// rejected; they are clamped instead.
#[derive(Debug, Clone, Copy, PartialEq, Eq, Structural)]
pub enum GameError {
    InvalidConfiguration,
}

/// A configuration is playable iff the pile holds at least one pebble, a
/// turn may remove at least one pebble, and no single turn may empty a full
/// pile outright: `1 <= max_pebbles_per_turn < pebbles_count`.
pub open spec fn is_valid_configuration(pebbles_count: u32, max_pebbles_per_turn: u32) -> bool {
    &&& pebbles_count >= 1
    &&& max_pebbles_per_turn >= 1
    &&& max_pebbles_per_turn < pebbles_count
}

impl GameState {
    /// Invariant of every state the engine produces: the configuration is
    /// playable and the pile never exceeds its configured starting size.
    pub open spec fn well_formed(self) -> bool {
        &&& is_valid_configuration(self.pebbles_count, self.max_pebbles_per_turn)
        &&& self.pebbles_remaining <= self.pebbles_count
    }
}

impl Default for DifficultyLevel {
    /// The difficulty a host falls back to when none was given.
    fn default() -> (d: Self)
        ensures
            d == DifficultyLevel::Easy,
    {
        DifficultyLevel::Easy
    }
}

impl Default for Player {
    /// The party a host falls back to when none was chosen.
    fn default() -> (p: Self)
        ensures
            p == Player::User,
    {
        Player::User
    }
}

impl Default for GameState {
    /// The placeholder state a host may keep before any initialization; it
    /// is not playable, and every engine operation that validates rejects
    /// it with `InvalidConfiguration`.
    fn default() -> (s: Self)
        ensures
            s == (GameState {
                pebbles_count: 0u32,
                max_pebbles_per_turn: 0u32,
                pebbles_remaining: 0u32,
                difficulty: DifficultyLevel::Easy,
                first_player: Player::User,
                winner: None,
            }),
    {
        GameState {
            pebbles_count: 0,
            max_pebbles_per_turn: 0,
            pebbles_remaining: 0,
            difficulty: DifficultyLevel::Easy,
            first_player: Player::User,
            winner: None,
        }
    }
}

} // verus!
