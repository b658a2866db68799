//! The data model of the pebble game: players, difficulty levels, the
//! commands a caller may send, the events the engine answers with, and the
//! game state itself together with its invariant.

use vstd::prelude::*;

verus! {

/// One of the two participants of a game.
#[derive(Clone, Copy, Debug, PartialEq, Eq, Structural)]
pub enum Player {
    User,
    Program,
}

/// How the Program chooses its moves.
#[derive(Clone, Copy, Debug, PartialEq, Eq, Structural)]
pub enum DifficultyLevel {
    Easy,
    Hard,
}

/// The configuration a new game is started from.
#[derive(Clone, Copy, Debug, PartialEq, Eq, Structural)]
pub struct PebblesInit {
    pub difficulty: DifficultyLevel,
    pub pebbles_count: u32,
    pub max_pebbles_per_turn: u32,
}

/// A command sent to a running game.
#[derive(Clone, Copy, Debug, PartialEq, Eq, Structural)]
pub enum PebblesAction {
    /// The User removes the given number of pebbles.
    Turn(u32),
    /// The User resigns; the Program wins at once.
    GiveUp,
    /// Throw the current game away and start a fresh one.
    Restart {
        difficulty: DifficultyLevel,
        pebbles_count: u32,
        max_pebbles_per_turn: u32,
    },
}

/// The engine's answer to a command.
#[derive(Clone, Copy, Debug, PartialEq, Eq, Structural)]
pub enum PebblesEvent {
    /// Somebody removed the last pebble (or the User resigned): the game is over.
    Won(Player),
    /// The Program answered the User's turn by removing this many pebbles.
    CounterTurn(u32),
    /// The User's turn broke the rules; the state is unchanged.
    InvalidMove,
}

/// The fatal error class: a game cannot be started from the given
/// configuration. Ordinary gameplay mistakes are not errors but the
/// [`PebblesEvent::InvalidMove`] event.
#[derive(Clone, Copy, Debug, PartialEq, Eq, Structural)]
pub enum ConfigError {
    InvalidConfig,
}

/// The full state of one game. Created by `engine::initialize`, mutated in
/// place by `engine::apply_action`, and replaced wholesale by a `Restart`
/// command.
#[derive(Clone, Copy, Debug, PartialEq, Eq)]
pub struct GameState {
    /// The original size of the pile; immutable within a game.
    pub pebbles_count: u32,
    /// The most pebbles one turn may remove; immutable within a game.
    pub max_pebbles_per_turn: u32,
    /// How many pebbles are still on the pile.
    pub pebbles_remaining: u32,
    /// The strategy the Program plays with.
    pub difficulty: DifficultyLevel,
    /// Who moved first in this game.
    pub first_player: Player,
    /// `Some` once the game is over; a terminal state absorbs every command
    /// but `Restart`.
    pub winner: Option<Player>,
}

/// A configuration can start a game iff the pile is not empty, a turn may
/// remove at least one pebble, and no turn may remove more pebbles than the
/// pile holds at the start.
pub open spec fn valid_config(pebbles_count: u32, max_pebbles_per_turn: u32) -> bool {
    0 < max_pebbles_per_turn <= pebbles_count
}

impl GameState {
    /// The invariant of every state the engine hands out: the configuration
    /// is valid, the pile never grows past its original size, and an empty
    /// pile always has a winner recorded.
    pub open spec fn wf(self) -> bool {
        &&& valid_config(self.pebbles_count, self.max_pebbles_per_turn)
        &&& self.pebbles_remaining <= self.pebbles_count
        &&& self.pebbles_remaining == 0 ==> self.winner is Some
    }

    /// A winner is recorded exactly when the pile is empty. This holds of
    /// every state the engine produces except those reached through
    /// `GiveUp`, which ends the game while pebbles remain.
    pub open spec fn winner_matches_pile(self) -> bool {
        self.winner is Some <==> self.pebbles_remaining == 0
    }
}

} // verus!
