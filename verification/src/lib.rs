//! A two-player, turn-based pebble game in the Nim family.
//!
//! Two players, the User and the Program, alternately remove between 1 and
//! `max_pebbles_per_turn` pebbles from a shared pile; whoever removes the
//! last pebble wins. The Program plays with one of two difficulty levels:
//! an easy strategy driven by a random draw, and a hard strategy that plays
//! the optimal move of Nim theory.
//!
//! The crate is a pure state machine over [`game::GameState`]: the caller
//! owns the state, feeds commands in through [`engine::apply_action`], and
//! supplies every random value as a plain argument, so the whole engine is
//! deterministic and fully specified.

pub mod engine;
pub mod game;
pub mod strategy;
