//! The game engine: start a game, apply one command, query the state.
//!
//! The engine is a pure state machine: it never draws randomness itself,
//! the host hands every random value in as an explicit `u32` argument. Each
//! operation is therefore a total function of its inputs, described exactly
//! by the spec functions [`initialized_state`] and [`step`].
//!
//! One deliberate asymmetry: [`initialize`] plays the Program's opening
//! move at once when the Program is drawn as first player, while a
//! `Restart` command only sets up the fresh game and waits for the next
//! `Turn`.

use vstd::prelude::*;

use crate::game::{
    ConfigError, DifficultyLevel, GameState, PebblesAction, PebblesEvent, PebblesInit, Player,
    valid_config,
};
use crate::strategy::{chosen_move, select_move};

verus! {

/// The first player is drawn by parity of a random value: an even draw
/// picks the User, an odd one the Program.
pub open spec fn first_player_of(rand: u32) -> Player {
    if rand % 2 == 0 {
        Player::User
    } else {
        Player::Program
    }
}

/// The state a game starts from, before any move: a full pile and no
/// winner.
pub open spec fn fresh_state(init: PebblesInit, first_player: Player) -> GameState {
    GameState {
        pebbles_count: init.pebbles_count,
        max_pebbles_per_turn: init.max_pebbles_per_turn,
        pebbles_remaining: init.pebbles_count,
        difficulty: init.difficulty,
        first_player,
        winner: None,
    }
}

/// The state `initialize` returns for a valid configuration: a fresh game,
/// with the Program's opening move already played when the Program was
/// drawn as first player. `rand_player` draws the first player and
/// `rand_move` drives an easy opening move.
pub open spec fn initialized_state(init: PebblesInit, rand_player: u32, rand_move: u32) -> GameState {
    let first_player = first_player_of(rand_player);
    let base = fresh_state(init, first_player);
    if first_player is Program {
        let taken = chosen_move(init.difficulty, init.max_pebbles_per_turn, init.pebbles_count, rand_move);
        let remaining = init.pebbles_count as int - taken;
        GameState {
            pebbles_remaining: remaining as u32,
            winner: if remaining == 0 {
                Some(Player::Program)
            } else {
                None
            },
            ..base
        }
    } else {
        base
    }
}

/// A turn is valid iff it removes at least one pebble, no more than the
/// rules allow, and no more than the pile holds.
pub open spec fn turn_is_valid(s: GameState, pebbles: u32) -> bool {
    &&& 1 <= pebbles
    &&& pebbles <= s.max_pebbles_per_turn
    &&& pebbles <= s.pebbles_remaining
}

/// What one command does to a game: the state after the command and the
/// engine's answer. This is the whole behaviour of [`apply_action`].
///
/// - A terminal state absorbs every command but `Restart`: nothing changes
///   and no event is emitted.
/// - An invalid `Turn` answers `InvalidMove` and changes nothing. A valid
///   one removes the User's pebbles; if the pile is now empty the User has
///   won, otherwise the Program answers with the configured strategy and
///   either wins in turn or reports its move as a `CounterTurn`.
/// - `GiveUp` makes the Program the winner at once; the pile is untouched.
/// - `Restart` re-validates its configuration as `initialize` does, fails
///   fatally on violation with the old state intact, and otherwise replaces
///   the state with a fresh game (without an opening Program move).
pub open spec fn step(s: GameState, action: PebblesAction, rand: u32) -> (GameState, Result<
    Option<PebblesEvent>,
    ConfigError,
>) {
    if s.winner is Some && !(action is Restart) {
        (s, Ok(None))
    } else {
        match action {
            PebblesAction::Turn(pebbles) => {
                if !turn_is_valid(s, pebbles) {
                    (s, Ok(Some(PebblesEvent::InvalidMove)))
                } else {
                    let after_user = (s.pebbles_remaining - pebbles) as u32;
                    if after_user == 0 {
                        (
                            GameState { pebbles_remaining: 0, winner: Some(Player::User), ..s },
                            Ok(Some(PebblesEvent::Won(Player::User))),
                        )
                    } else {
                        let taken = chosen_move(s.difficulty, s.max_pebbles_per_turn, after_user, rand);
                        let after_program = (after_user - taken) as u32;
                        (
                            GameState {
                                pebbles_remaining: after_program,
                                winner: if after_program == 0 {
                                    Some(Player::Program)
                                } else {
                                    None
                                },
                                ..s
                            },
                            Ok(Some(
                                if after_program == 0 {
                                    PebblesEvent::Won(Player::Program)
                                } else {
                                    PebblesEvent::CounterTurn(taken as u32)
                                },
                            )),
                        )
                    }
                }
            },
            PebblesAction::GiveUp => {
                (
                    GameState { winner: Some(Player::Program), ..s },
                    Ok(Some(PebblesEvent::Won(Player::Program))),
                )
            },
            PebblesAction::Restart { difficulty, pebbles_count, max_pebbles_per_turn } => {
                if !valid_config(pebbles_count, max_pebbles_per_turn) {
                    (s, Err(ConfigError::InvalidConfig))
                } else {
                    let init = PebblesInit { difficulty, pebbles_count, max_pebbles_per_turn };
                    (fresh_state(init, first_player_of(rand)), Ok(None))
                }
            },
        }
    }
}

/// Start a new game from `init`.
///
/// The configuration is rejected with `InvalidConfig` exactly when it
/// breaks `valid_config`; nothing is committed then. On success the state
/// is `initialized_state(init, rand_player, rand_move)`: the pile never
/// exceeds `pebbles_count`, and a winner is already recorded only when the
/// Program moved first and its opening move emptied the pile.
pub fn initialize(init: PebblesInit, rand_player: u32, rand_move: u32) -> (r: Result<
    GameState,
    ConfigError,
>)
    ensures
        r is Ok <==> valid_config(init.pebbles_count, init.max_pebbles_per_turn),
        r matches Ok(s) ==> s == initialized_state(init, rand_player, rand_move),
        r matches Ok(s) ==> s.wf() && s.winner_matches_pile(),
        r matches Ok(s) ==> s.pebbles_remaining <= init.pebbles_count,
        r matches Ok(s) ==> (s.winner is Some ==> s.first_player is Program
            && s.pebbles_remaining == 0),
        r matches Err(e) ==> e is InvalidConfig,
{
    if !(init.pebbles_count > 0 && init.max_pebbles_per_turn > 0 && init.max_pebbles_per_turn
        <= init.pebbles_count) {
        return Err(ConfigError::InvalidConfig);
    }
    let first_player = if rand_player % 2 == 0 {
        Player::User
    } else {
        Player::Program
    };
    let mut state = GameState {
        pebbles_count: init.pebbles_count,
        max_pebbles_per_turn: init.max_pebbles_per_turn,
        pebbles_remaining: init.pebbles_count,
        difficulty: init.difficulty,
        first_player,
        winner: None,
    };
    if first_player == Player::Program {
        let taken = select_move(
            state.difficulty,
            state.max_pebbles_per_turn,
            state.pebbles_remaining,
            rand_move,
        );
        state.pebbles_remaining = state.pebbles_remaining - taken;
        state.winner = check_winner(Player::Program, state.pebbles_remaining);
    }
    Ok(state)
}

/// Apply one command to a running game.
///
/// The state moves to `step(*old(state), action, rand)` exactly; the named
/// clauses below spell out the guarantees a caller leans on: terminal
/// states absorb everything but `Restart`, invalid turns change nothing,
/// giving up never touches the pile, the configuration of a game only
/// changes through `Restart`, and the winner-iff-empty-pile relation
/// survives every command except `GiveUp`.
pub fn apply_action(state: &mut GameState, action: PebblesAction, rand: u32) -> (r: Result<
    Option<PebblesEvent>,
    ConfigError,
>)
    requires
        old(state).wf(),
    ensures
        (*final(state), r) == step(*old(state), action, rand),
        final(state).wf(),
        old(state).winner is Some && !(action is Restart) ==> *final(state) == *old(state) && r
            == Ok::<Option<PebblesEvent>, ConfigError>(None),
        action matches PebblesAction::Turn(pebbles) && old(state).winner is None && !turn_is_valid(
            *old(state),
            pebbles,
        ) ==> *final(state) == *old(state) && r == Ok::<Option<PebblesEvent>, ConfigError>(
            Some(PebblesEvent::InvalidMove),
        ),
        old(state).winner is None && action is GiveUp ==> {
            &&& final(state).winner == Some(Player::Program)
            &&& final(state).pebbles_remaining == old(state).pebbles_remaining
            &&& r == Ok::<Option<PebblesEvent>, ConfigError>(
                Some(PebblesEvent::Won(Player::Program)),
            )
        },
        r is Err <==> (action matches PebblesAction::Restart {
            pebbles_count,
            max_pebbles_per_turn,
            ..
        } && !valid_config(pebbles_count, max_pebbles_per_turn)),
        r is Err ==> *final(state) == *old(state),
        !(action is Restart) ==> {
            &&& final(state).pebbles_count == old(state).pebbles_count
            &&& final(state).max_pebbles_per_turn == old(state).max_pebbles_per_turn
            &&& final(state).difficulty == old(state).difficulty
            &&& final(state).first_player == old(state).first_player
            &&& final(state).pebbles_remaining <= old(state).pebbles_remaining
        },
        old(state).winner_matches_pile() && !(action is GiveUp)
            ==> final(state).winner_matches_pile(),
{
    let game_over = state.winner.is_some();
    match action {
        PebblesAction::Turn(pebbles) => {
            if game_over {
                return Ok(None);
            }
            if pebbles == 0 || pebbles > state.max_pebbles_per_turn || pebbles
                > state.pebbles_remaining {
                return Ok(Some(PebblesEvent::InvalidMove));
            }
            state.pebbles_remaining = state.pebbles_remaining - pebbles;
            if state.pebbles_remaining == 0 {
                state.winner = Some(Player::User);
                return Ok(Some(PebblesEvent::Won(Player::User)));
            }
            let taken = select_move(
                state.difficulty,
                state.max_pebbles_per_turn,
                state.pebbles_remaining,
                rand,
            );
            state.pebbles_remaining = state.pebbles_remaining - taken;
            state.winner = check_winner(Player::Program, state.pebbles_remaining);
            if state.pebbles_remaining == 0 {
                Ok(Some(PebblesEvent::Won(Player::Program)))
            } else {
                Ok(Some(PebblesEvent::CounterTurn(taken)))
            }
        },
        PebblesAction::GiveUp => {
            if game_over {
                return Ok(None);
            }
            state.winner = Some(Player::Program);
            Ok(Some(PebblesEvent::Won(Player::Program)))
        },
        PebblesAction::Restart { difficulty, pebbles_count, max_pebbles_per_turn } => {
            if !(pebbles_count > 0 && max_pebbles_per_turn > 0 && max_pebbles_per_turn
                <= pebbles_count) {
                return Err(ConfigError::InvalidConfig);
            }
            let first_player = if rand % 2 == 0 {
                Player::User
            } else {
                Player::Program
            };
            *state = GameState {
                pebbles_count,
                max_pebbles_per_turn,
                pebbles_remaining: pebbles_count,
                difficulty,
                first_player,
                winner: None,
            };
            Ok(None)
        },
    }
}

/// Win detection after one move: whoever removed the last pebble wins, so
/// the mover is the winner exactly when the pile is now empty.
pub fn check_winner(last_mover: Player, pebbles_remaining: u32) -> (r: Option<Player>)
    ensures
        r == (if pebbles_remaining == 0 {
            Some(last_mover)
        } else {
            None::<Player>
        }),
{
    if pebbles_remaining == 0 {
        Some(last_mover)
    } else {
        None
    }
}

/// A read-only snapshot of the full game state.
pub fn get_state(state: &GameState) -> (r: GameState)
    ensures
        r == *state,
{
    *state
}

} // verus!
