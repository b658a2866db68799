//! Gameplay scenarios: turns, counter-turns, wins, resignation, restarts,
//! and the strategy formulas on concrete values.

use pebbles_game::engine::{apply_action, check_winner, get_state, initialize};
use pebbles_game::game::{
    ConfigError, DifficultyLevel, GameState, PebblesAction, PebblesEvent, PebblesInit, Player,
};
use pebbles_game::strategy::{find_best_move, select_move};

fn hard_game(pebbles_count: u32, max_pebbles_per_turn: u32) -> GameState {
    GameState {
        pebbles_count,
        max_pebbles_per_turn,
        pebbles_remaining: pebbles_count,
        difficulty: DifficultyLevel::Hard,
        first_player: Player::User,
        winner: None,
    }
}

/// The hard strategy removes the pile's remainder modulo `k + 1` when that
/// remainder is not zero, and the maximum allowed otherwise.
#[test]
fn hard_strategy_formula() {
    assert_eq!(find_best_move(3, 10), 2);
    assert_eq!(find_best_move(3, 8), 3);
    assert_eq!(find_best_move(2, 9), 2);
    assert_eq!(find_best_move(5, 4), 4);
}

/// After a hard move from a pile with a non-zero remainder, the pile is a
/// multiple of `k + 1`: a lost position for the opponent.
#[test]
fn hard_strategy_leaves_losing_position() {
    for remaining in 1u32..=30 {
        let k: u32 = 3;
        if remaining % (k + 1) != 0 {
            let taken: u32 = find_best_move(k, remaining);
            assert_eq!((remaining - taken) % (k + 1), 0);
        }
    }
}

/// The easy strategy draws `rand % (k + 1) + 1` and clamps the draw to the
/// pile.
#[test]
fn easy_strategy_formula_and_clamp() {
    assert_eq!(select_move(DifficultyLevel::Easy, 3, 10, 5), 2);
    // A draw of `3 % 4 + 1 = 4` is clamped to the per-turn bound of three.
    assert_eq!(select_move(DifficultyLevel::Easy, 3, 10, 3), 3);
    // The same draw from a pile of two is clamped to the pile.
    assert_eq!(select_move(DifficultyLevel::Easy, 3, 2, 3), 2);
}

/// Whoever removes the last pebble wins; otherwise the game goes on.
#[test]
fn check_winner_on_empty_and_nonempty_pile() {
    assert_eq!(check_winner(Player::User, 0), Some(Player::User));
    assert_eq!(check_winner(Player::Program, 0), Some(Player::Program));
    assert_eq!(check_winner(Player::User, 5), None);
}

/// With ten pebbles, three per turn and hard difficulty, the Program's
/// opening move removes `10 % 4 = 2` pebbles, leaving eight.
#[test]
fn hard_program_opening_move() {
    let init = PebblesInit {
        difficulty: DifficultyLevel::Hard,
        pebbles_count: 10,
        max_pebbles_per_turn: 3,
    };
    let state = initialize(init, 1, 0).unwrap();
    assert_eq!(state.first_player, Player::Program);
    assert_eq!(state.pebbles_remaining, 8);
    assert!(state.winner.is_none());
}

/// The Program wins on its opening move when it can empty the pile.
#[test]
fn program_wins_opening_move() {
    let init = PebblesInit {
        difficulty: DifficultyLevel::Hard,
        pebbles_count: 3,
        max_pebbles_per_turn: 3,
    };
    let state = initialize(init, 1, 0).unwrap();
    assert_eq!(state.pebbles_remaining, 0);
    assert_eq!(state.winner, Some(Player::Program));
}

/// A configuration that allows more pebbles per turn than the pile holds
/// is rejected.
#[test]
fn init_rejects_turn_bound_above_pile() {
    let init = PebblesInit {
        difficulty: DifficultyLevel::Easy,
        pebbles_count: 5,
        max_pebbles_per_turn: 6,
    };
    assert_eq!(initialize(init, 0, 0), Err(ConfigError::InvalidConfig));
}

/// A turn above the per-turn bound answers `InvalidMove` and changes
/// nothing.
#[test]
fn invalid_turn_leaves_state_unchanged() {
    let mut state = hard_game(10, 3);
    let before = get_state(&state);
    let event = apply_action(&mut state, PebblesAction::Turn(4), 7);
    assert_eq!(event, Ok(Some(PebblesEvent::InvalidMove)));
    assert_eq!(state, before);

    // A turn of zero pebbles and a turn above the pile are rejected too.
    let event = apply_action(&mut state, PebblesAction::Turn(0), 7);
    assert_eq!(event, Ok(Some(PebblesEvent::InvalidMove)));
    let event = apply_action(&mut state, PebblesAction::Turn(11), 7);
    assert_eq!(event, Ok(Some(PebblesEvent::InvalidMove)));
    assert_eq!(state, before);
}

/// A valid turn is answered by the Program's counter-turn, and the winner
/// stays unset while pebbles remain.
#[test]
fn valid_turn_gets_counter_turn() {
    let mut state = hard_game(10, 3);
    let event = apply_action(&mut state, PebblesAction::Turn(2), 0);
    // The Program finds 8 % 4 == 0 and removes the maximum, three.
    assert_eq!(event, Ok(Some(PebblesEvent::CounterTurn(3))));
    assert_eq!(state.pebbles_remaining, 5);
    assert!(state.winner.is_none());
}

/// The User wins by removing the last pebble.
#[test]
fn user_wins_by_taking_last_pebble() {
    let mut state = hard_game(3, 3);
    let event = apply_action(&mut state, PebblesAction::Turn(3), 0);
    assert_eq!(event, Ok(Some(PebblesEvent::Won(Player::User))));
    assert_eq!(state.pebbles_remaining, 0);
    assert_eq!(state.winner, Some(Player::User));
}

/// The Program wins when its counter-turn empties the pile.
#[test]
fn program_wins_by_counter_turn() {
    let mut state = hard_game(4, 3);
    let event = apply_action(&mut state, PebblesAction::Turn(1), 0);
    assert_eq!(event, Ok(Some(PebblesEvent::Won(Player::Program))));
    assert_eq!(state.pebbles_remaining, 0);
    assert_eq!(state.winner, Some(Player::Program));
}

/// The easy strategy never removes more pebbles than remain, even when the
/// raw draw is larger than the pile.
#[test]
fn easy_counter_turn_is_clamped_to_pile() {
    let mut state = GameState {
        difficulty: DifficultyLevel::Easy,
        ..hard_game(10, 3)
    };
    state.pebbles_remaining = 3;
    // After the User removes one, a draw of `3 % 4 + 1 = 4` is clamped to
    // the two remaining pebbles, so the Program empties the pile.
    let event = apply_action(&mut state, PebblesAction::Turn(1), 3);
    assert_eq!(event, Ok(Some(PebblesEvent::Won(Player::Program))));
    assert_eq!(state.pebbles_remaining, 0);
}

/// Giving up hands the Program the win at once and leaves the pile as it
/// was.
#[test]
fn give_up_keeps_pile_untouched() {
    let mut state = hard_game(10, 3);
    state.pebbles_remaining = 7;
    let event = apply_action(&mut state, PebblesAction::GiveUp, 9);
    assert_eq!(event, Ok(Some(PebblesEvent::Won(Player::Program))));
    assert_eq!(state.winner, Some(Player::Program));
    assert_eq!(state.pebbles_remaining, 7);
}

/// A finished game absorbs every command but `Restart`: no event, no
/// change.
#[test]
fn terminal_state_absorbs_commands() {
    let mut state = hard_game(3, 3);
    apply_action(&mut state, PebblesAction::Turn(3), 0).unwrap();
    assert_eq!(state.winner, Some(Player::User));
    let before = get_state(&state);

    assert_eq!(apply_action(&mut state, PebblesAction::Turn(1), 4), Ok(None));
    assert_eq!(state, before);
    assert_eq!(apply_action(&mut state, PebblesAction::GiveUp, 4), Ok(None));
    assert_eq!(state, before);
}

/// `Restart` replaces the whole state with a fresh game, even after a win,
/// and does not play an opening Program move.
#[test]
fn restart_replaces_state() {
    let mut state = hard_game(3, 3);
    apply_action(&mut state, PebblesAction::Turn(3), 0).unwrap();
    assert_eq!(state.winner, Some(Player::User));

    let restart = PebblesAction::Restart {
        difficulty: DifficultyLevel::Easy,
        pebbles_count: 7,
        max_pebbles_per_turn: 2,
    };
    // An odd draw picks the Program as first player; the pile is still
    // full, because a restart waits for the next turn.
    assert_eq!(apply_action(&mut state, restart, 1), Ok(None));
    assert_eq!(state.pebbles_count, 7);
    assert_eq!(state.max_pebbles_per_turn, 2);
    assert_eq!(state.pebbles_remaining, 7);
    assert_eq!(state.difficulty, DifficultyLevel::Easy);
    assert_eq!(state.first_player, Player::Program);
    assert!(state.winner.is_none());
}

/// An invalid `Restart` configuration fails fatally and commits nothing.
#[test]
fn restart_rejects_invalid_config() {
    let mut state = hard_game(10, 3);
    let before = get_state(&state);
    let restart = PebblesAction::Restart {
        difficulty: DifficultyLevel::Easy,
        pebbles_count: 5,
        max_pebbles_per_turn: 6,
    };
    assert_eq!(apply_action(&mut state, restart, 0), Err(ConfigError::InvalidConfig));
    assert_eq!(state, before);
}

/// A winner is recorded exactly when the pile is empty, for every state a
/// game without resignation passes through.
#[test]
fn winner_recorded_exactly_on_empty_pile() {
    let init = PebblesInit {
        difficulty: DifficultyLevel::Hard,
        pebbles_count: 9,
        max_pebbles_per_turn: 2,
    };
    let mut state = initialize(init, 0, 0).unwrap();
    loop {
        assert_eq!(state.winner.is_some(), state.pebbles_remaining == 0);
        if state.winner.is_some() {
            break;
        }
        let take: u32 = if state.pebbles_remaining >= 2 { 2 } else { 1 };
        apply_action(&mut state, PebblesAction::Turn(take), 5).unwrap();
    }
}
