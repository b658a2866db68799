//! Move selection for the Program: a random easy strategy and the optimal
//! hard strategy of Nim theory.
//!
//! Both strategies are total functions of their arguments; the easy one
//! takes the random draw as a plain argument, so it is as deterministic to
//! the verifier as the hard one.

use vstd::arithmetic::div_mod::{lemma_fundamental_div_mod, lemma_mod_multiples_basic};
use vstd::arithmetic::mul::lemma_mul_is_commutative;
use vstd::math::min;
use vstd::prelude::*;

use crate::game::DifficultyLevel;

verus! {

/// Nim positions are judged modulo `max_pebbles_per_turn + 1`: a pile whose
/// size is a multiple of this value is lost for the player to move.
pub open spec fn turn_modulus(max_pebbles_per_turn: u32) -> int {
    max_pebbles_per_turn as int + 1
}

/// No turn may remove more pebbles than the rules allow, nor more than the
/// pile still holds.
pub open spec fn move_bound(max_pebbles_per_turn: u32, pebbles_remaining: u32) -> int {
    min(max_pebbles_per_turn as int, pebbles_remaining as int)
}

/// The hard strategy: remove the remainder of the pile modulo
/// `max_pebbles_per_turn + 1` when it is not zero (leaving the opponent a
/// lost position); otherwise no winning move exists, so remove the maximum
/// allowed.
pub open spec fn hard_move(max_pebbles_per_turn: u32, pebbles_remaining: u32) -> int {
    let remainder = pebbles_remaining as int % turn_modulus(max_pebbles_per_turn);
    if remainder != 0 {
        remainder
    } else {
        max_pebbles_per_turn as int
    }
}

/// The easy strategy: draw `rand % (max_pebbles_per_turn + 1) + 1`, then
/// clamp the draw so it never exceeds the rules or the pile.
pub open spec fn easy_move(max_pebbles_per_turn: u32, pebbles_remaining: u32, rand: u32) -> int {
    min(
        rand as int % turn_modulus(max_pebbles_per_turn) + 1,
        move_bound(max_pebbles_per_turn, pebbles_remaining),
    )
}

/// The move the Program makes from a pile of `pebbles_remaining` pebbles,
/// at the given difficulty, when the host supplied the random value `rand`
/// (which the hard strategy ignores).
pub open spec fn chosen_move(
    difficulty: DifficultyLevel,
    max_pebbles_per_turn: u32,
    pebbles_remaining: u32,
    rand: u32,
) -> int {
    match difficulty {
        DifficultyLevel::Easy => easy_move(max_pebbles_per_turn, pebbles_remaining, rand),
        DifficultyLevel::Hard => hard_move(max_pebbles_per_turn, pebbles_remaining),
    }
}

/// The optimal move of Nim theory. Whenever the pile is not a multiple of
/// `max_pebbles_per_turn + 1`, the pile left behind is such a multiple: a
/// lost position for the opponent.
pub fn find_best_move(max_pebbles_per_turn: u32, pebbles_remaining: u32) -> (r: u32)
    requires
        0 < max_pebbles_per_turn,
        0 < pebbles_remaining,
    ensures
        r as int == hard_move(max_pebbles_per_turn, pebbles_remaining),
        1 <= r <= max_pebbles_per_turn,
        r <= pebbles_remaining,
        pebbles_remaining as int % turn_modulus(max_pebbles_per_turn) != 0 ==> (pebbles_remaining
            - r) as int % turn_modulus(max_pebbles_per_turn) == 0,
{
    let modulus: u64 = max_pebbles_per_turn as u64 + 1;
    let remainder: u64 = pebbles_remaining as u64 % modulus;
    proof {
        lemma_fundamental_div_mod(pebbles_remaining as int, modulus as int);
    }
    if remainder > 0 {
        proof {
            let m = modulus as int;
            let q = pebbles_remaining as int / m;
            lemma_mod_multiples_basic(q, m);
            lemma_mul_is_commutative(m, q);
            assert(pebbles_remaining as int - remainder as int == q * m);
        }
        remainder as u32
    } else {
        proof {
            let m = modulus as int;
            let q = pebbles_remaining as int / m;
            lemma_mul_is_commutative(m, q);
            assert(pebbles_remaining as int == q * m);
            assert(q >= 1 && m * q >= m) by (nonlinear_arith)
                requires
                    q * m == pebbles_remaining as int,
                    pebbles_remaining as int > 0,
                    m > 0,
            ;
        }
        max_pebbles_per_turn
    }
}

/// The Program's move at either difficulty: at least one pebble, never more
/// than the rules allow, never more than the pile holds.
pub fn select_move(
    difficulty: DifficultyLevel,
    max_pebbles_per_turn: u32,
    pebbles_remaining: u32,
    rand: u32,
) -> (r: u32)
    requires
        0 < max_pebbles_per_turn,
        0 < pebbles_remaining,
    ensures
        r as int == chosen_move(difficulty, max_pebbles_per_turn, pebbles_remaining, rand),
        1 <= r <= max_pebbles_per_turn,
        r <= pebbles_remaining,
{
    match difficulty {
        DifficultyLevel::Easy => {
            let modulus: u64 = max_pebbles_per_turn as u64 + 1;
            let drawn: u64 = rand as u64 % modulus + 1;
            let bound: u32 = if max_pebbles_per_turn <= pebbles_remaining {
                max_pebbles_per_turn
            } else {
                pebbles_remaining
            };
            if drawn > bound as u64 {
                bound
            } else {
                drawn as u32
            }
        },
        DifficultyLevel::Hard => find_best_move(max_pebbles_per_turn, pebbles_remaining),
    }
}

} // verus!
