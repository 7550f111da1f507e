//! Round resolution for the choice game.
//!
//! A round pits two revealed choices against each other. Choices are the
//! integers 1, 2 and 3, with a cyclic dominance relation: 1 beats 3, 2 beats
//! 1, 3 beats 2. Equal choices are a draw. The resolver is a pure, total
//! function over the nine pairs of valid choices.

use vstd::prelude::*;

verus! {

/// Outcome of a single resolved round of the choice game.
#[derive(Clone, Copy, PartialEq, Eq, Structural, Debug)]
pub enum RoundOutcome {
    AWins,
    BWins,
    Draw,
}

/// A valid revealed choice: one of the three options.
pub open spec fn valid_choice(c: u8) -> bool {
    1 <= c <= 3
}

/// The cyclic dominance relation: choice `a` beats choice `b`.
pub open spec fn beats(a: u8, b: u8) -> bool {
    (a == 1 && b == 3) || (a == 2 && b == 1) || (a == 3 && b == 2)
}

/// What a round with revealed choices `a` and `b` resolves to.
pub open spec fn round_outcome(a: u8, b: u8) -> RoundOutcome {
    if a == b {
        RoundOutcome::Draw
    } else if beats(a, b) {
        RoundOutcome::AWins
    } else {
        RoundOutcome::BWins
    }
}

/// Resolves one round from the two revealed choices.
pub fn resolve_round(a: u8, b: u8) -> (r: RoundOutcome)
    requires
        valid_choice(a),
        valid_choice(b),
    ensures
        r == round_outcome(a, b),
{
    if a == b {
        RoundOutcome::Draw
    } else if (a == 1 && b == 3) || (a == 2 && b == 1) || (a == 3 && b == 2) {
        RoundOutcome::AWins
    } else {
        RoundOutcome::BWins
    }
}

/// Over valid choices the dominance relation is antisymmetric and total on
/// distinct pairs: exactly one side wins every non-drawn round.
pub proof fn lemma_round_outcome_total(a: u8, b: u8)
    requires
        valid_choice(a),
        valid_choice(b),
    ensures
        a == b <==> round_outcome(a, b) == RoundOutcome::Draw,
        a != b ==> (beats(a, b) <==> !beats(b, a)),
        round_outcome(a, b) == RoundOutcome::AWins <==> round_outcome(b, a) == RoundOutcome::BWins,
{
}

} // verus!
