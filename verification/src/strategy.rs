//! Strategies: decision rules that map the history of a game to the next move.

use crate::choice::CooperateOrDefect;
use vstd::prelude::*;

verus! {

/// A strategy that a player follows when playing the repeated prisoners'
/// dilemma against the same opponent.
pub trait Strategy {
    /// The name under which the strategy is reported.
    const NAME: &'static str;

    /// Whether the strategy may answer the given histories with `choice`.
    /// A strategy that does not say allows every move.
    open spec fn allows(
        my_moves: Seq<CooperateOrDefect>,
        their_moves: Seq<CooperateOrDefect>,
        choice: CooperateOrDefect,
    ) -> bool {
        true
    }

    /// Chooses the move of the next round from the moves of all rounds so far.
    fn next_move(my_moves: &[CooperateOrDefect], their_moves: &[CooperateOrDefect]) -> (choice:
        CooperateOrDefect)
        requires
            my_moves@.len() == their_moves@.len(),
        ensures
            Self::allows(my_moves@, their_moves@, choice),
    ;
}

/// One of the simplest strategies: cooperate, whatever happened.
pub struct AlwaysCooperate;

impl Strategy for AlwaysCooperate {
    const NAME: &'static str = "Always Cooperate";

    open spec fn allows(
        my_moves: Seq<CooperateOrDefect>,
        their_moves: Seq<CooperateOrDefect>,
        choice: CooperateOrDefect,
    ) -> bool {
        choice == CooperateOrDefect::Cooperate
    }

    fn next_move(_my_moves: &[CooperateOrDefect], _their_moves: &[CooperateOrDefect]) -> (choice:
        CooperateOrDefect) {
        CooperateOrDefect::Cooperate
    }
}

/// One of the simplest strategies: defect, whatever happened.
pub struct AlwaysDefect;

impl Strategy for AlwaysDefect {
    const NAME: &'static str = "Always Defect";

    open spec fn allows(
        my_moves: Seq<CooperateOrDefect>,
        their_moves: Seq<CooperateOrDefect>,
        choice: CooperateOrDefect,
    ) -> bool {
        choice == CooperateOrDefect::Defect
    }

    fn next_move(_my_moves: &[CooperateOrDefect], _their_moves: &[CooperateOrDefect]) -> (choice:
        CooperateOrDefect) {
        CooperateOrDefect::Defect
    }
}

/// Cooperate in the first round, then mirror the opponent's previous move.
pub struct TitForTat;

impl Strategy for TitForTat {
    const NAME: &'static str = "Tit For Tat";

    open spec fn allows(
        my_moves: Seq<CooperateOrDefect>,
        their_moves: Seq<CooperateOrDefect>,
        choice: CooperateOrDefect,
    ) -> bool {
        if their_moves.len() == 0 {
            choice == CooperateOrDefect::Cooperate
        } else {
            choice == their_moves.last()
        }
    }

    fn next_move(_my_moves: &[CooperateOrDefect], their_moves: &[CooperateOrDefect]) -> (choice:
        CooperateOrDefect) {
        let rounds: usize = their_moves.len();
        if rounds == 0 {
            CooperateOrDefect::Cooperate
        } else {
            their_moves[rounds - 1]
        }
    }
}

/// Cooperate until the opponent defects for the first time, then defect
/// forever.
pub struct Grudger;

impl Strategy for Grudger {
    const NAME: &'static str = "Grudger";

    open spec fn allows(
        my_moves: Seq<CooperateOrDefect>,
        their_moves: Seq<CooperateOrDefect>,
        choice: CooperateOrDefect,
    ) -> bool {
        if their_moves.contains(CooperateOrDefect::Defect) {
            choice == CooperateOrDefect::Defect
        } else {
            choice == CooperateOrDefect::Cooperate
        }
    }

    fn next_move(_my_moves: &[CooperateOrDefect], their_moves: &[CooperateOrDefect]) -> (choice:
        CooperateOrDefect) {
        let rounds: usize = their_moves.len();
        let mut round: usize = 0;
        while round < rounds
            invariant
                round <= rounds,
                rounds == their_moves@.len(),
                forall|earlier: int|
                    0 <= earlier < round ==> their_moves@[earlier] == CooperateOrDefect::Cooperate,
            decreases rounds - round,
        {
            if their_moves[round] == CooperateOrDefect::Defect {
                return CooperateOrDefect::Defect;
            }
            round += 1;
        }
        CooperateOrDefect::Cooperate
    }
}

} // verus!
