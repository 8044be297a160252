//! The repeated game: two strategies, two histories that grow in lockstep, and
//! the score of the rounds played so far.

use crate::choice::CooperateOrDefect;
use crate::payoff::{
    lemma_score_after_bounds, score_after, score_fits, total_score, PayoffMatrix,
};
use crate::strategy::Strategy;
use std::marker::PhantomData;
use vstd::prelude::*;

verus! {

/// Whether in round `round` (counted from 0) of the two histories each
/// player's move is one that its strategy allows after the rounds before it.
/// `S1` is asked with `player_1`'s moves as its own, `S2` with `player_2`'s.
pub open spec fn round_follows<S1: Strategy, S2: Strategy>(
    player_1: Seq<CooperateOrDefect>,
    player_2: Seq<CooperateOrDefect>,
    round: int,
) -> bool {
    &&& S1::allows(player_1.take(round), player_2.take(round), player_1[round])
    &&& S2::allows(player_2.take(round), player_1.take(round), player_2[round])
}

/// Whether the two histories are a game between `S1` and `S2`: they have the
/// same length, and every round follows the two strategies.
pub open spec fn played_by<S1: Strategy, S2: Strategy>(
    player_1: Seq<CooperateOrDefect>,
    player_2: Seq<CooperateOrDefect>,
) -> bool {
    &&& player_1.len() == player_2.len()
    &&& forall|round: int|
        0 <= round < player_1.len() ==> #[trigger] round_follows::<S1, S2>(
            player_1,
            player_2,
            round,
        )
}

/// A game stays a game when one more round is appended in which each player's
/// move is one that its strategy allows after the game so far.
pub proof fn lemma_played_by_push<S1: Strategy, S2: Strategy>(
    player_1: Seq<CooperateOrDefect>,
    player_2: Seq<CooperateOrDefect>,
    move_1: CooperateOrDefect,
    move_2: CooperateOrDefect,
)
    requires
        played_by::<S1, S2>(player_1, player_2),
        S1::allows(player_1, player_2, move_1),
        S2::allows(player_2, player_1, move_2),
    ensures
        played_by::<S1, S2>(player_1.push(move_1), player_2.push(move_2)),
{
    let longer_1 = player_1.push(move_1);
    let longer_2 = player_2.push(move_2);
    assert forall|round: int| 0 <= round < longer_1.len() implies #[trigger] round_follows::<
        S1,
        S2,
    >(longer_1, longer_2, round) by {
        if round < player_1.len() {
            assert(round_follows::<S1, S2>(player_1, player_2, round));
            assert(longer_1.take(round) =~= player_1.take(round));
            assert(longer_2.take(round) =~= player_2.take(round));
        } else {
            assert(longer_1.take(round) =~= player_1);
            assert(longer_2.take(round) =~= player_2);
        }
    }
}

/// An instance of the repeated prisoners' dilemma. The same two players play
/// against each other for several rounds. In each round they choose whether
/// to cooperate or defect, and they know the entire history of the game.
pub struct RepeatedPrisonersDilemma<S1, S2> {
    /// History of player 1's moves
    player_1_moves: Vec<CooperateOrDefect>,
    /// History of player 2's moves
    player_2_moves: Vec<CooperateOrDefect>,
    _ph_data: PhantomData<(S1, S2)>,
}

impl<S1, S2> RepeatedPrisonersDilemma<S1, S2> where S1: Strategy, S2: Strategy {
    /// The moves of player 1, oldest first.
    pub closed spec fn player_1_history(&self) -> Seq<CooperateOrDefect> {
        self.player_1_moves@
    }

    /// The moves of player 2, oldest first.
    pub closed spec fn player_2_history(&self) -> Seq<CooperateOrDefect> {
        self.player_2_moves@
    }

    /// The invariant of the game: its two histories are a game between `S1`
    /// and `S2`. Every game that this type hands out is well formed.
    pub open spec fn well_formed(&self) -> bool {
        played_by::<S1, S2>(self.player_1_history(), self.player_2_history())
    }

    /// A game in which no round has been played.
    pub fn new() -> (game: Self)
        ensures
            game.well_formed(),
            game.player_1_history() == Seq::<CooperateOrDefect>::empty(),
            game.player_2_history() == Seq::<CooperateOrDefect>::empty(),
    {
        Self { player_1_moves: Vec::new(), player_2_moves: Vec::new(), _ph_data: PhantomData }
    }

    /// Appends one round whose moves are given: `p1_move` to the history of
    /// player 1 and `p2_move` to that of player 2. Each must be a move that
    /// the player's strategy allows after the rounds played so far.
    pub fn record_round(&mut self, p1_move: CooperateOrDefect, p2_move: CooperateOrDefect)
        requires
            old(self).well_formed(),
            S1::allows(old(self).player_1_history(), old(self).player_2_history(), p1_move),
            S2::allows(old(self).player_2_history(), old(self).player_1_history(), p2_move),
        ensures
            final(self).well_formed(),
            final(self).player_1_history() == old(self).player_1_history().push(p1_move),
            final(self).player_2_history() == old(self).player_2_history().push(p2_move),
    {
        proof {
            lemma_played_by_push::<S1, S2>(
                self.player_1_moves@,
                self.player_2_moves@,
                p1_move,
                p2_move,
            );
        }
        self.player_1_moves.push(p1_move);
        self.player_2_moves.push(p2_move);
    }

    /// Plays one round: each strategy is asked with its own moves as its own
    /// and its opponent's as the opponent's, and the two answers are recorded.
    pub fn play_next_round(&mut self)
        requires
            old(self).well_formed(),
        ensures
            final(self).well_formed(),
            final(self).player_1_history().len() == old(self).player_1_history().len() + 1,
            final(self).player_2_history().len() == old(self).player_2_history().len() + 1,
            final(self).player_1_history().drop_last() == old(self).player_1_history(),
            final(self).player_2_history().drop_last() == old(self).player_2_history(),
            S1::allows(
                old(self).player_1_history(),
                old(self).player_2_history(),
                final(self).player_1_history().last(),
            ),
            S2::allows(
                old(self).player_2_history(),
                old(self).player_1_history(),
                final(self).player_2_history().last(),
            ),
    {
        let p1_move = S1::next_move(self.player_1_moves.as_slice(), self.player_2_moves.as_slice());
        let p2_move = S2::next_move(self.player_2_moves.as_slice(), self.player_1_moves.as_slice());

        self.record_round(p1_move, p2_move);
    }

    /// Plays `rounds` rounds, one after the other.
    pub fn play_rounds(&mut self, rounds: usize)
        requires
            old(self).well_formed(),
        ensures
            final(self).well_formed(),
            final(self).player_1_history().len() == old(self).player_1_history().len() + rounds,
            final(self).player_2_history().len() == old(self).player_2_history().len() + rounds,
            old(self).player_1_history().is_prefix_of(final(self).player_1_history()),
            old(self).player_2_history().is_prefix_of(final(self).player_2_history()),
    {
        let mut played: usize = 0;
        while played < rounds
            invariant
                played <= rounds,
                self.well_formed(),
                self.player_1_history().len() == old(self).player_1_history().len() + played,
                self.player_2_history().len() == old(self).player_2_history().len() + played,
                old(self).player_1_history().is_prefix_of(self.player_1_history()),
                old(self).player_2_history().is_prefix_of(self.player_2_history()),
            decreases rounds - played,
        {
            self.play_next_round();
            played += 1;
        }
    }

    /// The totals of both players over the rounds played so far. Both must
    /// fit in an `isize`; `lemma_score_after_bounds` bounds them by the number
    /// of rounds.
    pub fn calculate_score(&self) -> (score: (isize, isize))
        requires
            self.well_formed(),
            score_fits(total_score(self.player_1_history(), self.player_2_history())),
        ensures
            score.0 == total_score(self.player_1_history(), self.player_2_history()).0,
            score.1 == total_score(self.player_1_history(), self.player_2_history()).1,
    {
        let rounds: usize = self.player_1_moves.len();
        let mut total_1: i128 = 0;
        let mut total_2: i128 = 0;
        let mut round: usize = 0;
        while round < rounds
            invariant
                round <= rounds,
                rounds == self.player_1_moves@.len(),
                rounds == self.player_2_moves@.len(),
                total_1 == score_after(self.player_1_moves@, self.player_2_moves@, round as nat).0,
                total_2 == score_after(self.player_1_moves@, self.player_2_moves@, round as nat).1,
            decreases rounds - round,
        {
            let outcome = PayoffMatrix::score(
                self.player_1_moves[round],
                self.player_2_moves[round],
            );
            proof {
                lemma_score_after_bounds(
                    self.player_1_moves@,
                    self.player_2_moves@,
                    round as nat,
                );
            }
            total_1 = total_1 + outcome.0 as i128;
            total_2 = total_2 + outcome.1 as i128;
            round += 1;
        }
        (total_1 as isize, total_2 as isize)
    }

    /// The number of rounds played so far.
    pub fn rounds_played(&self) -> (rounds: usize)
        requires
            self.well_formed(),
        ensures
            rounds == self.player_1_history().len(),
            rounds == self.player_2_history().len(),
    {
        self.player_1_moves.len()
    }

    /// The moves of player 1 in the rounds played so far, oldest first.
    pub fn player_1_moves(&self) -> (moves: &[CooperateOrDefect])
        ensures
            moves@ == self.player_1_history(),
    {
        self.player_1_moves.as_slice()
    }

    /// The moves of player 2 in the rounds played so far, oldest first.
    pub fn player_2_moves(&self) -> (moves: &[CooperateOrDefect])
        ensures
            moves@ == self.player_2_history(),
    {
        self.player_2_moves.as_slice()
    }
}

} // verus!
