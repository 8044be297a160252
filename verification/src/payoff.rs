//! The payoff table and the score of a whole history.

use crate::choice::CooperateOrDefect;
use vstd::prelude::*;

verus! {

/// The number of rounds that the prisoners' dilemma is repeated by default.
pub const NUM_TURNS: usize = 200;

/// The payout that both players get when they cooperate.
pub const COOPERATE_PAYOUT: isize = 10;

/// The payout that both players get when they defect.
pub const DEFECT_PAYOUT: isize = 2;

/// The payout you get when you narc out your opponent.
pub const NARC_OUT_OPPONENT_PAYOUT: isize = 20;

/// The payout you get when your opponent narcs you out.
pub const GOT_NARCED_OUT_PAYOUT: isize = -5;

/// The fixed table that maps the two moves of a round to the two payoffs.
pub struct PayoffMatrix;

impl PayoffMatrix {
    /// The payoffs of one round, first for the player who chose `mine`, then
    /// for the opponent who chose `theirs`.
    pub open spec fn payoff(mine: CooperateOrDefect, theirs: CooperateOrDefect) -> (int, int) {
        match (mine, theirs) {
            (CooperateOrDefect::Cooperate, CooperateOrDefect::Cooperate) => (10, 10),
            (CooperateOrDefect::Cooperate, CooperateOrDefect::Defect) => (-5, 20),
            (CooperateOrDefect::Defect, CooperateOrDefect::Cooperate) => (20, -5),
            (CooperateOrDefect::Defect, CooperateOrDefect::Defect) => (2, 2),
        }
    }

    /// Scores one round.
    pub fn score(mine: CooperateOrDefect, theirs: CooperateOrDefect) -> (outcome: (isize, isize))
        ensures
            outcome.0 == Self::payoff(mine, theirs).0,
            outcome.1 == Self::payoff(mine, theirs).1,
    {
        match (mine, theirs) {
            (CooperateOrDefect::Cooperate, CooperateOrDefect::Cooperate) => (
                COOPERATE_PAYOUT,
                COOPERATE_PAYOUT,
            ),
            (CooperateOrDefect::Cooperate, CooperateOrDefect::Defect) => (
                GOT_NARCED_OUT_PAYOUT,
                NARC_OUT_OPPONENT_PAYOUT,
            ),
            (CooperateOrDefect::Defect, CooperateOrDefect::Cooperate) => (
                NARC_OUT_OPPONENT_PAYOUT,
                GOT_NARCED_OUT_PAYOUT,
            ),
            (CooperateOrDefect::Defect, CooperateOrDefect::Defect) => (DEFECT_PAYOUT, DEFECT_PAYOUT),
        }
    }
}

/// The two totals after the first `rounds` rounds of a pair of histories: the
/// sums of the payoffs of `player_1[i]` against `player_2[i]` for `i` below
/// `rounds`.
pub open spec fn score_after(
    player_1: Seq<CooperateOrDefect>,
    player_2: Seq<CooperateOrDefect>,
    rounds: nat,
) -> (int, int)
    recommends
        rounds <= player_1.len(),
        rounds <= player_2.len(),
    decreases rounds,
{
    if rounds == 0 {
        (0, 0)
    } else {
        let earlier = score_after(player_1, player_2, (rounds - 1) as nat);
        let latest = PayoffMatrix::payoff(player_1[rounds - 1], player_2[rounds - 1]);
        (earlier.0 + latest.0, earlier.1 + latest.1)
    }
}

/// The two totals of a pair of histories of equal length.
pub open spec fn total_score(
    player_1: Seq<CooperateOrDefect>,
    player_2: Seq<CooperateOrDefect>,
) -> (int, int)
    recommends
        player_1.len() == player_2.len(),
{
    score_after(player_1, player_2, player_1.len())
}

/// Whether both totals can be held in an `isize`.
pub open spec fn score_fits(score: (int, int)) -> bool {
    &&& isize::MIN <= score.0 <= isize::MAX
    &&& isize::MIN <= score.1 <= isize::MAX
}

/// Swapping the two players of a round swaps their payoffs.
pub proof fn lemma_payoff_symmetric(a: CooperateOrDefect, b: CooperateOrDefect)
    ensures
        PayoffMatrix::payoff(a, b).0 == PayoffMatrix::payoff(b, a).1,
        PayoffMatrix::payoff(a, b).1 == PayoffMatrix::payoff(b, a).0,
{
}

/// No round pays less than -5 or more than 20, so neither total leaves the
/// range from `-5 * rounds` to `20 * rounds`.
pub proof fn lemma_score_after_bounds(
    player_1: Seq<CooperateOrDefect>,
    player_2: Seq<CooperateOrDefect>,
    rounds: nat,
)
    ensures
        -5 * rounds <= score_after(player_1, player_2, rounds).0 <= 20 * rounds,
        -5 * rounds <= score_after(player_1, player_2, rounds).1 <= 20 * rounds,
    decreases rounds,
{
    if rounds > 0 {
        lemma_score_after_bounds(player_1, player_2, (rounds - 1) as nat);
    }
}

/// The first rounds of a game score the same however the game goes on.
proof fn lemma_score_after_push(
    player_1: Seq<CooperateOrDefect>,
    player_2: Seq<CooperateOrDefect>,
    move_1: CooperateOrDefect,
    move_2: CooperateOrDefect,
    rounds: nat,
)
    requires
        rounds <= player_1.len(),
        rounds <= player_2.len(),
    ensures
        score_after(player_1.push(move_1), player_2.push(move_2), rounds) == score_after(
            player_1,
            player_2,
            rounds,
        ),
    decreases rounds,
{
    if rounds > 0 {
        lemma_score_after_push(player_1, player_2, move_1, move_2, (rounds - 1) as nat);
    }
}

/// One more round adds its payoffs to the totals and changes nothing else.
pub proof fn lemma_total_score_push(
    player_1: Seq<CooperateOrDefect>,
    player_2: Seq<CooperateOrDefect>,
    move_1: CooperateOrDefect,
    move_2: CooperateOrDefect,
)
    requires
        player_1.len() == player_2.len(),
    ensures
        total_score(player_1.push(move_1), player_2.push(move_2)).0 == total_score(
            player_1,
            player_2,
        ).0 + PayoffMatrix::payoff(move_1, move_2).0,
        total_score(player_1.push(move_1), player_2.push(move_2)).1 == total_score(
            player_1,
            player_2,
        ).1 + PayoffMatrix::payoff(move_1, move_2).1,
{
    lemma_score_after_push(player_1, player_2, move_1, move_2, player_1.len());
}

} // verus!
