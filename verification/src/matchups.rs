//! What particular pairings of strategies play against each other.

use crate::choice::CooperateOrDefect;
use crate::game::{played_by, round_follows};
use crate::payoff::{score_after, total_score};
use crate::strategy::{AlwaysCooperate, AlwaysDefect, TitForTat};
use vstd::prelude::*;

verus! {

/// A cooperation in round 0, a defection in every other round.
pub open spec fn first_or_defect(round: int) -> CooperateOrDefect {
    if round == 0 {
        CooperateOrDefect::Cooperate
    } else {
        CooperateOrDefect::Defect
    }
}

/// Whether the history is one cooperation followed by defections only.
pub open spec fn cooperates_once_then_defects(moves: Seq<CooperateOrDefect>) -> bool {
    forall|round: int| 0 <= round < moves.len() ==> #[trigger] moves[round] == first_or_defect(round)
}

/// Whether every move of the history is a cooperation.
pub open spec fn always_cooperates(moves: Seq<CooperateOrDefect>) -> bool {
    forall|round: int|
        0 <= round < moves.len() ==> #[trigger] moves[round] == CooperateOrDefect::Cooperate
}

/// Whether every move of the history is a defection.
pub open spec fn always_defects(moves: Seq<CooperateOrDefect>) -> bool {
    forall|round: int|
        0 <= round < moves.len() ==> #[trigger] moves[round] == CooperateOrDefect::Defect
}

/// Each round in which player 1 cooperates and player 2 defects costs player 1
/// five points and gives player 2 twenty.
proof fn lemma_score_of_cooperating_with_a_defector(
    cooperator: Seq<CooperateOrDefect>,
    defector: Seq<CooperateOrDefect>,
    rounds: nat,
)
    requires
        rounds <= cooperator.len(),
        rounds <= defector.len(),
        always_cooperates(cooperator),
        always_defects(defector),
    ensures
        score_after(cooperator, defector, rounds).0 == -5 * rounds,
        score_after(cooperator, defector, rounds).1 == 20 * rounds,
    decreases rounds,
{
    if rounds > 0 {
        lemma_score_of_cooperating_with_a_defector(cooperator, defector, (rounds - 1) as nat);
    }
}

/// Always cooperate against always defect: every round is a cooperation
/// answered by a defection, and after `n` rounds the totals are `-5 * n` and
/// `20 * n`.
pub proof fn lemma_always_cooperate_against_always_defect(
    always_cooperate: Seq<CooperateOrDefect>,
    always_defect: Seq<CooperateOrDefect>,
)
    requires
        played_by::<AlwaysCooperate, AlwaysDefect>(always_cooperate, always_defect),
    ensures
        always_cooperates(always_cooperate),
        always_defects(always_defect),
        total_score(always_cooperate, always_defect).0 == -5 * always_cooperate.len(),
        total_score(always_cooperate, always_defect).1 == 20 * always_cooperate.len(),
{
    assert forall|round: int| 0 <= round < always_cooperate.len() implies #[trigger] always_cooperate[round]
        == CooperateOrDefect::Cooperate by {
        assert(round_follows::<AlwaysCooperate, AlwaysDefect>(always_cooperate, always_defect, round));
    }
    assert forall|round: int| 0 <= round < always_defect.len() implies #[trigger] always_defect[round]
        == CooperateOrDefect::Defect by {
        assert(round_follows::<AlwaysCooperate, AlwaysDefect>(always_cooperate, always_defect, round));
    }
    lemma_score_of_cooperating_with_a_defector(
        always_cooperate,
        always_defect,
        always_cooperate.len(),
    );
}

/// Tit for tat as player 1 against a player 2 who always defects: it
/// cooperates in the first round and defects in every round after it.
pub proof fn lemma_tit_for_tat_against_always_defect(
    tit_for_tat: Seq<CooperateOrDefect>,
    always_defect: Seq<CooperateOrDefect>,
)
    requires
        played_by::<TitForTat, AlwaysDefect>(tit_for_tat, always_defect),
    ensures
        always_defects(always_defect),
        cooperates_once_then_defects(tit_for_tat),
{
    assert forall|round: int| 0 <= round < always_defect.len() implies #[trigger] always_defect[round]
        == CooperateOrDefect::Defect by {
        assert(round_follows::<TitForTat, AlwaysDefect>(tit_for_tat, always_defect, round));
    }
    assert forall|round: int| 0 <= round < tit_for_tat.len() implies #[trigger] tit_for_tat[round]
        == first_or_defect(round) by {
        assert(round_follows::<TitForTat, AlwaysDefect>(tit_for_tat, always_defect, round));
        if round > 0 {
            assert(always_defect.take(round).last() == always_defect[round - 1]);
        }
    }
}

/// The same with the seats swapped: tit for tat as player 2 mirrors player
/// 1, who always defects, and not its own moves.
pub proof fn lemma_always_defect_against_tit_for_tat(
    always_defect: Seq<CooperateOrDefect>,
    tit_for_tat: Seq<CooperateOrDefect>,
)
    requires
        played_by::<AlwaysDefect, TitForTat>(always_defect, tit_for_tat),
    ensures
        always_defects(always_defect),
        cooperates_once_then_defects(tit_for_tat),
{
    assert forall|round: int| 0 <= round < always_defect.len() implies #[trigger] always_defect[round]
        == CooperateOrDefect::Defect by {
        assert(round_follows::<AlwaysDefect, TitForTat>(always_defect, tit_for_tat, round));
    }
    assert forall|round: int| 0 <= round < tit_for_tat.len() implies #[trigger] tit_for_tat[round]
        == first_or_defect(round) by {
        assert(round_follows::<AlwaysDefect, TitForTat>(always_defect, tit_for_tat, round));
        if round > 0 {
            assert(always_defect.take(round).last() == always_defect[round - 1]);
        }
    }
}

} // verus!
