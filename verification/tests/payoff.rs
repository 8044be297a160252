use prisoners_dilemma::{
    CooperateOrDefect, PayoffMatrix, COOPERATE_PAYOUT, DEFECT_PAYOUT, GOT_NARCED_OUT_PAYOUT,
    NARC_OUT_OPPONENT_PAYOUT, NUM_TURNS,
};

const BOTH: [CooperateOrDefect; 2] = [CooperateOrDefect::Cooperate, CooperateOrDefect::Defect];

#[test]
fn configuration_constants_have_their_values() {
    assert_eq!(NUM_TURNS, 200);
    assert_eq!(COOPERATE_PAYOUT, 10);
    assert_eq!(DEFECT_PAYOUT, 2);
    assert_eq!(NARC_OUT_OPPONENT_PAYOUT, 20);
    assert_eq!(GOT_NARCED_OUT_PAYOUT, -5);
}

#[test]
fn both_cooperate_pays_ten_each() {
    assert_eq!(
        PayoffMatrix::score(CooperateOrDefect::Cooperate, CooperateOrDefect::Cooperate),
        (10, 10)
    );
}

#[test]
fn cooperating_with_a_defector_pays_minus_five_and_twenty() {
    assert_eq!(
        PayoffMatrix::score(CooperateOrDefect::Cooperate, CooperateOrDefect::Defect),
        (-5, 20)
    );
}

#[test]
fn defecting_on_a_cooperator_pays_twenty_and_minus_five() {
    assert_eq!(
        PayoffMatrix::score(CooperateOrDefect::Defect, CooperateOrDefect::Cooperate),
        (20, -5)
    );
}

#[test]
fn both_defect_pays_two_each() {
    assert_eq!(
        PayoffMatrix::score(CooperateOrDefect::Defect, CooperateOrDefect::Defect),
        (2, 2)
    );
}

#[test]
fn score_is_symmetric_under_swapping_the_players() {
    for mine in BOTH {
        for theirs in BOTH {
            let (a, b) = PayoffMatrix::score(mine, theirs);
            let (c, d) = PayoffMatrix::score(theirs, mine);
            assert_eq!((a, b), (d, c));
        }
    }
}

#[test]
fn score_follows_the_configuration_constants() {
    assert_eq!(
        PayoffMatrix::score(CooperateOrDefect::Cooperate, CooperateOrDefect::Cooperate),
        (COOPERATE_PAYOUT, COOPERATE_PAYOUT)
    );
    assert_eq!(
        PayoffMatrix::score(CooperateOrDefect::Cooperate, CooperateOrDefect::Defect),
        (GOT_NARCED_OUT_PAYOUT, NARC_OUT_OPPONENT_PAYOUT)
    );
    assert_eq!(
        PayoffMatrix::score(CooperateOrDefect::Defect, CooperateOrDefect::Cooperate),
        (NARC_OUT_OPPONENT_PAYOUT, GOT_NARCED_OUT_PAYOUT)
    );
    assert_eq!(
        PayoffMatrix::score(CooperateOrDefect::Defect, CooperateOrDefect::Defect),
        (DEFECT_PAYOUT, DEFECT_PAYOUT)
    );
}

#[test]
fn moves_print_as_their_tags() {
    assert_eq!(format!("{:?}", CooperateOrDefect::Cooperate), "Cooperate");
    assert_eq!(format!("{:?}", CooperateOrDefect::Defect), "Defect");
    assert_eq!(
        format!("({:?}, {:?})", CooperateOrDefect::Cooperate, CooperateOrDefect::Defect),
        "(Cooperate, Defect)"
    );
}
