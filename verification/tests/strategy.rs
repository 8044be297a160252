use prisoners_dilemma::CooperateOrDefect::{Cooperate, Defect};
use prisoners_dilemma::{
    AlwaysCooperate, AlwaysDefect, CooperateOrDefect, Grudger, Strategy, TitForTat,
};

/// Every pair of histories of equal length up to `rounds` rounds.
fn all_histories(rounds: usize) -> Vec<(Vec<CooperateOrDefect>, Vec<CooperateOrDefect>)> {
    let mut found = vec![(Vec::new(), Vec::new())];
    let mut latest = found.clone();
    for _ in 0..rounds {
        let mut longer = Vec::new();
        for (mine, theirs) in &latest {
            for a in [Cooperate, Defect] {
                for b in [Cooperate, Defect] {
                    let mut mine = mine.clone();
                    let mut theirs = theirs.clone();
                    mine.push(a);
                    theirs.push(b);
                    longer.push((mine, theirs));
                }
            }
        }
        found.extend(longer.iter().cloned());
        latest = longer;
    }
    found
}

#[test]
fn strategies_have_their_names() {
    assert_eq!(AlwaysCooperate::NAME, "Always Cooperate");
    assert_eq!(AlwaysDefect::NAME, "Always Defect");
    assert_eq!(TitForTat::NAME, "Tit For Tat");
    assert_eq!(Grudger::NAME, "Grudger");
}

#[test]
fn always_cooperate_ignores_the_history() {
    for (mine, theirs) in all_histories(4) {
        assert_eq!(AlwaysCooperate::next_move(&mine, &theirs), Cooperate);
    }
}

#[test]
fn always_defect_ignores_the_history() {
    for (mine, theirs) in all_histories(4) {
        assert_eq!(AlwaysDefect::next_move(&mine, &theirs), Defect);
    }
}

#[test]
fn tit_for_tat_opens_with_cooperation() {
    assert_eq!(TitForTat::next_move(&[], &[]), Cooperate);
}

#[test]
fn tit_for_tat_mirrors_the_previous_move_of_the_opponent() {
    assert_eq!(TitForTat::next_move(&[Cooperate], &[Defect]), Defect);
    assert_eq!(TitForTat::next_move(&[Defect], &[Cooperate]), Cooperate);
    assert_eq!(
        TitForTat::next_move(&[Cooperate, Defect, Defect], &[Defect, Defect, Cooperate]),
        Cooperate
    );
    assert_eq!(
        TitForTat::next_move(&[Cooperate, Cooperate, Cooperate], &[Cooperate, Cooperate, Defect]),
        Defect
    );
    for (mine, theirs) in all_histories(4) {
        let expected = theirs.last().copied().unwrap_or(Cooperate);
        assert_eq!(TitForTat::next_move(&mine, &theirs), expected);
    }
}

#[test]
fn grudger_cooperates_while_the_opponent_does() {
    assert_eq!(Grudger::next_move(&[], &[]), Cooperate);
    assert_eq!(Grudger::next_move(&[Cooperate], &[Cooperate]), Cooperate);
    assert_eq!(
        Grudger::next_move(&[Cooperate, Cooperate, Cooperate], &[Cooperate, Cooperate, Cooperate]),
        Cooperate
    );
    assert_eq!(Grudger::next_move(&[Defect, Defect], &[Cooperate, Cooperate]), Cooperate);
}

#[test]
fn grudger_never_forgives_a_defection() {
    assert_eq!(Grudger::next_move(&[Cooperate], &[Defect]), Defect);
    assert_eq!(Grudger::next_move(&[Cooperate, Defect], &[Defect, Cooperate]), Defect);
    assert_eq!(
        Grudger::next_move(
            &[Cooperate, Cooperate, Defect, Defect],
            &[Cooperate, Defect, Cooperate, Cooperate]
        ),
        Defect
    );
    for (mine, theirs) in all_histories(4) {
        let expected = if theirs.contains(&Defect) { Defect } else { Cooperate };
        assert_eq!(Grudger::next_move(&mine, &theirs), expected);
    }
}
