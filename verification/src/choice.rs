//! The choice a player makes in a single round.

use vstd::prelude::*;

verus! {

/// The two moves of the single prisoners' dilemma.
#[derive(Clone, Copy, Debug, PartialEq, Eq, Structural)]
pub enum CooperateOrDefect {
    Cooperate,
    Defect,
}

} // verus!
