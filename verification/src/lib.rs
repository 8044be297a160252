//! The iterated prisoners' dilemma: two strategies play repeated rounds
//! against each other, each round a simultaneous choice to cooperate or to
//! defect, and a fixed payoff table scores the outcome.

pub mod choice;
pub mod game;
pub mod matchups;
pub mod payoff;
pub mod strategy;

pub use choice::CooperateOrDefect;
pub use game::RepeatedPrisonersDilemma;
pub use payoff::{
    PayoffMatrix, COOPERATE_PAYOUT, DEFECT_PAYOUT, GOT_NARCED_OUT_PAYOUT,
    NARC_OUT_OPPONENT_PAYOUT, NUM_TURNS,
};
pub use strategy::{AlwaysCooperate, AlwaysDefect, Grudger, Strategy, TitForTat};
