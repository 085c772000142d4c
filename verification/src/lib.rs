//! Turn mechanics and scoring engine of a single-player Yahtzee-style dice
//! game: the dice roll/reroll state machine with its roll budget, the
//! thirteen-category scorecard with write-once commit semantics, and the thin
//! turn controller that binds the two.

pub mod dice;
pub mod score;
pub mod app;
