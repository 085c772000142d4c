//! The turn controller: binds the dice state machine to the scorecard.
//!
//! The controller is in `Normal` mode until the player starts composing a
//! reroll selection, which switches it to `Selecting`. Confirming or
//! cancelling the selection returns to `Normal`; a failed reroll counts as a
//! cancel. A category commit scores the current dice and resets the dice
//! state for the next turn.

use vstd::prelude::*;

use crate::dice::DiceState;
use crate::dice::dice_wf;
use crate::dice::valid_selection;
use crate::score::Score;
use crate::score::{upper_unset, lower_unset, upper_sum, commit_delta, opt_score};
use crate::score::{sum_of_face, dice_sum, is_yahtzee};
use crate::score::{
    aces_committed, twos_committed, threes_committed, fours_committed, fives_committed,
    sixes_committed,
};
use crate::score::{
    three_of_a_kind_committed, four_of_a_kind_committed, full_house_committed,
    small_straight_committed, large_straight_committed, yahtzee_committed, chance_committed,
};

verus! {

/// Whether the player is composing a reroll selection.
#[derive(Copy, Clone, Debug, PartialEq, Eq, Structural)]
pub enum InputMode {
    Normal,
    Selecting,
}

/// The whole game state: pending selection text, controller mode, the dice of
/// the current turn, and the scorecard of the game.
pub struct AppState {
    pub selection_input: String,
    pub input_mode: InputMode,
    pub dice_state: DiceState,
    pub score: Score,
}

/// The turn wind-down that follows a category commit: dice cleared, roll
/// counter back to zero, pending selection discarded, controller in `Normal`
/// mode, dice configuration kept.
pub open spec fn turn_reset(pre: AppState, post: AppState) -> bool {
    &&& post.dice_state.dice.0@.len() == 0
    &&& post.dice_state.number_of_rolls == 0
    &&& post.dice_state.number_of_dice == pre.dice_state.number_of_dice
    &&& post.dice_state.max_number_of_rolls == pre.dice_state.max_number_of_rolls
    &&& post.selection_input@ == Seq::<char>::empty()
    &&& post.input_mode == InputMode::Normal
    &&& (pre.dice_state.max_number_of_rolls >= 1 ==> post.dice_state.wf())
}

impl AppState {
    /// A fresh game: empty selection, `Normal` mode, a fresh turn, and a
    /// scorecard with nothing played.
    pub fn new() -> (s: AppState)
        ensures
            s.selection_input@ == Seq::<char>::empty(),
            s.input_mode == InputMode::Normal,
            s.dice_state.wf(),
            s.dice_state.dice.0@.len() == 0,
            s.dice_state.number_of_rolls == 0,
            s.dice_state.number_of_dice == 5,
            s.dice_state.max_number_of_rolls == 3,
            upper_unset(s.score.upper_section),
            lower_unset(s.score.lower_section),
    {
        AppState {
            selection_input: String::new(),
            input_mode: InputMode::Normal,
            dice_state: DiceState::new(),
            score: Score::new(),
        }
    }

    /// Discards everything, scorecard included, and starts a fresh game.
    pub fn new_game(&mut self)
        ensures
            final(self).selection_input@ == Seq::<char>::empty(),
            final(self).input_mode == InputMode::Normal,
            final(self).dice_state.wf(),
            final(self).dice_state.dice.0@.len() == 0,
            final(self).dice_state.number_of_rolls == 0,
            final(self).dice_state.number_of_dice == 5,
            final(self).dice_state.max_number_of_rolls == 3,
            upper_unset(final(self).score.upper_section),
            lower_unset(final(self).score.lower_section),
    {
        *self = AppState::new();
    }

    /// Ends the turn: clears dice and selection, keeps the scorecard.
    pub fn reset(&mut self)
        ensures
            turn_reset(*old(self), *final(self)),
            final(self).score == old(self).score,
    {
        self.dice_state.reset();
        self.selection_input = String::new();
        self.input_mode = InputMode::Normal;
    }

    /// Rolls all dice, if the budget of the turn allows another roll.
    pub fn roll_all_dice(&mut self)
        ensures
            final(self).selection_input == old(self).selection_input,
            final(self).input_mode == old(self).input_mode,
            final(self).score == old(self).score,
            final(self).dice_state.number_of_dice == old(self).dice_state.number_of_dice,
            final(self).dice_state.max_number_of_rolls == old(self).dice_state.max_number_of_rolls,
            old(self).dice_state.number_of_rolls >= old(self).dice_state.max_number_of_rolls
                ==> final(self).dice_state == old(self).dice_state,
            old(self).dice_state.number_of_rolls < old(self).dice_state.max_number_of_rolls ==> {
                &&& final(self).dice_state.number_of_rolls == old(self).dice_state.number_of_rolls
                    + 1
                &&& final(self).dice_state.dice.0@.len() == old(self).dice_state.number_of_dice
                &&& dice_wf(final(self).dice_state.dice.0@)
            },
            old(self).dice_state.wf() ==> final(self).dice_state.wf(),
    {
        self.dice_state.roll_all_dice()
    }

    /// Starts composing a reroll selection, but only once dice are on the
    /// table.
    pub fn select_dice_to_reroll(&mut self)
        ensures
            final(self).input_mode == (if old(self).dice_state.dice.0@.len() > 0 {
                InputMode::Selecting
            } else {
                old(self).input_mode
            }),
            final(self).selection_input == old(self).selection_input,
            final(self).dice_state == old(self).dice_state,
            final(self).score == old(self).score,
    {
        if self.dice_state.dice.0.len() > 0 {
            self.input_mode = InputMode::Selecting;
        }
    }

    /// Discards the pending selection and returns to `Normal` mode.
    pub fn cancel_selection_mode(&mut self)
        ensures
            final(self).selection_input@ == Seq::<char>::empty(),
            final(self).input_mode == InputMode::Normal,
            final(self).dice_state == old(self).dice_state,
            final(self).score == old(self).score,
    {
        self.selection_input = String::new();
        self.input_mode = InputMode::Normal;
    }

    /// Confirms the pending selection: attempts the reroll with the
    /// translated dice positions, `None` standing for a selection string that
    /// failed to translate. Whatever the outcome, the selection is discarded
    /// and the controller returns to `Normal` mode; a refused reroll leaves
    /// the dice and the roll counter untouched.
    pub fn reroll_selected_dice(&mut self, dice_ids_to_reroll: Option<Vec<usize>>)
        ensures
            final(self).selection_input@ == Seq::<char>::empty(),
            final(self).input_mode == InputMode::Normal,
            final(self).score == old(self).score,
            final(self).dice_state.number_of_dice == old(self).dice_state.number_of_dice,
            final(self).dice_state.max_number_of_rolls == old(self).dice_state.max_number_of_rolls,
            old(self).dice_state.wf() ==> final(self).dice_state.wf(),
            dice_ids_to_reroll is None ==> {
                &&& final(self).dice_state.dice.0@ == old(self).dice_state.dice.0@
                &&& final(self).dice_state.number_of_rolls == old(self).dice_state.number_of_rolls
            },
            dice_ids_to_reroll matches Some(ids) ==> {
                &&& !valid_selection(ids@, old(self).dice_state.dice.0@.len() as int) ==> {
                    &&& final(self).dice_state.dice.0@ == old(self).dice_state.dice.0@
                    &&& final(self).dice_state.number_of_rolls == old(
                        self,
                    ).dice_state.number_of_rolls
                }
                &&& (valid_selection(ids@, old(self).dice_state.dice.0@.len() as int)
                    && old(self).dice_state.number_of_rolls >= old(
                    self,
                ).dice_state.max_number_of_rolls) ==> {
                    &&& final(self).dice_state.dice.0@ == old(self).dice_state.dice.0@
                    &&& final(self).dice_state.number_of_rolls == old(
                        self,
                    ).dice_state.number_of_rolls
                }
                &&& (valid_selection(ids@, old(self).dice_state.dice.0@.len() as int)
                    && old(self).dice_state.number_of_rolls < old(
                    self,
                ).dice_state.max_number_of_rolls) ==> {
                    &&& final(self).dice_state.number_of_rolls == old(
                        self,
                    ).dice_state.number_of_rolls + 1
                    &&& final(self).dice_state.dice.0@.len() == old(self).dice_state.dice.0@.len()
                    &&& forall|p: int|
                        0 <= p < old(self).dice_state.dice.0@.len() && !ids@.contains(p as usize)
                            ==> final(self).dice_state.dice.0@[p] == old(
                            self,
                        ).dice_state.dice.0@[p]
                    &&& forall|p: int|
                        0 <= p < old(self).dice_state.dice.0@.len() && ids@.contains(p as usize)
                            ==> 1 <= #[trigger] final(self).dice_state.dice.0@[p] <= 6
                }
            },
    {
        match dice_ids_to_reroll {
            Some(ids) => {
                let _ = self.dice_state.reroll_selected_dice(ids);
            },
            None => {},
        }
        self.selection_input = String::new();
        self.input_mode = InputMode::Normal;
    }

    /// Commits the aces slot from the current dice and ends the turn.
    pub fn set_aces(&mut self)
        requires
            sum_of_face(old(self).dice_state.dice.0@, 1) <= u32::MAX,
        ensures
            turn_reset(*old(self), *final(self)),
            final(self).score.upper_section == aces_committed(
                old(self).score.upper_section,
                old(self).dice_state.dice.0@,
            ),
            final(self).score.lower_section == old(self).score.lower_section,
    {
        self.score.upper_section.set_aces(&self.dice_state.dice);
        self.reset();
    }

    /// Commits the twos slot from the current dice and ends the turn.
    pub fn set_twos(&mut self)
        requires
            sum_of_face(old(self).dice_state.dice.0@, 2) <= u32::MAX,
        ensures
            turn_reset(*old(self), *final(self)),
            final(self).score.upper_section == twos_committed(
                old(self).score.upper_section,
                old(self).dice_state.dice.0@,
            ),
            final(self).score.lower_section == old(self).score.lower_section,
    {
        self.score.upper_section.set_twos(&self.dice_state.dice);
        self.reset();
    }

    /// Commits the threes slot from the current dice and ends the turn.
    pub fn set_threes(&mut self)
        requires
            sum_of_face(old(self).dice_state.dice.0@, 3) <= u32::MAX,
            upper_sum(old(self).score.upper_section) + commit_delta(
                old(self).score.upper_section.threes,
                sum_of_face(old(self).dice_state.dice.0@, 3),
            ) <= u32::MAX,
        ensures
            turn_reset(*old(self), *final(self)),
            final(self).score.upper_section == threes_committed(
                old(self).score.upper_section,
                old(self).dice_state.dice.0@,
            ),
            final(self).score.lower_section == old(self).score.lower_section,
    {
        self.score.upper_section.set_threes(&self.dice_state.dice);
        self.reset();
    }

    /// Commits the fours slot from the current dice and ends the turn.
    pub fn set_fours(&mut self)
        requires
            sum_of_face(old(self).dice_state.dice.0@, 4) <= u32::MAX,
            upper_sum(old(self).score.upper_section) + commit_delta(
                old(self).score.upper_section.fours,
                sum_of_face(old(self).dice_state.dice.0@, 4),
            ) <= u32::MAX,
        ensures
            turn_reset(*old(self), *final(self)),
            final(self).score.upper_section == fours_committed(
                old(self).score.upper_section,
                old(self).dice_state.dice.0@,
            ),
            final(self).score.lower_section == old(self).score.lower_section,
    {
        self.score.upper_section.set_fours(&self.dice_state.dice);
        self.reset();
    }

    /// Commits the fives slot from the current dice and ends the turn.
    pub fn set_fives(&mut self)
        requires
            sum_of_face(old(self).dice_state.dice.0@, 5) <= u32::MAX,
            upper_sum(old(self).score.upper_section) + commit_delta(
                old(self).score.upper_section.fives,
                sum_of_face(old(self).dice_state.dice.0@, 5),
            ) <= u32::MAX,
        ensures
            turn_reset(*old(self), *final(self)),
            final(self).score.upper_section == fives_committed(
                old(self).score.upper_section,
                old(self).dice_state.dice.0@,
            ),
            final(self).score.lower_section == old(self).score.lower_section,
    {
        self.score.upper_section.set_fives(&self.dice_state.dice);
        self.reset();
    }

    /// Commits the sixes slot from the current dice and ends the turn.
    pub fn set_sixes(&mut self)
        requires
            sum_of_face(old(self).dice_state.dice.0@, 6) <= u32::MAX,
            upper_sum(old(self).score.upper_section) + commit_delta(
                old(self).score.upper_section.sixes,
                sum_of_face(old(self).dice_state.dice.0@, 6),
            ) <= u32::MAX,
        ensures
            turn_reset(*old(self), *final(self)),
            final(self).score.upper_section == sixes_committed(
                old(self).score.upper_section,
                old(self).dice_state.dice.0@,
            ),
            final(self).score.lower_section == old(self).score.lower_section,
    {
        self.score.upper_section.set_sixes(&self.dice_state.dice);
        self.reset();
    }

    /// Commits the three-of-a-kind slot from the current dice and ends the
    /// turn.
    pub fn set_three_of_a_kind(&mut self)
        requires
            dice_wf(old(self).dice_state.dice.0@),
            dice_sum(old(self).dice_state.dice.0@) <= u32::MAX,
        ensures
            turn_reset(*old(self), *final(self)),
            final(self).score.lower_section == three_of_a_kind_committed(
                old(self).score.lower_section,
                old(self).dice_state.dice.0@,
            ),
            final(self).score.upper_section == old(self).score.upper_section,
    {
        self.score.lower_section.set_three_of_a_kind(&self.dice_state.dice);
        self.reset();
    }

    /// Commits the four-of-a-kind slot from the current dice and ends the
    /// turn.
    pub fn set_four_of_a_kind(&mut self)
        requires
            dice_wf(old(self).dice_state.dice.0@),
            dice_sum(old(self).dice_state.dice.0@) <= u32::MAX,
        ensures
            turn_reset(*old(self), *final(self)),
            final(self).score.lower_section == four_of_a_kind_committed(
                old(self).score.lower_section,
                old(self).dice_state.dice.0@,
            ),
            final(self).score.upper_section == old(self).score.upper_section,
    {
        self.score.lower_section.set_four_of_a_kind(&self.dice_state.dice);
        self.reset();
    }

    /// Commits the full-house slot from the current dice and ends the turn.
    pub fn set_full_house(&mut self)
        requires
            dice_wf(old(self).dice_state.dice.0@),
            old(self).dice_state.dice.0@.len() <= u32::MAX,
        ensures
            turn_reset(*old(self), *final(self)),
            final(self).score.lower_section == full_house_committed(
                old(self).score.lower_section,
                old(self).dice_state.dice.0@,
            ),
            final(self).score.upper_section == old(self).score.upper_section,
    {
        self.score.lower_section.set_full_house(&self.dice_state.dice);
        self.reset();
    }

    /// Commits the small-straight slot from the current dice and ends the
    /// turn.
    pub fn set_small_straight(&mut self)
        requires
            dice_wf(old(self).dice_state.dice.0@),
        ensures
            turn_reset(*old(self), *final(self)),
            final(self).score.lower_section == small_straight_committed(
                old(self).score.lower_section,
                old(self).dice_state.dice.0@,
            ),
            final(self).score.upper_section == old(self).score.upper_section,
    {
        self.score.lower_section.set_small_straight(&self.dice_state.dice);
        self.reset();
    }

    /// Commits the large-straight slot from the current dice and ends the
    /// turn.
    pub fn set_large_straight(&mut self)
        requires
            dice_wf(old(self).dice_state.dice.0@),
        ensures
            turn_reset(*old(self), *final(self)),
            final(self).score.lower_section == large_straight_committed(
                old(self).score.lower_section,
                old(self).dice_state.dice.0@,
            ),
            final(self).score.upper_section == old(self).score.upper_section,
    {
        self.score.lower_section.set_large_straight(&self.dice_state.dice);
        self.reset();
    }

    /// Commits the Yahtzee slot from the current dice and ends the turn.
    pub fn set_yahtzee(&mut self)
        requires
            is_yahtzee(old(self).dice_state.dice.0@) ==> opt_score(
                old(self).score.lower_section.yahtzee,
            ) + 50 <= u32::MAX,
        ensures
            turn_reset(*old(self), *final(self)),
            final(self).score.lower_section == yahtzee_committed(
                old(self).score.lower_section,
                old(self).dice_state.dice.0@,
            ),
            final(self).score.upper_section == old(self).score.upper_section,
    {
        self.score.lower_section.set_yahtzee(&self.dice_state.dice);
        self.reset();
    }

    /// Commits the chance slot from the current dice and ends the turn.
    pub fn set_chance(&mut self)
        requires
            dice_sum(old(self).dice_state.dice.0@) <= u32::MAX,
        ensures
            turn_reset(*old(self), *final(self)),
            final(self).score.lower_section == chance_committed(
                old(self).score.lower_section,
                old(self).dice_state.dice.0@,
            ),
            final(self).score.upper_section == old(self).score.upper_section,
    {
        self.score.lower_section.set_chance(&self.dice_state.dice);
        self.reset();
    }
}

} // verus!
