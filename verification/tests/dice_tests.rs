use yahtzee::dice::Dice;
use yahtzee::dice::DiceState;
use yahtzee::dice::DiceStateError;

#[test]
fn test_roll_dice_values_in_range() {
    let d = Dice::roll_dice(5);
    assert_eq!(d.0.len(), 5);
    for v in d.0 {
        assert!(v >= 1 && v <= 6);
    }
}

#[test]
fn test_new_dice_state_is_fresh() {
    let state = DiceState::new();
    assert_eq!(state.dice.0.len(), 0);
    assert_eq!(state.number_of_dice, 5);
    assert_eq!(state.number_of_rolls, 0);
    assert_eq!(state.max_number_of_rolls, 3);
    assert!(!state.reached_max_rolls());
}

#[test]
fn test_roll_all_dice_fills_and_counts() {
    let mut state = DiceState::new();
    state.roll_all_dice();
    assert_eq!(state.number_of_rolls, 1);
    assert_eq!(state.dice.0.len(), 5);
    for v in &state.dice.0 {
        assert!(*v >= 1 && *v <= 6);
    }
}

#[test]
fn test_roll_all_dice_respects_budget() {
    let mut state = DiceState::new();
    state.roll_all_dice();
    state.roll_all_dice();
    state.roll_all_dice();
    assert_eq!(state.number_of_rolls, 3);
    assert!(state.reached_max_rolls());
    let snapshot = state.dice.0.clone();
    state.roll_all_dice();
    state.roll_all_dice();
    assert_eq!(state.number_of_rolls, 3);
    assert_eq!(state.dice.0, snapshot);
}

#[test]
fn test_reroll_invalid_selection() {
    let mut state = DiceState::new();
    state.roll_all_dice();
    let r = state.reroll_selected_dice(vec![5]);
    assert_eq!(r, Err(DiceStateError::InvalidSelection));
    assert_eq!(state.number_of_rolls, 1);
}

#[test]
fn test_reroll_invalid_selection_beats_spent_budget() {
    let mut state = DiceState::new();
    state.roll_all_dice();
    state.roll_all_dice();
    state.roll_all_dice();
    assert!(state.reached_max_rolls());
    let r = state.reroll_selected_dice(vec![9]);
    assert_eq!(r, Err(DiceStateError::InvalidSelection));
}

#[test]
fn test_reroll_budget_exhausted() {
    let mut state = DiceState::new();
    state.roll_all_dice();
    state.roll_all_dice();
    state.roll_all_dice();
    let snapshot = state.dice.0.clone();
    let r = state.reroll_selected_dice(vec![0]);
    assert_eq!(r, Err(DiceStateError::RollBudgetExhausted));
    assert_eq!(state.number_of_rolls, 3);
    assert_eq!(state.dice.0, snapshot);
}

#[test]
fn test_reroll_preserves_unselected_dice() {
    let mut state = DiceState::new();
    state.roll_all_dice();
    let snapshot = state.dice.0.clone();
    let r = state.reroll_selected_dice(vec![0, 2]);
    assert_eq!(r, Ok(()));
    assert_eq!(state.number_of_rolls, 2);
    assert_eq!(state.dice.0.len(), 5);
    assert_eq!(state.dice.0[1], snapshot[1]);
    assert_eq!(state.dice.0[3], snapshot[3]);
    assert_eq!(state.dice.0[4], snapshot[4]);
    for v in &state.dice.0 {
        assert!(*v >= 1 && *v <= 6);
    }
}

#[test]
fn test_reroll_empty_selection_consumes_roll() {
    let mut state = DiceState::new();
    state.roll_all_dice();
    let snapshot = state.dice.0.clone();
    let r = state.reroll_selected_dice(vec![]);
    assert_eq!(r, Ok(()));
    assert_eq!(state.number_of_rolls, 2);
    assert_eq!(state.dice.0, snapshot);
}

#[test]
fn test_reroll_before_first_roll() {
    let mut state = DiceState::new();
    let r = state.reroll_selected_dice(vec![0]);
    assert_eq!(r, Err(DiceStateError::InvalidSelection));
    assert_eq!(state.number_of_rolls, 0);
}

#[test]
fn test_dice_state_reset() {
    let mut state = DiceState::new();
    state.roll_all_dice();
    state.roll_all_dice();
    state.reset();
    assert_eq!(state.dice.0.len(), 0);
    assert_eq!(state.number_of_rolls, 0);
    assert_eq!(state.max_number_of_rolls, 3);
    assert_eq!(state.number_of_dice, 5);
}
