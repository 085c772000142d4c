use yahtzee::dice::Dice;
use yahtzee::score::Score;
use yahtzee::score::ScoreLowerSection;
use yahtzee::score::ScoreUpperSection;

fn upper_with(slots: [Option<u32>; 7]) -> ScoreUpperSection {
    ScoreUpperSection {
        aces: slots[0],
        twos: slots[1],
        threes: slots[2],
        fours: slots[3],
        fives: slots[4],
        sixes: slots[5],
        bonus: slots[6],
    }
}

fn lower_with(slots: [Option<u32>; 7]) -> ScoreLowerSection {
    ScoreLowerSection {
        three_of_a_kind: slots[0],
        four_of_a_kind: slots[1],
        full_house: slots[2],
        small_straight: slots[3],
        large_straight: slots[4],
        yahtzee: slots[5],
        chance: slots[6],
    }
}

#[test]
fn test_three_of_a_kind_accepts_valid_cases() {
    let cases: Vec<(Vec<u32>, u32)> = vec![
        (vec![2, 2, 1, 1, 1], 7),
        (vec![2, 1, 1, 1, 1], 6),
        (vec![1, 1, 1, 1, 1], 5),
        (vec![2, 2, 2, 5, 6], 17),
        (vec![3, 2, 3, 5, 3], 16),
        (vec![3, 4, 3, 4, 4], 18),
        (vec![3, 4, 5, 5, 5], 22),
        (vec![6, 6, 5, 1, 6], 24),
    ];
    for (dice_input, expected_score) in cases {
        let mut score = ScoreLowerSection::new();
        score.set_three_of_a_kind(&Dice(dice_input));
        assert_eq!(score.three_of_a_kind, Some(expected_score));
        assert_eq!(score.total_score(), expected_score);
    }
}

#[test]
fn test_three_of_a_kind_fails_invalid_cases() {
    let cases: Vec<Vec<u32>> = vec![
        vec![2, 2, 1, 3, 1],
        vec![2, 2, 4, 4, 1],
        vec![2, 5, 4, 4, 1],
        vec![2, 5, 4, 4, 5],
        vec![6, 5, 6, 4, 5],
    ];
    for dice_input in cases {
        let mut score = ScoreLowerSection::new();
        score.set_three_of_a_kind(&Dice(dice_input));
        assert_eq!(score.three_of_a_kind, None);
        assert_eq!(score.total_score(), 0);
    }
}

#[test]
fn test_four_of_a_kind_accepts_valid_cases() {
    let cases: Vec<(Vec<u32>, u32)> = vec![
        (vec![2, 2, 2, 2, 1], 9),
        (vec![2, 1, 1, 1, 1], 6),
        (vec![3, 1, 3, 3, 3], 13),
        (vec![4, 4, 3, 4, 4], 19),
        (vec![5, 5, 5, 5, 4], 24),
        (vec![6, 5, 6, 6, 6], 29),
    ];
    for (dice_input, expected_score) in cases {
        let mut score = ScoreLowerSection::new();
        score.set_four_of_a_kind(&Dice(dice_input));
        assert_eq!(score.four_of_a_kind, Some(expected_score));
        assert_eq!(score.total_score(), expected_score);
    }
}

#[test]
fn test_four_of_a_kind_fails_invalid_cases() {
    let cases: Vec<Vec<u32>> = vec![
        vec![2, 2, 2, 3, 1],
        vec![2, 2, 4, 4, 2],
        vec![2, 5, 4, 4, 4],
        vec![2, 5, 4, 4, 5],
        vec![6, 5, 6, 4, 5],
    ];
    for dice_input in cases {
        let mut score = ScoreLowerSection::new();
        score.set_four_of_a_kind(&Dice(dice_input));
        assert_eq!(score.four_of_a_kind, None);
        assert_eq!(score.total_score(), 0);
    }
}

#[test]
fn test_small_straight_accepts_valid_cases() {
    let cases: Vec<Vec<u32>> = vec![
        vec![1, 2, 3, 4, 1],
        vec![2, 3, 4, 5, 6],
        vec![1, 2, 3, 4, 5],
        vec![3, 4, 5, 6, 1],
        vec![2, 3, 5, 4, 5],
        vec![6, 2, 1, 4, 3],
        vec![6, 5, 4, 1, 3],
        vec![2, 2, 3, 4, 5],
        vec![2, 3, 3, 4, 5],
    ];
    for dice_input in cases {
        let mut score = ScoreLowerSection::new();
        score.set_small_straight(&Dice(dice_input));
        assert_eq!(score.small_straight, Some(30));
        assert_eq!(score.total_score(), 30);
    }
}

#[test]
fn test_small_straight_fails_invalid_cases() {
    let cases: Vec<Vec<u32>> = vec![
        vec![1, 2, 3, 5, 6],
        vec![2, 3, 2, 4, 6],
        vec![1, 1, 1, 1, 1],
        vec![5, 5, 6, 1, 1],
        vec![6, 5, 4, 2, 1],
    ];
    for dice_input in cases {
        let mut score = ScoreLowerSection::new();
        score.set_small_straight(&Dice(dice_input));
        assert_eq!(score.small_straight, None);
        assert_eq!(score.total_score(), 0);
    }
}

#[test]
fn test_large_straight_accepts_valid_cases() {
    let cases: Vec<Vec<u32>> = vec![vec![1, 2, 3, 4, 5], vec![2, 3, 4, 5, 6]];
    for dice_input in cases {
        let mut score = ScoreLowerSection::new();
        score.set_large_straight(&Dice(dice_input));
        assert_eq!(score.large_straight, Some(40));
        assert_eq!(score.total_score(), 40);
    }
}

#[test]
fn test_large_straight_fails_invalid_cases() {
    let cases: Vec<Vec<u32>> = vec![
        vec![1, 2, 3, 5, 6],
        vec![2, 3, 2, 4, 6],
        vec![1, 1, 1, 1, 1],
        vec![5, 5, 6, 1, 1],
        vec![6, 5, 4, 2, 1],
        vec![1, 2, 3, 4, 4],
    ];
    for dice_input in cases {
        let mut score = ScoreLowerSection::new();
        score.set_large_straight(&Dice(dice_input));
        assert_eq!(score.large_straight, None);
        assert_eq!(score.total_score(), 0);
    }
}

#[test]
fn test_full_house_accepts_valid_cases() {
    let cases: Vec<Vec<u32>> = vec![
        vec![2, 2, 1, 1, 1],
        vec![2, 2, 3, 3, 3],
        vec![3, 5, 5, 5, 3],
        vec![6, 4, 6, 4, 6],
        vec![1, 1, 1, 5, 5],
        vec![6, 2, 2, 6, 2],
    ];
    for dice_input in cases {
        let mut score = ScoreLowerSection::new();
        score.set_full_house(&Dice(dice_input));
        assert_eq!(score.full_house, Some(25));
        assert_eq!(score.total_score(), 25);
    }
}

#[test]
fn test_full_house_fails_invalid_cases() {
    let cases: Vec<Vec<u32>> = vec![
        vec![1, 1, 1, 1, 1],
        vec![1, 2, 3, 4, 5],
        vec![3, 3, 3, 4, 5],
        vec![3, 3, 4, 4, 5],
        vec![6, 3, 4, 4, 5],
        vec![2, 2, 2, 2, 3],
    ];
    for dice_input in cases {
        let mut score = ScoreLowerSection::new();
        score.set_full_house(&Dice(dice_input));
        assert_eq!(score.full_house, None);
        assert_eq!(score.total_score(), 0);
    }
}

#[test]
fn test_yahtzee_accepts_valid_cases() {
    let cases: Vec<Vec<u32>> = vec![
        vec![1, 1, 1, 1, 1],
        vec![2, 2, 2, 2, 2],
        vec![3, 3, 3, 3, 3],
        vec![4, 4, 4, 4, 4],
        vec![5, 5, 5, 5, 5],
        vec![6, 6, 6, 6, 6],
    ];
    for dice_input in cases {
        let mut score = ScoreLowerSection::new();
        score.set_yahtzee(&Dice(dice_input));
        assert_eq!(score.yahtzee, Some(50));
        assert_eq!(score.total_score(), 50);
    }
}

#[test]
fn test_yahtzee_fails_invalid_cases() {
    let cases: Vec<Vec<u32>> = vec![
        vec![1, 2, 3, 5, 6],
        vec![2, 3, 2, 4, 6],
        vec![5, 5, 6, 1, 1],
        vec![6, 5, 4, 2, 1],
        vec![1, 1, 1, 1, 2],
    ];
    for dice_input in cases {
        let mut score = ScoreLowerSection::new();
        score.set_yahtzee(&Dice(dice_input));
        assert_eq!(score.yahtzee, None);
        assert_eq!(score.total_score(), 0);
    }
}

#[test]
fn test_yahtzee_multiple_works() {
    let mut score = ScoreLowerSection::new();
    let dice_input = Dice(vec![1, 1, 1, 1, 1]);
    score.set_yahtzee(&dice_input);
    assert_eq!(score.yahtzee, Some(50));
    assert_eq!(score.total_score(), 50);

    score.set_yahtzee(&dice_input);
    assert_eq!(score.yahtzee, Some(100));
    assert_eq!(score.total_score(), 100);
}

#[test]
fn test_score_empty_upper_section() {
    let cases: Vec<([Option<u32>; 7], u32, u32)> = vec![
        ([None, None, None, None, None, None, None], 0, 0),
        (
            [Some(4), Some(8), Some(12), Some(16), Some(20), Some(24), Some(35)],
            84,
            119,
        ),
        (
            [Some(3), Some(2), Some(9), Some(8), Some(10), Some(12), None],
            44,
            44,
        ),
    ];
    for (slots, expected_without_bonus, expected_total) in cases {
        let score_upper = upper_with(slots);
        assert_eq!(score_upper.score_without_bonus(), expected_without_bonus);
        assert_eq!(score_upper.total_score(), expected_total);
    }
}

#[test]
fn test_score_empty_lower_section() {
    let cases: Vec<([Option<u32>; 7], u32)> = vec![
        ([None, None, None, None, None, None, None], 0),
        (
            [Some(17), Some(24), Some(25), Some(30), Some(40), Some(50), Some(14)],
            200,
        ),
    ];
    for (slots, expected_total) in cases {
        let score_lower = lower_with(slots);
        assert_eq!(score_lower.total_score(), expected_total);
    }
}

#[test]
fn test_score_full_score() {
    let score = Score {
        upper_section: upper_with([
            Some(4),
            Some(8),
            Some(12),
            Some(16),
            Some(20),
            Some(24),
            Some(35),
        ]),
        lower_section: lower_with([
            Some(17),
            Some(24),
            Some(25),
            Some(30),
            Some(40),
            Some(50),
            Some(14),
        ]),
    };
    assert_eq!(score.total_score(), 319);
}

#[test]
fn test_upper_commit_is_write_once() {
    let mut upper = ScoreUpperSection::new();
    upper.set_aces(&Dice(vec![1, 1, 2, 3, 4]));
    assert_eq!(upper.aces, Some(2));
    upper.set_aces(&Dice(vec![1, 1, 1, 1, 1]));
    assert_eq!(upper.aces, Some(2));
    assert_eq!(upper.score_without_bonus(), 2);
}

#[test]
fn test_upper_sum_formulas() {
    let mut upper = ScoreUpperSection::new();
    upper.set_aces(&Dice(vec![1, 1, 2, 3, 1]));
    assert_eq!(upper.aces, Some(3));
    upper.set_twos(&Dice(vec![2, 2, 2, 5, 6]));
    assert_eq!(upper.twos, Some(6));
    upper.set_sixes(&Dice(vec![1, 2, 3, 4, 5]));
    assert_eq!(upper.sixes, Some(0));
    assert_eq!(upper.score_without_bonus(), 9);
    assert_eq!(upper.bonus, None);
    assert_eq!(upper.total_score(), 9);
}

#[test]
fn test_upper_bonus_threshold() {
    let mut upper = ScoreUpperSection::new();
    upper.set_aces(&Dice(vec![1, 1, 1, 1, 2]));
    upper.set_twos(&Dice(vec![2, 2, 2, 2, 1]));
    assert_eq!(upper.aces, Some(4));
    assert_eq!(upper.twos, Some(8));
    upper.set_threes(&Dice(vec![3, 3, 3, 3, 1]));
    assert_eq!(upper.threes, Some(12));
    upper.set_fours(&Dice(vec![4, 4, 4, 4, 1]));
    assert_eq!(upper.fours, Some(16));
    upper.set_fives(&Dice(vec![5, 5, 5, 5, 1]));
    assert_eq!(upper.fives, Some(20));
    assert_eq!(upper.bonus, None);
    upper.set_sixes(&Dice(vec![6, 6, 6, 6, 1]));
    assert_eq!(upper.sixes, Some(24));
    assert_eq!(upper.score_without_bonus(), 84);
    assert_eq!(upper.bonus, Some(35));
    assert_eq!(upper.total_score(), 119);
}

#[test]
fn test_sum_helpers_add_up_faces() {
    assert_eq!(yahtzee::score::sum_all_dice(&vec![6, 6, 5, 1, 6]), 24);
    assert_eq!(yahtzee::score::sum_matching_dice(&vec![6, 6, 5, 1, 6], 6), 18);
    assert_eq!(yahtzee::score::sum_matching_dice(&vec![6, 6, 5, 1, 6], 2), 0);
}

#[test]
fn test_get_dice_frequencies_counts_each_face() {
    let counts = yahtzee::score::get_dice_frequencies(&vec![3, 2, 3, 5, 3]);
    assert_eq!(counts, vec![0, 1, 3, 0, 1, 0]);
}

#[test]
fn test_consecutive_numbers_detection() {
    assert!(yahtzee::score::has_at_least_n_consecutive_numbers(
        &vec![1, 2, 3, 4, 1],
        4
    ));
    assert!(!yahtzee::score::has_at_least_n_consecutive_numbers(
        &vec![1, 2, 3, 5, 6],
        4
    ));
    assert!(yahtzee::score::has_at_least_n_consecutive_numbers(
        &vec![2, 3, 4, 5, 6],
        5
    ));
    assert!(!yahtzee::score::has_at_least_n_consecutive_numbers(&vec![], 2));
    assert!(yahtzee::score::has_at_least_n_consecutive_numbers(&vec![], 1));
    assert!(yahtzee::score::has_at_least_n_consecutive_numbers(&vec![6], 1));
    assert!(!yahtzee::score::has_at_least_n_consecutive_numbers(
        &vec![1, 2, 3, 4, 5],
        6
    ));
}

#[test]
fn test_chance_commits_sum() {
    let mut lower = ScoreLowerSection::new();
    lower.set_chance(&Dice(vec![6, 6, 5, 1, 6]));
    assert_eq!(lower.chance, Some(24));
    lower.set_chance(&Dice(vec![1, 1, 1, 1, 1]));
    assert_eq!(lower.chance, Some(24));
}
