//! The thirteen-category scorecard and its evaluation rules.
//!
//! A dice roll is judged as a multiset of face values. Every category except
//! Yahtzee is write-once: committing to a slot that already holds a value is a
//! no-op. Yahtzee is additive: each qualifying commit adds 50. The upper
//! section carries a 35-point bonus, set once its six slots sum to at least 63.

use vstd::prelude::*;

use crate::dice::Dice;
use crate::dice::dice_wf;

verus! {

// ----------------------------------------------------------------------------
// Mathematical model of a dice roll
// ----------------------------------------------------------------------------

/// Sum of all die values of the roll.
pub open spec fn dice_sum(s: Seq<u32>) -> int
    decreases s.len(),
{
    if s.len() == 0 {
        0
    } else {
        dice_sum(s.drop_last()) + s.last()
    }
}

/// Sum of the dice that show `face`.
pub open spec fn sum_of_face(s: Seq<u32>, face: u32) -> int
    decreases s.len(),
{
    if s.len() == 0 {
        0
    } else {
        sum_of_face(s.drop_last(), face) + if s.last() == face {
            face as int
        } else {
            0
        }
    }
}

/// How many dice of the roll show `face`.
pub open spec fn count_of_face(s: Seq<u32>, face: u32) -> int
    decreases s.len(),
{
    if s.len() == 0 {
        0
    } else {
        count_of_face(s.drop_last(), face) + if s.last() == face {
            1int
        } else {
            0
        }
    }
}

/// Some face appears at least `n` times.
pub open spec fn has_n_of_a_kind(s: Seq<u32>, n: int) -> bool {
    exists|face: u32| count_of_face(s, face) >= n
}

/// Some face appears exactly three times and another exactly twice.
pub open spec fn is_full_house(s: Seq<u32>) -> bool {
    (exists|face: u32| count_of_face(s, face) == 3) && (exists|face: u32|
        count_of_face(s, face) == 2)
}

/// The `n` consecutive face values `start, start + 1, ..` are all present in
/// the roll.
pub open spec fn run_present(s: Seq<u32>, start: int, n: int) -> bool {
    forall|k: int| 0 <= k < n ==> #[trigger] s.contains((start + k) as u32)
}

/// Some `n` consecutive face values are all present in the roll; duplicates
/// neither break nor lengthen a run.
pub open spec fn has_run_of(s: Seq<u32>, n: int) -> bool {
    exists|start: int| 1 <= start && start + n <= 7 && #[trigger] run_present(s, start, n)
}

/// All dice of a non-empty roll show the same face.
pub open spec fn is_yahtzee(s: Seq<u32>) -> bool {
    s.len() > 0 && (forall|i: int| 0 <= i < s.len() ==> #[trigger] s[i] == s[0])
}

// ----------------------------------------------------------------------------
// Lemmas about the model
// ----------------------------------------------------------------------------

/// A face outside `[1, 6]` never occurs in a well-formed roll.
pub proof fn lemma_count_of_face_outside(s: Seq<u32>, face: u32)
    requires
        dice_wf(s),
        !(1 <= face <= 6),
    ensures
        count_of_face(s, face) == 0,
    decreases s.len(),
{
    if s.len() > 0 {
        assert(dice_wf(s.drop_last()));
        lemma_count_of_face_outside(s.drop_last(), face);
    }
}

/// Sums of die values are never negative.
pub proof fn lemma_dice_sum_nonneg(s: Seq<u32>)
    ensures
        dice_sum(s) >= 0,
    decreases s.len(),
{
    if s.len() > 0 {
        lemma_dice_sum_nonneg(s.drop_last());
    }
}

/// Sums of matching die values are never negative.
pub proof fn lemma_sum_of_face_nonneg(s: Seq<u32>, face: u32)
    ensures
        sum_of_face(s, face) >= 0,
    decreases s.len(),
{
    if s.len() > 0 {
        lemma_sum_of_face_nonneg(s.drop_last(), face);
    }
}

/// A well-formed roll sums to at least one point per die.
pub proof fn lemma_dice_sum_at_least_len(s: Seq<u32>)
    requires
        dice_wf(s),
    ensures
        dice_sum(s) >= s.len(),
    decreases s.len(),
{
    if s.len() > 0 {
        assert(dice_wf(s.drop_last()));
        lemma_dice_sum_at_least_len(s.drop_last());
    }
}

/// The sum of a prefix of the roll never exceeds the sum of the whole roll.
proof fn lemma_dice_sum_prefix(s: Seq<u32>, i: int)
    requires
        0 <= i <= s.len(),
    ensures
        dice_sum(s.subrange(0, i)) <= dice_sum(s),
    decreases s.len() - i,
{
    if i == s.len() {
        assert(s.subrange(0, i) =~= s);
    } else {
        assert(s.subrange(0, i + 1).drop_last() =~= s.subrange(0, i));
        lemma_dice_sum_prefix(s, i + 1);
    }
}

/// The matching-face sum of a prefix never exceeds that of the whole roll.
proof fn lemma_sum_of_face_prefix(s: Seq<u32>, face: u32, i: int)
    requires
        0 <= i <= s.len(),
    ensures
        sum_of_face(s.subrange(0, i), face) <= sum_of_face(s, face),
    decreases s.len() - i,
{
    if i == s.len() {
        assert(s.subrange(0, i) =~= s);
    } else {
        assert(s.subrange(0, i + 1).drop_last() =~= s.subrange(0, i));
        lemma_sum_of_face_prefix(s, face, i + 1);
    }
}

// ----------------------------------------------------------------------------
// Verified evaluation helpers
// ----------------------------------------------------------------------------

/// Adds up all dice of the roll.
pub fn sum_all_dice(dice_vec: &Vec<u32>) -> (r: u32)
    requires
        dice_sum(dice_vec@) <= u32::MAX,
    ensures
        r == dice_sum(dice_vec@),
{
    let mut total: u32 = 0;
    let mut i: usize = 0;
    while i < dice_vec.len()
        invariant
            0 <= i <= dice_vec@.len(),
            total == dice_sum(dice_vec@.subrange(0, i as int)),
            dice_sum(dice_vec@) <= u32::MAX,
        decreases dice_vec@.len() - i,
    {
        proof {
            lemma_dice_sum_prefix(dice_vec@, i + 1);
            assert(dice_vec@.subrange(0, i + 1).drop_last() =~= dice_vec@.subrange(0, i as int));
            assert(dice_vec@.subrange(0, i + 1).last() == dice_vec@[i as int]);
        }
        total = total + dice_vec[i];
        i = i + 1;
    }
    proof {
        assert(dice_vec@.subrange(0, i as int) =~= dice_vec@);
    }
    total
}

/// Adds up the dice of the roll that show `face`.
pub fn sum_matching_dice(dice_vec: &Vec<u32>, face: u32) -> (r: u32)
    requires
        sum_of_face(dice_vec@, face) <= u32::MAX,
    ensures
        r == sum_of_face(dice_vec@, face),
{
    let mut total: u32 = 0;
    let mut i: usize = 0;
    while i < dice_vec.len()
        invariant
            0 <= i <= dice_vec@.len(),
            total == sum_of_face(dice_vec@.subrange(0, i as int), face),
            sum_of_face(dice_vec@, face) <= u32::MAX,
        decreases dice_vec@.len() - i,
    {
        proof {
            lemma_sum_of_face_prefix(dice_vec@, face, i + 1);
            assert(dice_vec@.subrange(0, i + 1).drop_last() =~= dice_vec@.subrange(0, i as int));
            assert(dice_vec@.subrange(0, i + 1).last() == dice_vec@[i as int]);
        }
        if dice_vec[i] == face {
            total = total + face;
        }
        i = i + 1;
    }
    proof {
        assert(dice_vec@.subrange(0, i as int) =~= dice_vec@);
    }
    total
}

/// Counts, for each face `1..=6`, how many dice of a well-formed roll show it;
/// slot `face - 1` of the result holds the count for `face`.
pub fn get_dice_frequencies(dice_vec: &Vec<u32>) -> (counts: Vec<u32>)
    requires
        dice_wf(dice_vec@),
        dice_vec@.len() <= u32::MAX,
    ensures
        counts@.len() == 6,
        forall|face: int|
            1 <= face <= 6 ==> #[trigger] counts@[face - 1] == count_of_face(
                dice_vec@,
                face as u32,
            ),
{
    let mut counts: Vec<u32> = Vec::new();
    let mut f: usize = 0;
    while f < 6
        invariant
            f <= 6,
            counts@.len() == f,
            forall|k: int| 0 <= k < f ==> counts@[k] == 0,
        decreases 6 - f,
    {
        counts.push(0);
        f = f + 1;
    }
    let mut i: usize = 0;
    while i < dice_vec.len()
        invariant
            0 <= i <= dice_vec@.len(),
            dice_wf(dice_vec@),
            dice_vec@.len() <= u32::MAX,
            counts@.len() == 6,
            forall|face: int|
                1 <= face <= 6 ==> #[trigger] counts@[face - 1] == count_of_face(
                    dice_vec@.subrange(0, i as int),
                    face as u32,
                ),
            forall|k: int| 0 <= k < 6 ==> #[trigger] counts@[k] <= i,
        decreases dice_vec@.len() - i,
    {
        let v = dice_vec[i];
        assert(1 <= v <= 6);
        proof {
            assert forall|face: int| 1 <= face <= 6 implies #[trigger] count_of_face(
                dice_vec@.subrange(0, i + 1),
                face as u32,
            ) == count_of_face(dice_vec@.subrange(0, i as int), face as u32) + if face == v {
                1int
            } else {
                0
            } by {
                assert(dice_vec@.subrange(0, i + 1).drop_last() =~= dice_vec@.subrange(
                    0,
                    i as int,
                ));
                assert(dice_vec@.subrange(0, i + 1).last() == dice_vec@[i as int]);
            }
        }
        let slot = (v - 1) as usize;
        let c = counts[slot];
        counts.set(slot, c + 1);
        i = i + 1;
    }
    proof {
        assert(dice_vec@.subrange(0, i as int) =~= dice_vec@);
    }
    counts
}

/// Some slot of the six face counts reaches `n`.
fn any_count_at_least(counts: &Vec<u32>, n: u32) -> (r: bool)
    requires
        counts@.len() == 6,
    ensures
        r == exists|k: int| 0 <= k < 6 && #[trigger] counts@[k] >= n,
{
    let mut k: usize = 0;
    while k < 6
        invariant
            k <= 6,
            counts@.len() == 6,
            forall|j: int| 0 <= j < k ==> !(#[trigger] counts@[j] >= n),
        decreases 6 - k,
    {
        if counts[k] >= n {
            return true;
        }
        k = k + 1;
    }
    false
}

/// Some slot of the six face counts is exactly `n`.
fn any_count_exact(counts: &Vec<u32>, n: u32) -> (r: bool)
    requires
        counts@.len() == 6,
    ensures
        r == exists|k: int| 0 <= k < 6 && #[trigger] counts@[k] == n,
{
    let mut k: usize = 0;
    while k < 6
        invariant
            k <= 6,
            counts@.len() == 6,
            forall|j: int| 0 <= j < k ==> !(#[trigger] counts@[j] == n),
        decreases 6 - k,
    {
        if counts[k] == n {
            return true;
        }
        k = k + 1;
    }
    false
}

/// All dice of a non-empty roll show the same face.
fn all_dice_equal(dice_vec: &Vec<u32>) -> (r: bool)
    ensures
        r == is_yahtzee(dice_vec@),
{
    if dice_vec.len() == 0 {
        return false;
    }
    let first = dice_vec[0];
    let mut i: usize = 1;
    while i < dice_vec.len()
        invariant
            1 <= i <= dice_vec@.len(),
            first == dice_vec@[0],
            forall|j: int| 0 <= j < i ==> #[trigger] dice_vec@[j] == first,
        decreases dice_vec@.len() - i,
    {
        if dice_vec[i] != first {
            return false;
        }
        i = i + 1;
    }
    true
}

/// A sorted-and-deduplicated reading of the roll holds a run of `n` strictly
/// increasing-by-one face values. Trivially true for `n <= 1`.
pub fn has_at_least_n_consecutive_numbers(rolls: &Vec<u32>, n: u32) -> (r: bool)
    requires
        dice_wf(rolls@),
    ensures
        r == (n <= 1 || has_run_of(rolls@, n as int)),
{
    if n <= 1 {
        return true;
    }
    if n > 6 {
        proof {
            if has_run_of(rolls@, n as int) {
                let st = choose|st: int|
                    1 <= st && st + n as int <= 7 && #[trigger] run_present(rolls@, st, n as int);
                assert(false);
            }
        }
        return false;
    }
    let mut present: Vec<bool> = Vec::new();
    let mut f: usize = 0;
    while f < 6
        invariant
            f <= 6,
            present@.len() == f,
            forall|k: int| 0 <= k < f ==> !(#[trigger] present@[k]),
        decreases 6 - f,
    {
        present.push(false);
        f = f + 1;
    }
    let mut i: usize = 0;
    while i < rolls.len()
        invariant
            i <= rolls@.len(),
            dice_wf(rolls@),
            present@.len() == 6,
            forall|face: u32|
                1 <= face <= 6 ==> (#[trigger] present@[face - 1] <==> rolls@.subrange(
                    0,
                    i as int,
                ).contains(face)),
        decreases rolls@.len() - i,
    {
        let v = rolls[i];
        assert(1 <= v <= 6);
        let ghost prefix = rolls@.subrange(0, i as int);
        let ghost prefix1 = rolls@.subrange(0, i + 1);
        proof {
            assert forall|face: u32| 1 <= face <= 6 implies (#[trigger] prefix1.contains(face)
                <==> (prefix.contains(face) || face == v)) by {
                if prefix.contains(face) {
                    let j = choose|j: int| 0 <= j < prefix.len() && prefix[j] == face;
                    assert(prefix1[j] == face);
                    assert(prefix1.contains(face));
                }
                if face == v {
                    assert(prefix1[i as int] == face);
                    assert(prefix1.contains(face));
                }
                if prefix1.contains(face) && face != v {
                    let j = choose|j: int| 0 <= j < prefix1.len() && prefix1[j] == face;
                    assert(j < i);
                    assert(prefix[j] == face);
                    assert(prefix.contains(face));
                }
            }
        }
        present.set((v - 1) as usize, true);
        i = i + 1;
    }
    proof {
        assert(rolls@.subrange(0, i as int) =~= rolls@);
    }
    let mut start: u32 = 1;
    while start + n <= 7
        invariant
            2 <= n <= 6,
            1 <= start <= 8 - n,
            present@.len() == 6,
            forall|face: u32|
                1 <= face <= 6 ==> (#[trigger] present@[face - 1] <==> rolls@.contains(face)),
            forall|st: int| 1 <= st < start ==> !(#[trigger] run_present(rolls@, st, n as int)),
        decreases 8 - n - start,
    {
        let mut k: u32 = 0;
        let mut all = true;
        while k < n
            invariant
                0 <= k <= n,
                2 <= n <= 6,
                1 <= start,
                start + n <= 7,
                present@.len() == 6,
                forall|face: u32|
                    1 <= face <= 6 ==> (#[trigger] present@[face - 1] <==> rolls@.contains(face)),
                all == forall|k2: int|
                    0 <= k2 < k ==> #[trigger] rolls@.contains((start + k2) as u32),
            decreases n - k,
        {
            let face = start + k;
            assert(1 <= face <= 6);
            if !present[(face - 1) as usize] {
                all = false;
            }
            k = k + 1;
        }
        if all {
            proof {
                assert(run_present(rolls@, start as int, n as int));
            }
            return true;
        }
        start = start + 1;
    }
    proof {
        assert forall|st: int| 1 <= st && st + n as int <= 7 implies !run_present(
            rolls@,
            st,
            n as int,
        ) by {
            assert(st < start);
        }
    }
    false
}

// ----------------------------------------------------------------------------
// Scorecard slots and commit semantics
// ----------------------------------------------------------------------------

/// Write-once commit: an unplayed slot takes `value`, a played slot is kept.
pub open spec fn or_commit(slot: Option<u32>, value: u32) -> Option<u32> {
    if slot is Some {
        slot
    } else {
        Some(value)
    }
}

/// The points a slot contributes to a total; an unplayed slot counts 0.
pub open spec fn opt_score(slot: Option<u32>) -> int {
    match slot {
        Some(v) => v as int,
        None => 0,
    }
}

/// What a commit of `value` would add to the slot's contribution.
pub open spec fn commit_delta(slot: Option<u32>, value: int) -> int {
    if slot is Some {
        0
    } else {
        value
    }
}

/// The six number-matching slots plus the upper-section bonus.
pub struct ScoreUpperSection {
    pub aces: Option<u32>,
    pub twos: Option<u32>,
    pub threes: Option<u32>,
    pub fours: Option<u32>,
    pub fives: Option<u32>,
    pub sixes: Option<u32>,
    pub bonus: Option<u32>,
}

/// The seven combination slots.
pub struct ScoreLowerSection {
    pub three_of_a_kind: Option<u32>,
    pub four_of_a_kind: Option<u32>,
    pub full_house: Option<u32>,
    pub small_straight: Option<u32>,
    pub large_straight: Option<u32>,
    pub yahtzee: Option<u32>,
    pub chance: Option<u32>,
}

/// The whole scorecard.
pub struct Score {
    pub upper_section: ScoreUpperSection,
    pub lower_section: ScoreLowerSection,
}

/// No upper slot has been played yet.
pub open spec fn upper_unset(u: ScoreUpperSection) -> bool {
    u.aces is None && u.twos is None && u.threes is None && u.fours is None && u.fives is None
        && u.sixes is None && u.bonus is None
}

/// No lower slot has been played yet.
pub open spec fn lower_unset(l: ScoreLowerSection) -> bool {
    l.three_of_a_kind is None && l.four_of_a_kind is None && l.full_house is None
        && l.small_straight is None && l.large_straight is None && l.yahtzee is None
        && l.chance is None
}

/// Sum of the six upper slots, bonus not counted.
pub open spec fn upper_sum(u: ScoreUpperSection) -> int {
    opt_score(u.aces) + opt_score(u.twos) + opt_score(u.threes) + opt_score(u.fours) + opt_score(
        u.fives,
    ) + opt_score(u.sixes)
}

/// Upper-section total including the bonus.
pub open spec fn upper_total(u: ScoreUpperSection) -> int {
    upper_sum(u) + opt_score(u.bonus)
}

/// Sum of the seven lower slots.
pub open spec fn lower_sum(l: ScoreLowerSection) -> int {
    opt_score(l.three_of_a_kind) + opt_score(l.four_of_a_kind) + opt_score(l.full_house)
        + opt_score(l.small_straight) + opt_score(l.large_straight) + opt_score(l.yahtzee)
        + opt_score(l.chance)
}

/// Whole-game total.
pub open spec fn grand_total(s: Score) -> int {
    upper_total(s.upper_section) + lower_sum(s.lower_section)
}

/// Sets the 35-point bonus once the upper slots reach 63; a bonus already set
/// is never recomputed.
pub open spec fn with_bonus_checked(u: ScoreUpperSection) -> ScoreUpperSection {
    if upper_sum(u) >= 63 && u.bonus is None {
        ScoreUpperSection { bonus: Some(35u32), ..u }
    } else {
        u
    }
}

/// The upper section after a commit to the aces slot.
pub open spec fn aces_committed(u: ScoreUpperSection, dice: Seq<u32>) -> ScoreUpperSection {
    ScoreUpperSection { aces: or_commit(u.aces, sum_of_face(dice, 1) as u32), ..u }
}

/// The upper section after a commit to the twos slot.
pub open spec fn twos_committed(u: ScoreUpperSection, dice: Seq<u32>) -> ScoreUpperSection {
    ScoreUpperSection { twos: or_commit(u.twos, sum_of_face(dice, 2) as u32), ..u }
}

/// The upper section after a commit to the threes slot; rechecks the bonus.
pub open spec fn threes_committed(u: ScoreUpperSection, dice: Seq<u32>) -> ScoreUpperSection {
    with_bonus_checked(
        ScoreUpperSection { threes: or_commit(u.threes, sum_of_face(dice, 3) as u32), ..u },
    )
}

/// The upper section after a commit to the fours slot; rechecks the bonus.
pub open spec fn fours_committed(u: ScoreUpperSection, dice: Seq<u32>) -> ScoreUpperSection {
    with_bonus_checked(
        ScoreUpperSection { fours: or_commit(u.fours, sum_of_face(dice, 4) as u32), ..u },
    )
}

/// The upper section after a commit to the fives slot; rechecks the bonus.
pub open spec fn fives_committed(u: ScoreUpperSection, dice: Seq<u32>) -> ScoreUpperSection {
    with_bonus_checked(
        ScoreUpperSection { fives: or_commit(u.fives, sum_of_face(dice, 5) as u32), ..u },
    )
}

/// The upper section after a commit to the sixes slot; rechecks the bonus.
pub open spec fn sixes_committed(u: ScoreUpperSection, dice: Seq<u32>) -> ScoreUpperSection {
    with_bonus_checked(
        ScoreUpperSection { sixes: or_commit(u.sixes, sum_of_face(dice, 6) as u32), ..u },
    )
}

impl ScoreUpperSection {
    /// A fresh upper section with nothing played.
    pub fn new() -> (u: ScoreUpperSection)
        ensures
            upper_unset(u),
    {
        ScoreUpperSection {
            aces: None,
            twos: None,
            threes: None,
            fours: None,
            fives: None,
            sixes: None,
            bonus: None,
        }
    }

    /// Commits the sum of the aces to the aces slot, write-once.
    pub fn set_aces(&mut self, dice_roll: &Dice)
        requires
            sum_of_face(dice_roll.0@, 1) <= u32::MAX,
        ensures
            *final(self) == aces_committed(*old(self), dice_roll.0@),
    {
        proof {
            lemma_sum_of_face_nonneg(dice_roll.0@, 1);
        }
        let value = sum_matching_dice(&dice_roll.0, 1);
        if self.aces.is_none() {
            self.aces = Some(value);
        }
    }

    /// Commits the sum of the twos to the twos slot, write-once.
    pub fn set_twos(&mut self, dice_roll: &Dice)
        requires
            sum_of_face(dice_roll.0@, 2) <= u32::MAX,
        ensures
            *final(self) == twos_committed(*old(self), dice_roll.0@),
    {
        proof {
            lemma_sum_of_face_nonneg(dice_roll.0@, 2);
        }
        let value = sum_matching_dice(&dice_roll.0, 2);
        if self.twos.is_none() {
            self.twos = Some(value);
        }
    }

    /// Commits the sum of the threes, write-once, then rechecks the bonus.
    pub fn set_threes(&mut self, dice_roll: &Dice)
        requires
            sum_of_face(dice_roll.0@, 3) <= u32::MAX,
            upper_sum(*old(self)) + commit_delta(old(self).threes, sum_of_face(dice_roll.0@, 3))
                <= u32::MAX,
        ensures
            *final(self) == threes_committed(*old(self), dice_roll.0@),
    {
        proof {
            lemma_sum_of_face_nonneg(dice_roll.0@, 3);
        }
        let value = sum_matching_dice(&dice_roll.0, 3);
        if self.threes.is_none() {
            self.threes = Some(value);
        }
        self.check_and_set_bonus();
    }

    /// Commits the sum of the fours, write-once, then rechecks the bonus.
    pub fn set_fours(&mut self, dice_roll: &Dice)
        requires
            sum_of_face(dice_roll.0@, 4) <= u32::MAX,
            upper_sum(*old(self)) + commit_delta(old(self).fours, sum_of_face(dice_roll.0@, 4))
                <= u32::MAX,
        ensures
            *final(self) == fours_committed(*old(self), dice_roll.0@),
    {
        proof {
            lemma_sum_of_face_nonneg(dice_roll.0@, 4);
        }
        let value = sum_matching_dice(&dice_roll.0, 4);
        if self.fours.is_none() {
            self.fours = Some(value);
        }
        self.check_and_set_bonus();
    }

    /// Commits the sum of the fives, write-once, then rechecks the bonus.
    pub fn set_fives(&mut self, dice_roll: &Dice)
        requires
            sum_of_face(dice_roll.0@, 5) <= u32::MAX,
            upper_sum(*old(self)) + commit_delta(old(self).fives, sum_of_face(dice_roll.0@, 5))
                <= u32::MAX,
        ensures
            *final(self) == fives_committed(*old(self), dice_roll.0@),
    {
        proof {
            lemma_sum_of_face_nonneg(dice_roll.0@, 5);
        }
        let value = sum_matching_dice(&dice_roll.0, 5);
        if self.fives.is_none() {
            self.fives = Some(value);
        }
        self.check_and_set_bonus();
    }

    /// Commits the sum of the sixes, write-once, then rechecks the bonus.
    pub fn set_sixes(&mut self, dice_roll: &Dice)
        requires
            sum_of_face(dice_roll.0@, 6) <= u32::MAX,
            upper_sum(*old(self)) + commit_delta(old(self).sixes, sum_of_face(dice_roll.0@, 6))
                <= u32::MAX,
        ensures
            *final(self) == sixes_committed(*old(self), dice_roll.0@),
    {
        proof {
            lemma_sum_of_face_nonneg(dice_roll.0@, 6);
        }
        let value = sum_matching_dice(&dice_roll.0, 6);
        if self.sixes.is_none() {
            self.sixes = Some(value);
        }
        self.check_and_set_bonus();
    }

    /// Sum of the six upper slots, bonus not counted.
    pub fn score_without_bonus(&self) -> (r: u32)
        requires
            upper_sum(*self) <= u32::MAX,
        ensures
            r == upper_sum(*self),
    {
        let r = slot_or_zero(&self.aces) + slot_or_zero(&self.twos);
        let r = r + slot_or_zero(&self.threes);
        let r = r + slot_or_zero(&self.fours);
        let r = r + slot_or_zero(&self.fives);
        let r = r + slot_or_zero(&self.sixes);
        r
    }

    /// Upper-section total including the bonus.
    pub fn total_score(&self) -> (r: u32)
        requires
            upper_total(*self) <= u32::MAX,
        ensures
            r == upper_total(*self),
    {
        self.score_without_bonus() + slot_or_zero(&self.bonus)
    }

    /// Awards the 35-point bonus once the six upper slots reach 63 points.
    fn check_and_set_bonus(&mut self)
        requires
            upper_sum(*old(self)) <= u32::MAX,
        ensures
            *final(self) == with_bonus_checked(*old(self)),
    {
        let score_without_bonus = self.score_without_bonus();
        if score_without_bonus >= 63 && self.bonus.is_none() {
            self.bonus = Some(35);
        }
    }
}

/// The points a slot contributes, as an executable value.
fn slot_or_zero(slot: &Option<u32>) -> (r: u32)
    ensures
        r == opt_score(*slot),
{
    match slot {
        Some(v) => *v,
        None => 0,
    }
}

/// The lower section after a three-of-a-kind commit: the sum of all dice,
/// write-once, if some face shows at least three times.
pub open spec fn three_of_a_kind_committed(l: ScoreLowerSection, dice: Seq<u32>) -> ScoreLowerSection {
    if has_n_of_a_kind(dice, 3) {
        ScoreLowerSection {
            three_of_a_kind: or_commit(l.three_of_a_kind, dice_sum(dice) as u32),
            ..l
        }
    } else {
        l
    }
}

/// The lower section after a four-of-a-kind commit: the sum of all dice,
/// write-once, if some face shows at least four times.
pub open spec fn four_of_a_kind_committed(l: ScoreLowerSection, dice: Seq<u32>) -> ScoreLowerSection {
    if has_n_of_a_kind(dice, 4) {
        ScoreLowerSection { four_of_a_kind: or_commit(l.four_of_a_kind, dice_sum(dice) as u32), ..l }
    } else {
        l
    }
}

/// The lower section after a full-house commit: a fixed 25, write-once, if
/// one face shows exactly three times and another exactly twice.
pub open spec fn full_house_committed(l: ScoreLowerSection, dice: Seq<u32>) -> ScoreLowerSection {
    if is_full_house(dice) {
        ScoreLowerSection { full_house: or_commit(l.full_house, 25u32), ..l }
    } else {
        l
    }
}

/// The lower section after a small-straight commit: a fixed 30, write-once,
/// if four consecutive face values are present.
pub open spec fn small_straight_committed(l: ScoreLowerSection, dice: Seq<u32>) -> ScoreLowerSection {
    if has_run_of(dice, 4) {
        ScoreLowerSection { small_straight: or_commit(l.small_straight, 30u32), ..l }
    } else {
        l
    }
}

/// The lower section after a large-straight commit: a fixed 40, write-once,
/// if five consecutive face values are present.
pub open spec fn large_straight_committed(l: ScoreLowerSection, dice: Seq<u32>) -> ScoreLowerSection {
    if has_run_of(dice, 5) {
        ScoreLowerSection { large_straight: or_commit(l.large_straight, 40u32), ..l }
    } else {
        l
    }
}

/// The lower section after a Yahtzee commit: each qualifying roll adds 50 on
/// top of whatever the slot already holds, an unplayed slot counting 0.
pub open spec fn yahtzee_committed(l: ScoreLowerSection, dice: Seq<u32>) -> ScoreLowerSection {
    if is_yahtzee(dice) {
        ScoreLowerSection { yahtzee: Some((opt_score(l.yahtzee) + 50) as u32), ..l }
    } else {
        l
    }
}

/// The lower section after a chance commit: the sum of all dice, write-once,
/// with no qualifying condition.
pub open spec fn chance_committed(l: ScoreLowerSection, dice: Seq<u32>) -> ScoreLowerSection {
    ScoreLowerSection { chance: or_commit(l.chance, dice_sum(dice) as u32), ..l }
}

impl ScoreLowerSection {
    /// A fresh lower section with nothing played.
    pub fn new() -> (l: ScoreLowerSection)
        ensures
            lower_unset(l),
    {
        ScoreLowerSection {
            three_of_a_kind: None,
            four_of_a_kind: None,
            full_house: None,
            small_straight: None,
            large_straight: None,
            yahtzee: None,
            chance: None,
        }
    }

    /// Sum of the seven lower slots.
    pub fn total_score(&self) -> (r: u32)
        requires
            lower_sum(*self) <= u32::MAX,
        ensures
            r == lower_sum(*self),
    {
        let r = slot_or_zero(&self.three_of_a_kind) + slot_or_zero(&self.four_of_a_kind);
        let r = r + slot_or_zero(&self.full_house);
        let r = r + slot_or_zero(&self.small_straight);
        let r = r + slot_or_zero(&self.large_straight);
        let r = r + slot_or_zero(&self.yahtzee);
        let r = r + slot_or_zero(&self.chance);
        r
    }

    /// Commits the sum of all dice if some face shows at least three times.
    pub fn set_three_of_a_kind(&mut self, dice_roll: &Dice)
        requires
            dice_wf(dice_roll.0@),
            dice_sum(dice_roll.0@) <= u32::MAX,
        ensures
            *final(self) == three_of_a_kind_committed(*old(self), dice_roll.0@),
    {
        proof {
            lemma_dice_sum_nonneg(dice_roll.0@);
            lemma_dice_sum_at_least_len(dice_roll.0@);
        }
        let frequencies = get_dice_frequencies(&dice_roll.0);
        let qualifies = any_count_at_least(&frequencies, 3);
        proof {
            if has_n_of_a_kind(dice_roll.0@, 3) {
                let face = choose|face: u32| count_of_face(dice_roll.0@, face) >= 3;
                if !(1 <= face <= 6) {
                    lemma_count_of_face_outside(dice_roll.0@, face);
                }
                assert(frequencies@[face - 1] >= 3);
            }
            if exists|k: int| 0 <= k < 6 && #[trigger] frequencies@[k] >= 3 {
                let k = choose|k: int| 0 <= k < 6 && #[trigger] frequencies@[k] >= 3;
                assert(frequencies@[(k + 1) - 1] == count_of_face(dice_roll.0@, (k + 1) as u32));
                assert(count_of_face(dice_roll.0@, (k + 1) as u32) >= 3);
            }
        }
        if qualifies {
            let value = sum_all_dice(&dice_roll.0);
            if self.three_of_a_kind.is_none() {
                self.three_of_a_kind = Some(value);
            }
        }
    }

    /// Commits the sum of all dice if some face shows at least four times.
    pub fn set_four_of_a_kind(&mut self, dice_roll: &Dice)
        requires
            dice_wf(dice_roll.0@),
            dice_sum(dice_roll.0@) <= u32::MAX,
        ensures
            *final(self) == four_of_a_kind_committed(*old(self), dice_roll.0@),
    {
        proof {
            lemma_dice_sum_nonneg(dice_roll.0@);
            lemma_dice_sum_at_least_len(dice_roll.0@);
        }
        let frequencies = get_dice_frequencies(&dice_roll.0);
        let qualifies = any_count_at_least(&frequencies, 4);
        proof {
            if has_n_of_a_kind(dice_roll.0@, 4) {
                let face = choose|face: u32| count_of_face(dice_roll.0@, face) >= 4;
                if !(1 <= face <= 6) {
                    lemma_count_of_face_outside(dice_roll.0@, face);
                }
                assert(frequencies@[face - 1] >= 4);
            }
            if exists|k: int| 0 <= k < 6 && #[trigger] frequencies@[k] >= 4 {
                let k = choose|k: int| 0 <= k < 6 && #[trigger] frequencies@[k] >= 4;
                assert(frequencies@[(k + 1) - 1] == count_of_face(dice_roll.0@, (k + 1) as u32));
                assert(count_of_face(dice_roll.0@, (k + 1) as u32) >= 4);
            }
        }
        if qualifies {
            let value = sum_all_dice(&dice_roll.0);
            if self.four_of_a_kind.is_none() {
                self.four_of_a_kind = Some(value);
            }
        }
    }

    /// Commits a fixed 25 if the roll is a full house.
    pub fn set_full_house(&mut self, dice_roll: &Dice)
        requires
            dice_wf(dice_roll.0@),
            dice_roll.0@.len() <= u32::MAX,
        ensures
            *final(self) == full_house_committed(*old(self), dice_roll.0@),
    {
        let frequencies = get_dice_frequencies(&dice_roll.0);
        let has_triple = any_count_exact(&frequencies, 3);
        let has_pair = any_count_exact(&frequencies, 2);
        proof {
            if exists|face: u32| count_of_face(dice_roll.0@, face) == 3 {
                let face = choose|face: u32| count_of_face(dice_roll.0@, face) == 3;
                if !(1 <= face <= 6) {
                    lemma_count_of_face_outside(dice_roll.0@, face);
                }
                assert(frequencies@[face - 1] == 3);
            }
            if exists|face: u32| count_of_face(dice_roll.0@, face) == 2 {
                let face = choose|face: u32| count_of_face(dice_roll.0@, face) == 2;
                if !(1 <= face <= 6) {
                    lemma_count_of_face_outside(dice_roll.0@, face);
                }
                assert(frequencies@[face - 1] == 2);
            }
            if exists|k: int| 0 <= k < 6 && #[trigger] frequencies@[k] == 3 {
                let k = choose|k: int| 0 <= k < 6 && #[trigger] frequencies@[k] == 3;
                assert(frequencies@[(k + 1) - 1] == count_of_face(dice_roll.0@, (k + 1) as u32));
                assert(count_of_face(dice_roll.0@, (k + 1) as u32) == 3);
            }
            if exists|k: int| 0 <= k < 6 && #[trigger] frequencies@[k] == 2 {
                let k = choose|k: int| 0 <= k < 6 && #[trigger] frequencies@[k] == 2;
                assert(frequencies@[(k + 1) - 1] == count_of_face(dice_roll.0@, (k + 1) as u32));
                assert(count_of_face(dice_roll.0@, (k + 1) as u32) == 2);
            }
        }
        if has_triple && has_pair {
            if self.full_house.is_none() {
                self.full_house = Some(25);
            }
        }
    }

    /// Commits a fixed 30 if four consecutive face values are present.
    pub fn set_small_straight(&mut self, dice_roll: &Dice)
        requires
            dice_wf(dice_roll.0@),
        ensures
            *final(self) == small_straight_committed(*old(self), dice_roll.0@),
    {
        if has_at_least_n_consecutive_numbers(&dice_roll.0, 4) {
            if self.small_straight.is_none() {
                self.small_straight = Some(30);
            }
        }
    }

    /// Commits a fixed 40 if five consecutive face values are present.
    pub fn set_large_straight(&mut self, dice_roll: &Dice)
        requires
            dice_wf(dice_roll.0@),
        ensures
            *final(self) == large_straight_committed(*old(self), dice_roll.0@),
    {
        if has_at_least_n_consecutive_numbers(&dice_roll.0, 5) {
            if self.large_straight.is_none() {
                self.large_straight = Some(40);
            }
        }
    }

    /// Adds 50 to the Yahtzee slot if all dice show the same face.
    pub fn set_yahtzee(&mut self, dice_roll: &Dice)
        requires
            is_yahtzee(dice_roll.0@) ==> opt_score(old(self).yahtzee) + 50 <= u32::MAX,
        ensures
            *final(self) == yahtzee_committed(*old(self), dice_roll.0@),
    {
        if all_dice_equal(&dice_roll.0) {
            let current = slot_or_zero(&self.yahtzee);
            self.yahtzee = Some(current + 50);
        }
    }

    /// Commits the sum of all dice unconditionally, write-once.
    pub fn set_chance(&mut self, dice_roll: &Dice)
        requires
            dice_sum(dice_roll.0@) <= u32::MAX,
        ensures
            *final(self) == chance_committed(*old(self), dice_roll.0@),
    {
        proof {
            lemma_dice_sum_nonneg(dice_roll.0@);
        }
        let value = sum_all_dice(&dice_roll.0);
        if self.chance.is_none() {
            self.chance = Some(value);
        }
    }
}

impl Score {
    /// A fresh scorecard with nothing played.
    pub fn new() -> (s: Score)
        ensures
            upper_unset(s.upper_section),
            lower_unset(s.lower_section),
    {
        Score { upper_section: ScoreUpperSection::new(), lower_section: ScoreLowerSection::new() }
    }

    /// Whole-game total: upper total with bonus plus lower total.
    pub fn total_score(&self) -> (r: u32)
        requires
            grand_total(*self) <= u32::MAX,
        ensures
            r == grand_total(*self),
    {
        self.upper_section.total_score() + self.lower_section.total_score()
    }
}

// ----------------------------------------------------------------------------
// Laws of the commit semantics
// ----------------------------------------------------------------------------

/// An upper-category commit is idempotent: once the aces slot is settled by a
/// first commit, a second commit with any later roll leaves the whole section
/// exactly as the first commit left it.
pub proof fn lemma_aces_commit_idempotent(u: ScoreUpperSection, d1: Seq<u32>, d2: Seq<u32>)
    ensures
        aces_committed(aces_committed(u, d1), d2) == aces_committed(u, d1),
{
}

/// Yahtzee commits are additive: from an unplayed slot, two qualifying rolls
/// leave 50 + 50 = 100 points.
pub proof fn lemma_yahtzee_commit_additive(l: ScoreLowerSection, d1: Seq<u32>, d2: Seq<u32>)
    requires
        l.yahtzee is None,
        is_yahtzee(d1),
        is_yahtzee(d2),
    ensures
        yahtzee_committed(yahtzee_committed(l, d1), d2).yahtzee == Some(100u32),
{
}

} // verus!
