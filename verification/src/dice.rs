//! Dice values and the roll/reroll state machine for one turn.
//!
//! A die shows a face in `[1, 6]`. A turn owns a budget of roll actions
//! (`max_number_of_rolls`, default 3); rolling all dice or rerolling a chosen
//! subset of positions each consume one action.

use vstd::prelude::*;

verus! {

/// Every die value of the roll lies in `[1, 6]`.
pub open spec fn dice_wf(s: Seq<u32>) -> bool {
    forall|i: int| 0 <= i < s.len() ==> 1 <= #[trigger] s[i] <= 6
}

/// Relies on `rand::distributions::Uniform::new_inclusive` together with
/// `Rng::sample_iter` on `rand::thread_rng`: each sample lies in the closed
/// range `[lo, hi]`. The values themselves are random, so nothing more is
/// stated of them.
#[verifier::external_body]
fn sample_uniform_dice(lo: u32, hi: u32, n: usize) -> (r: Vec<u32>)
    requires
        lo <= hi,
    ensures
        r@.len() == n,
        forall|i: int| 0 <= i < n ==> lo <= #[trigger] r@[i] <= hi,
{
    let range = rand::distributions::Uniform::new_inclusive(lo, hi);
    let mut rng = rand::thread_rng();
    rand::Rng::sample_iter(&mut rng, range).take(n).collect()
}

/// An ordered roll of dice; empty before the first roll of a turn.
pub struct Dice(pub Vec<u32>);

impl Dice {
    /// The empty roll that starts a turn.
    pub fn new() -> (d: Dice)
        ensures
            d.0@.len() == 0,
    {
        Dice(Vec::new())
    }

    /// Draws `n_dice` fresh independent values, each uniform in `[1, 6]`.
    pub fn roll_dice(n_dice: usize) -> (d: Dice)
        ensures
            d.0@.len() == n_dice,
            dice_wf(d.0@),
    {
        Dice(sample_uniform_dice(1, 6, n_dice))
    }
}

/// Why a reroll request was refused.
#[derive(Debug, PartialEq, Eq, Structural)]
pub enum DiceStateError {
    /// Some requested position lies outside the current dice roll.
    InvalidSelection,
    /// The roll budget of the turn is already spent.
    RollBudgetExhausted,
}

/// Every requested position points at one of the `n_dice` dice.
pub open spec fn valid_selection(ids: Seq<usize>, n_dice: int) -> bool {
    forall|i: int| 0 <= i < ids.len() ==> (#[trigger] ids[i]) < n_dice
}

/// The dice of the current turn together with its roll budget.
pub struct DiceState {
    pub dice: Dice,
    pub number_of_dice: usize,
    pub max_number_of_rolls: usize,
    pub number_of_rolls: usize,
}

impl DiceState {
    /// The state's invariant: dice are well formed, the roll counter never
    /// passes the budget, the budget allows at least one roll, and the roll is
    /// empty or complete.
    pub open spec fn wf(self) -> bool {
        &&& dice_wf(self.dice.0@)
        &&& self.number_of_rolls <= self.max_number_of_rolls
        &&& self.max_number_of_rolls >= 1
        &&& (self.dice.0@.len() == 0 || self.dice.0@.len() == self.number_of_dice)
    }

    /// A fresh turn: no dice yet, five dice per roll, three rolls allowed.
    pub fn new() -> (s: DiceState)
        ensures
            s.wf(),
            s.dice.0@.len() == 0,
            s.number_of_dice == 5,
            s.max_number_of_rolls == 3,
            s.number_of_rolls == 0,
    {
        DiceState {
            dice: Dice::new(),
            number_of_dice: 5,
            number_of_rolls: 0,
            max_number_of_rolls: 3,
        }
    }

    /// Clears the dice and the roll counter for the next turn; the
    /// configuration is kept.
    pub fn reset(&mut self)
        ensures
            final(self).dice.0@.len() == 0,
            final(self).number_of_rolls == 0,
            final(self).number_of_dice == old(self).number_of_dice,
            final(self).max_number_of_rolls == old(self).max_number_of_rolls,
            old(self).max_number_of_rolls >= 1 ==> final(self).wf(),
    {
        self.dice = Dice::new();
        self.number_of_rolls = 0;
    }

    /// The roll budget of the turn is spent.
    pub fn reached_max_rolls(&self) -> (r: bool)
        ensures
            r == (self.number_of_rolls >= self.max_number_of_rolls),
    {
        self.number_of_rolls >= self.max_number_of_rolls
    }

    /// Replaces the whole roll with fresh dice and counts one roll; silently
    /// does nothing once the budget is spent, so the counter never passes it.
    pub fn roll_all_dice(&mut self)
        ensures
            final(self).number_of_dice == old(self).number_of_dice,
            final(self).max_number_of_rolls == old(self).max_number_of_rolls,
            old(self).number_of_rolls >= old(self).max_number_of_rolls ==> *final(self) == *old(self),
            old(self).number_of_rolls < old(self).max_number_of_rolls ==> {
                &&& final(self).number_of_rolls == old(self).number_of_rolls + 1
                &&& final(self).dice.0@.len() == old(self).number_of_dice
                &&& dice_wf(final(self).dice.0@)
            },
            old(self).number_of_rolls <= old(self).max_number_of_rolls ==> final(self).number_of_rolls <= old(self).max_number_of_rolls,
            old(self).wf() ==> final(self).wf(),
    {
        if !self.reached_max_rolls() {
            self.number_of_rolls = self.number_of_rolls + 1;
            self.dice = Dice::roll_dice(self.number_of_dice);
        }
    }

    /// Draws fresh values for exactly the chosen positions and counts one
    /// roll. Positions outside the current roll are refused first, with
    /// `InvalidSelection`; then a spent budget is refused with
    /// `RollBudgetExhausted`. Dice at unchosen positions are untouched, and an
    /// empty selection is legal: it spends a roll and changes no die.
    pub fn reroll_selected_dice(&mut self, dice_ids_to_reroll: Vec<usize>) -> (r: Result<
        (),
        DiceStateError,
    >)
        ensures
            final(self).number_of_dice == old(self).number_of_dice,
            final(self).max_number_of_rolls == old(self).max_number_of_rolls,
            !valid_selection(dice_ids_to_reroll@, old(self).dice.0@.len() as int) ==> {
                &&& r == Err::<(), DiceStateError>(DiceStateError::InvalidSelection)
                &&& final(self).dice.0@ == old(self).dice.0@
                &&& final(self).number_of_rolls == old(self).number_of_rolls
            },
            (valid_selection(dice_ids_to_reroll@, old(self).dice.0@.len() as int)
                && old(self).number_of_rolls >= old(self).max_number_of_rolls) ==> {
                &&& r == Err::<(), DiceStateError>(DiceStateError::RollBudgetExhausted)
                &&& final(self).dice.0@ == old(self).dice.0@
                &&& final(self).number_of_rolls == old(self).number_of_rolls
            },
            (valid_selection(dice_ids_to_reroll@, old(self).dice.0@.len() as int)
                && old(self).number_of_rolls < old(self).max_number_of_rolls) ==> {
                &&& r == Ok::<(), DiceStateError>(())
                &&& final(self).number_of_rolls == old(self).number_of_rolls + 1
                &&& final(self).dice.0@.len() == old(self).dice.0@.len()
                &&& forall|p: int|
                    0 <= p < old(self).dice.0@.len() && !dice_ids_to_reroll@.contains(p as usize)
                        ==> final(self).dice.0@[p] == old(self).dice.0@[p]
                &&& forall|p: int|
                    0 <= p < old(self).dice.0@.len() && dice_ids_to_reroll@.contains(p as usize)
                        ==> 1 <= #[trigger] final(self).dice.0@[p] <= 6
            },
            old(self).wf() ==> final(self).wf(),
    {
        let n = self.dice.0.len();
        let mut i: usize = 0;
        while i < dice_ids_to_reroll.len()
            invariant
                i <= dice_ids_to_reroll@.len(),
                forall|k: int| 0 <= k < i ==> (#[trigger] dice_ids_to_reroll@[k]) < n,
                n == self.dice.0@.len(),
            decreases dice_ids_to_reroll@.len() - i,
        {
            if dice_ids_to_reroll[i] >= n {
                return Err(DiceStateError::InvalidSelection);
            }
            i = i + 1;
        }
        if self.reached_max_rolls() {
            return Err(DiceStateError::RollBudgetExhausted);
        }
        let new_dice = Dice::roll_dice(dice_ids_to_reroll.len());
        self.number_of_rolls = self.number_of_rolls + 1;
        let ghost orig = self.dice.0@;
        let mut j: usize = 0;
        while j < dice_ids_to_reroll.len()
            invariant
                j <= dice_ids_to_reroll@.len(),
                orig.len() == n,
                valid_selection(dice_ids_to_reroll@, orig.len() as int),
                self.dice.0@.len() == orig.len(),
                new_dice.0@.len() == dice_ids_to_reroll@.len(),
                dice_wf(new_dice.0@),
                forall|p: int|
                    0 <= p < orig.len() && !dice_ids_to_reroll@.subrange(0, j as int).contains(
                        p as usize,
                    ) ==> self.dice.0@[p] == orig[p],
                forall|p: int|
                    0 <= p < orig.len() && dice_ids_to_reroll@.subrange(0, j as int).contains(
                        p as usize,
                    ) ==> 1 <= #[trigger] self.dice.0@[p] <= 6,
                self.number_of_dice == old(self).number_of_dice,
                self.max_number_of_rolls == old(self).max_number_of_rolls,
                self.number_of_rolls == old(self).number_of_rolls + 1,
            decreases dice_ids_to_reroll@.len() - j,
        {
            let idx = dice_ids_to_reroll[j];
            let val = new_dice.0[j];
            let ghost before = self.dice.0@;
            self.dice.0.set(idx, val);
            proof {
                let pre = dice_ids_to_reroll@.subrange(0, j as int);
                let post = dice_ids_to_reroll@.subrange(0, j + 1);
                assert(post[j as int] == idx);
                assert(post.contains(idx));
                assert forall|p: usize| pre.contains(p) implies post.contains(p) by {
                    let k = choose|k: int| 0 <= k < pre.len() && pre[k] == p;
                    assert(post[k] == p);
                }
                assert forall|p: usize| post.contains(p) implies (pre.contains(p) || p
                    == idx) by {
                    let k = choose|k: int| 0 <= k < post.len() && post[k] == p;
                    if k < j {
                        assert(pre[k] == p);
                    }
                }
                assert forall|p: int|
                    0 <= p < orig.len() && !post.contains(p as usize) implies #[trigger] self.dice.0@[p]
                    == orig[p] by {
                    assert((p as usize) as int == p);
                    assert(!pre.contains(p as usize));
                    assert(p != idx as int);
                    assert(before[p] == orig[p]);
                }
                assert forall|p: int|
                    0 <= p < orig.len() && post.contains(p as usize) implies 1
                    <= #[trigger] self.dice.0@[p] <= 6 by {
                    if p == idx as int {
                        assert(1 <= new_dice.0@[j as int] <= 6);
                    } else {
                        assert((p as usize) as int == p);
                        assert(p as usize != idx);
                        assert(pre.contains(p as usize));
                        assert(1 <= before[p] <= 6);
                    }
                }
            }
            j = j + 1;
        }
        proof {
            assert(dice_ids_to_reroll@.subrange(0, j as int) =~= dice_ids_to_reroll@);
            if old(self).wf() {
                assert forall|p: int| 0 <= p < self.dice.0@.len() implies 1
                    <= #[trigger] self.dice.0@[p] <= 6 by {
                    if !dice_ids_to_reroll@.contains(p as usize) {
                        assert(self.dice.0@[p] == orig[p]);
                    }
                }
                assert(dice_wf(self.dice.0@));
            }
        }
        Ok(())
    }
}

} // verus!
