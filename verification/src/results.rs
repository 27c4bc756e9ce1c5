//! Results scene — after a round the player picks one relic reward.

use vstd::prelude::*;
use crate::input::UiAction;

verus! {

/// Identifier of a relic.
#[derive(Clone, Copy, Debug, PartialEq, Eq, Structural)]
pub struct RelicId(pub u32);

/// The reward choices and the highlighted one.
pub struct ResultsScene {
    pub choices: Vec<RelicId>,
    pub cursor: usize,
}

/// Cursor after one navigation action (Next stops at the last choice, Prev at the first).
pub open spec fn cursor_step(cur: int, a: UiAction, max: int) -> int {
    match a {
        UiAction::FocusNext => if cur + 1 < max { cur + 1 } else { max },
        UiAction::FocusPrev => if cur > 0 { cur - 1 } else { 0 },
        _ => cur,
    }
}

/// Does the action pick the highlighted reward?
pub open spec fn picks(a: UiAction) -> bool {
    a == UiAction::Confirm || a == UiAction::CommitDiscard
}

/// Cursor after the actions of a frame and whether one of them picked
/// (the cursor is then the one picked with).
pub open spec fn results_fold(cur: int, actions: Seq<UiAction>, max: int) -> (int, bool)
    decreases actions.len(),
{
    if actions.len() == 0 {
        (cur, false)
    } else if picks(actions[0]) {
        (cur, true)
    } else {
        results_fold(cursor_step(cur, actions[0], max), actions.drop_first(), max)
    }
}

impl ResultsScene {
    /// The highlight is on a choice (or at 0 when there is none).
    pub open spec fn inv(&self) -> bool {
        self.cursor < self.choices.len() || self.cursor == 0
    }

    pub fn new(choices: Vec<RelicId>) -> (r: Self)
        ensures
            r.choices@ == choices@,
            r.cursor == 0,
            r.inv(),
    {
        Self { choices, cursor: 0 }
    }

    /// One frame: the choice under the mouse (`hovered`) takes the highlight,
    /// then actions move it or pick. Returns the picked relic, if any.
    pub fn update(&mut self, hovered: Option<usize>, actions: &[UiAction]) -> (r: Option<RelicId>)
        requires
            old(self).inv(),
            hovered matches Some(i) ==> i < old(self).choices.len(),
            old(self).choices.len() == 0 ==> !(exists|i: int|
                0 <= i < actions@.len() && picks(#[trigger] actions@[i])),
        ensures
            final(self).choices@ == old(self).choices@,
            final(self).inv(),
            ({
                let start = match hovered { Some(i) => i as int, None => old(self).cursor as int };
                let max = if old(self).choices.len() > 0 { old(self).choices.len() - 1 } else { 0 };
                let (c, picked) = results_fold(start, actions@, max);
                &&& final(self).cursor == c
                &&& picked ==> r == Some(old(self).choices@[c])
                &&& !picked ==> r is None
            }),
    {
        let max = if self.choices.len() > 0 { self.choices.len() - 1 } else { 0 };
        match hovered {
            Some(i) => {
                self.cursor = i;
            },
            None => {},
        }
        let ghost start = self.cursor as int;
        let mut k: usize = 0;
        assert(actions@.skip(0) =~= actions@);
        while k < actions.len()
            invariant
                k <= actions.len(),
                self.choices@ == old(self).choices@,
                max == if self.choices.len() > 0 { self.choices.len() - 1 } else { 0 },
                self.cursor <= max,
                start == match hovered { Some(i) => i as int, None => old(self).cursor as int },
                old(self).choices.len() == 0 ==> !(exists|i: int|
                    0 <= i < actions@.len() && picks(#[trigger] actions@[i])),
                results_fold(self.cursor as int, actions@.skip(k as int), max as int)
                    == results_fold(start, actions@, max as int),
            decreases actions.len() - k,
        {
            let ghost rest = actions@.skip(k as int);
            assert(rest[0] == actions@[k as int]);
            assert(rest.drop_first() =~= actions@.skip(k + 1));
            match actions[k] {
                UiAction::FocusNext => {
                    self.cursor = if self.cursor < max { self.cursor + 1 } else { max };
                },
                UiAction::FocusPrev => {
                    self.cursor = if self.cursor > 0 { self.cursor - 1 } else { 0 };
                },
                UiAction::Confirm | UiAction::CommitDiscard => {
                    assert(picks(actions@[k as int]));
                    return Some(self.choices[self.cursor]);
                },
                _ => {},
            }
            k += 1;
        }
        assert(actions@.skip(k as int) =~= Seq::<UiAction>::empty());
        None
    }
}

/// The reward highlight moves one choice at a time and stays on the
/// choices: FocusNext moves one right, stopping on the last; FocusPrev one
/// left, stopping on the first; other actions leave it. Confirm and
/// CommitDiscard pick the highlighted choice, and nothing else picks.
pub proof fn lemma_results_cursor(cur: int, max: int, a: UiAction)
    requires
        0 <= cur <= max,
    ensures
        0 <= cursor_step(cur, a, max) <= max,
        a == UiAction::FocusNext ==> cursor_step(cur, a, max) == if cur < max { cur + 1 } else { max },
        a == UiAction::FocusPrev ==> cursor_step(cur, a, max) == if cur > 0 { cur - 1 } else { 0 },
        a != UiAction::FocusNext && a != UiAction::FocusPrev ==> cursor_step(cur, a, max) == cur,
        picks(a) <==> (a == UiAction::Confirm || a == UiAction::CommitDiscard),
        0 < cur < max ==> cursor_step(cursor_step(cur, UiAction::FocusNext, max), UiAction::FocusPrev, max) == cur,
        results_fold(cur, seq![UiAction::Confirm], max) == (cur, true),
        results_fold(cur, seq![a], max) == if picks(a) { (cur, true) } else { (cursor_step(cur, a, max), false) },
{
    reveal_with_fuel(results_fold, 2);
    assert(seq![a].drop_first() =~= Seq::<UiAction>::empty());
    assert(seq![UiAction::Confirm].drop_first() =~= Seq::<UiAction>::empty());
}

} // verus!
