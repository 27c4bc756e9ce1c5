//! Yaku Journal overlay — open/close and whole-entry scrolling.

use vstd::prelude::*;
use crate::input::UiAction;

verus! {

/// Click id of the journal's Close button.
pub const JOURNAL_CLOSE_ID: u32 = 0xF201;

/// Reusable journal state owned by the gameplay and shop scenes.
pub struct JournalOverlay {
    pub open: bool,
    /// Number of whole entries scrolled past.
    pub scroll_steps: u32,
    /// Legal scroll range, refreshed by each draw.
    pub max_scroll_steps: u32,
}

/// Does the action close the journal?
pub open spec fn closes_journal(a: UiAction) -> bool {
    a == UiAction::Help || a == UiAction::Cancel || a == UiAction::Pause
}

/// Scroll position after one action.
pub open spec fn scroll_step(cur: u32, max: u32, a: UiAction) -> u32 {
    match a {
        UiAction::FocusUp | UiAction::FocusPrev => if cur > 0 { (cur - 1) as u32 } else { 0 },
        UiAction::FocusDown | UiAction::FocusNext => if cur < max { (cur + 1) as u32 } else { cur },
        _ => cur,
    }
}

/// Scroll position after the actions of a frame, applied in order.
pub open spec fn scroll_after(cur: u32, max: u32, actions: Seq<UiAction>) -> u32
    decreases actions.len(),
{
    if actions.len() == 0 {
        cur
    } else {
        scroll_step(scroll_after(cur, max, actions.drop_last()), max, actions.last())
    }
}

/// Index of the first closing action in `actions`, or its length when none closes.
pub open spec fn first_close(actions: Seq<UiAction>) -> int
    decreases actions.len(),
{
    if actions.len() == 0 {
        0
    } else if closes_journal(actions[0]) {
        0
    } else {
        1 + first_close(actions.drop_first())
    }
}

proof fn lemma_first_close(actions: Seq<UiAction>)
    ensures
        0 <= first_close(actions) <= actions.len(),
        forall|i: int| 0 <= i < first_close(actions) ==> !closes_journal(#[trigger] actions[i]),
        first_close(actions) < actions.len() ==> closes_journal(actions[first_close(actions)]),
    decreases actions.len(),
{
    if actions.len() > 0 && !closes_journal(actions[0]) {
        lemma_first_close(actions.drop_first());
        assert forall|i: int| 0 <= i < first_close(actions) implies !closes_journal(
            #[trigger] actions[i],
        ) by {
            if i > 0 {
                assert(actions[i] == actions.drop_first()[i - 1]);
            }
        }
    }
}

impl JournalOverlay {
    /// Is the overlay showing?
    pub open spec fn is_open(&self) -> bool {
        self.open
    }

    /// Scroll position (entries scrolled past).
    pub open spec fn scroll(&self) -> u32 {
        self.scroll_steps
    }

    /// Largest scroll position the last layout allows.
    pub open spec fn max_scroll(&self) -> u32 {
        self.max_scroll_steps
    }

    /// The scroll position never passes the legal range.
    pub open spec fn inv(&self) -> bool {
        self.scroll_steps <= self.max_scroll_steps
    }

    /// A closed journal at the top.
    pub fn new() -> (r: Self)
        ensures
            !r.is_open(),
            r.scroll() == 0,
            r.max_scroll() == 0,
            r.inv(),
    {
        Self { open: false, scroll_steps: 0, max_scroll_steps: 0 }
    }

    /// Entries scrolled past.
    pub fn scroll_steps(&self) -> (r: u32)
        ensures
            r == self.scroll(),
    {
        self.scroll_steps
    }

    /// Toggle the overlay; it always re-opens at the top.
    pub fn toggle(&mut self)
        ensures
            final(self).is_open() == !old(self).is_open(),
            final(self).max_scroll() == old(self).max_scroll(),
            final(self).scroll() == if final(self).is_open() { 0 } else { old(self).scroll() },
            old(self).inv() ==> final(self).inv(),
    {
        self.open = !self.open;
        if self.open {
            self.scroll_steps = 0;
        }
    }

    /// Layout step of drawing: the journal lists every yaku on one spread, so
    /// drawing clears the scroll range and returns to the top.
    pub fn reset_scroll_range(&mut self)
        ensures
            final(self).is_open() == old(self).is_open(),
            final(self).scroll() == 0,
            final(self).max_scroll() == 0,
            final(self).inv(),
    {
        self.max_scroll_steps = 0;
        self.scroll_steps = 0;
    }

    /// Process inputs while the overlay is visible. Returns `true` if the
    /// caller should swallow the rest of the frame's input.
    pub fn handle_input(&mut self, actions: &[UiAction], button_clicks: &[u32]) -> (r: bool)
        ensures
            !old(self).is_open() ==> !r && *final(self) == *old(self),
            old(self).is_open() ==> r,
            old(self).is_open() ==> final(self).max_scroll() == old(self).max_scroll(),
            old(self).is_open() ==> {
                let k = first_close(actions@);
                let s = scroll_after(old(self).scroll(), old(self).max_scroll(), actions@.take(k));
                &&& final(self).scroll() == s
                &&& final(self).is_open() == (k == actions@.len() && !button_clicks@.contains(
                    JOURNAL_CLOSE_ID,
                ))
            },
            old(self).inv() ==> final(self).inv(),
    {
        if !self.open {
            return false;
        }
        proof {
            lemma_first_close(actions@);
        }
        let ghost start = self.scroll_steps;
        let mut i: usize = 0;
        while i < actions.len()
            invariant
                i <= actions.len(),
                i <= first_close(actions@),
                0 <= first_close(actions@) <= actions@.len(),
                forall|j: int| 0 <= j < first_close(actions@) ==> !closes_journal(#[trigger] actions@[j]),
                first_close(actions@) < actions@.len() ==> closes_journal(actions@[first_close(actions@)]),
                self.open,
                old(self).open,
                start == old(self).scroll_steps,
                self.max_scroll_steps == old(self).max_scroll_steps,
                self.scroll_steps == scroll_after(start, self.max_scroll_steps, actions@.take(i as int)),
                old(self).inv() ==> self.scroll_steps <= self.max_scroll_steps,
            decreases actions.len() - i,
        {
            proof {
                assert(actions@.take(i + 1).drop_last() =~= actions@.take(i as int));
                assert(actions@.take(i + 1).last() == actions@[i as int]);
            }
            match actions[i] {
                UiAction::Help | UiAction::Cancel | UiAction::Pause => {
                    self.open = false;
                    return true;
                },
                UiAction::FocusUp | UiAction::FocusPrev => {
                    self.scroll_steps = self.scroll_steps.saturating_sub(1);
                },
                UiAction::FocusDown | UiAction::FocusNext => {
                    let cur = self.scroll_steps;
                    if cur < self.max_scroll_steps {
                        self.scroll_steps = cur + 1;
                    }
                },
                _ => {},
            }
            i += 1;
        }
        assert(actions@.take(i as int) =~= actions@.take(first_close(actions@)));
        let mut j: usize = 0;
        while j < button_clicks.len()
            invariant
                j <= button_clicks.len(),
                forall|m: int| 0 <= m < j ==> button_clicks@[m] != JOURNAL_CLOSE_ID,
                self.open,
                old(self).open,
                first_close(actions@) == actions@.len(),
                start == old(self).scroll_steps,
                self.max_scroll_steps == old(self).max_scroll_steps,
                self.scroll_steps == scroll_after(start, self.max_scroll_steps, actions@.take(first_close(actions@))),
                old(self).inv() ==> self.scroll_steps <= self.max_scroll_steps,
            decreases button_clicks.len() - j,
        {
            if button_clicks[j] == JOURNAL_CLOSE_ID {
                self.open = false;
                return true;
            }
            j += 1;
        }
        true
    }
}

/// Scrolling alone never leaves the legal range.
pub proof fn lemma_scroll_after_bounded(cur: u32, max: u32, actions: Seq<UiAction>)
    requires
        cur <= max,
    ensures
        scroll_after(cur, max, actions) <= max,
    decreases actions.len(),
{
    if actions.len() > 0 {
        lemma_scroll_after_bounded(cur, max, actions.drop_last());
    }
}

/// Scrolling moves one whole entry at a time within the legal range:
/// FocusDown/FocusNext one entry on, stopping at the last; FocusUp/FocusPrev
/// one entry back, stopping at the top; other actions leave it. Help,
/// Cancel and Pause close the journal, and nothing else does.
pub proof fn lemma_journal_scroll_steps(cur: u32, max: u32, a: UiAction)
    requires
        cur <= max,
    ensures
        scroll_step(cur, max, a) <= max,
        (a == UiAction::FocusDown || a == UiAction::FocusNext) ==> scroll_step(cur, max, a) == if cur < max {
            cur + 1
        } else {
            cur as int
        },
        (a == UiAction::FocusUp || a == UiAction::FocusPrev) ==> scroll_step(cur, max, a) == if cur > 0 {
            cur - 1
        } else {
            0
        },
        !(a == UiAction::FocusDown || a == UiAction::FocusNext || a == UiAction::FocusUp || a == UiAction::FocusPrev)
            ==> scroll_step(cur, max, a) == cur,
        closes_journal(a) <==> (a == UiAction::Help || a == UiAction::Cancel || a == UiAction::Pause),
        0 < cur < max ==> scroll_step(scroll_step(cur, max, UiAction::FocusDown), max, UiAction::FocusUp) == cur,
{
}

} // verus!
