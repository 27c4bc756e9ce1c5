//! Profile selection screen — pick one of three profile slots, or delete one
//! after confirming.

use vstd::prelude::*;
use crate::input::{FocusId, SfxId, UiAction};
use crate::text::{decimal, push_decimal};

verus! {

pub const PROFILE_COUNT: usize = 3;

/// Confirmation sub-state for profile deletion.
#[derive(Clone, Copy, Debug, PartialEq, Eq, Structural)]
pub enum ConfirmDelete {
    /// No delete pending.
    Idle,
    /// Waiting for confirmation to delete the profile at this index.
    Pending(usize),
}

/// The delete-confirmation dialog's heading and warning: "Delete Profile
/// `n`?" (`n` counted from 1) while a delete is pending, nothing otherwise.
pub fn delete_prompt(confirm: ConfirmDelete) -> (r: Option<(String, &'static str)>)
    requires
        confirm matches ConfirmDelete::Pending(i) ==> i < u64::MAX,
    ensures
        confirm is Idle ==> r is None,
        confirm matches ConfirmDelete::Pending(i) ==> r matches Some((head, warn)) && head@ == "Delete Profile "@
            + decimal((i + 1) as nat) + "?"@ && warn@ == "All progress will be lost."@,
{
    proof {
        reveal_strlit("Delete Profile ");
        reveal_strlit("?");
        reveal_strlit("All progress will be lost.");
    }
    match confirm {
        ConfirmDelete::Idle => None,
        ConfirmDelete::Pending(i) => {
            let mut head = String::from_str("Delete Profile ");
            push_decimal(&mut head, (i as u64) + 1);
            head.append("?");
            Some((head, "All progress will be lost."))
        },
    }
}

/// Result of a profile-select frame.
#[derive(Clone, Copy, Debug, PartialEq, Eq, Structural)]
pub enum ProfileStep {
    Stay,
    /// Delete the profile at this index (confirmed).
    DeleteProfile(usize),
    /// Leave for the archive without switching.
    ReturnToArchive,
    /// Switch to the profile at this index, then return to the archive.
    SwitchProfile(usize),
}

/// The profile picker: the focus tree's focused card and the delete sub-state.
pub struct ProfileSelectScene {
    pub focused: Option<FocusId>,
    pub confirm_delete: ConfirmDelete,
}

/// Card index under the cursor for a focused id.
pub open spec fn cursor_of(focused: Option<FocusId>) -> int {
    let raw: int = match focused {
        Some(f) => f.0 as int,
        None => 0,
    };
    if raw < PROFILE_COUNT - 1 { raw } else { PROFILE_COUNT - 1 }
}

impl ProfileSelectScene {
    /// Open from the archive's "switch save" entry, focused on the active
    /// profile (the last slot when the saved index is past it).
    pub fn from_archive_switch_save(active_profile: usize) -> (r: Self)
        ensures
            r.focused == Some(FocusId(if active_profile < PROFILE_COUNT - 1 {
                active_profile as u32
            } else {
                (PROFILE_COUNT - 1) as u32
            })),
            r.confirm_delete == ConfirmDelete::Idle,
    {
        let slot = if active_profile < PROFILE_COUNT - 1 { active_profile } else { PROFILE_COUNT - 1 };
        Self { focused: Some(FocusId(slot as u32)), confirm_delete: ConfirmDelete::Idle }
    }

    /// What the controller's west face button does: Delete, except while a
    /// delete waits for confirmation, when it does nothing.
    pub fn west_face_action(&self) -> (r: Option<UiAction>)
        ensures
            r == if self.confirm_delete == ConfirmDelete::Idle { Some(UiAction::Delete) } else { None },
    {
        match self.confirm_delete {
            ConfirmDelete::Idle => Some(UiAction::Delete),
            ConfirmDelete::Pending(_) => None,
        }
    }

    /// Index of the focused card, clamped to the slots.
    pub fn cursor(&self) -> (r: usize)
        ensures
            r == cursor_of(self.focused),
            r < PROFILE_COUNT,
    {
        let raw: usize = match self.focused {
            Some(f) => f.0 as usize,
            None => 0,
        };
        if raw < PROFILE_COUNT - 1 { raw } else { PROFILE_COUNT - 1 }
    }

    /// One frame. While a delete is pending, the first Confirm deletes and the
    /// first Cancel/Pause/Delete aborts. Otherwise `focused` is the focus after
    /// the tree update, `picked` the card it activated, and
    /// `cursor_profile_exists` whether the focused slot holds a save: Cancel or
    /// Pause leave, Delete on an existing save asks for confirmation, then a
    /// picked card switches to it. Returns the step and the sounds in order.
    pub fn update(
        &mut self,
        actions: &[UiAction],
        focused: Option<FocusId>,
        focus_changed: bool,
        picked: Option<usize>,
        cursor_profile_exists: bool,
    ) -> (r: (ProfileStep, Vec<SfxId>))
        ensures
            old(self).confirm_delete matches ConfirmDelete::Pending(idx) ==> {
                &&& final(self).focused == old(self).focused
                &&& r.1@ == Seq::<SfxId>::empty()
                &&& pending_result(actions@, idx) is Some ==> r.0 == pending_result(actions@, idx)->0
                    && final(self).confirm_delete == ConfirmDelete::Idle
                &&& pending_result(actions@, idx) is None ==> r.0 == ProfileStep::Stay
                    && final(self).confirm_delete == old(self).confirm_delete
            },
            old(self).confirm_delete == ConfirmDelete::Idle ==> {
                let focus_sound = if focus_changed { seq![SfxId::TilePlace] } else { Seq::<SfxId>::empty() };
                &&& final(self).focused == focused
                &&& match normal_result(actions@, cursor_profile_exists) {
                    Some(true) => r.0 == ProfileStep::ReturnToArchive && r.1@ == focus_sound.push(SfxId::UiCancel)
                        && final(self).confirm_delete == ConfirmDelete::Idle,
                    Some(false) => r.0 == ProfileStep::Stay && r.1@ == focus_sound
                        && final(self).confirm_delete == ConfirmDelete::Pending(cursor_of(focused) as usize),
                    None => final(self).confirm_delete == ConfirmDelete::Idle && match picked {
                        Some(idx) => r.0 == ProfileStep::SwitchProfile(idx) && r.1@ == focus_sound.push(SfxId::UiConfirm),
                        None => r.0 == ProfileStep::Stay && r.1@ == focus_sound,
                    },
                }
            },
    {
        let mut sounds: Vec<SfxId> = Vec::new();
        match self.confirm_delete {
            ConfirmDelete::Pending(del_idx) => {
                let mut i: usize = 0;
                assert(actions@.skip(0) =~= actions@);
                while i < actions.len()
                    invariant
                        i <= actions.len(),
                        old(self).confirm_delete == ConfirmDelete::Pending(del_idx),
                        self.confirm_delete == old(self).confirm_delete,
                        self.focused == old(self).focused,
                        sounds@ == Seq::<SfxId>::empty(),
                        pending_result(actions@.skip(i as int), del_idx) == pending_result(actions@, del_idx),
                    decreases actions.len() - i,
                {
                    let ghost rest = actions@.skip(i as int);
                    assert(rest[0] == actions@[i as int]);
                    assert(rest.drop_first() =~= actions@.skip(i + 1));
                    match actions[i] {
                        UiAction::Confirm => {
                            self.confirm_delete = ConfirmDelete::Idle;
                            return (ProfileStep::DeleteProfile(del_idx), sounds);
                        },
                        UiAction::Cancel | UiAction::Pause | UiAction::Delete => {
                            self.confirm_delete = ConfirmDelete::Idle;
                            return (ProfileStep::Stay, sounds);
                        },
                        _ => {},
                    }
                    i += 1;
                }
                assert(actions@.skip(i as int) =~= Seq::<UiAction>::empty());
                return (ProfileStep::Stay, sounds);
            },
            ConfirmDelete::Idle => {},
        }
        self.focused = focused;
        if focus_changed {
            sounds.push(SfxId::TilePlace);
        }
        let ghost fs = sounds@;
        assert(fs =~= if focus_changed { seq![SfxId::TilePlace] } else { Seq::<SfxId>::empty() });
        let mut i: usize = 0;
        assert(actions@.skip(0) =~= actions@);
        while i < actions.len()
            invariant
                i <= actions.len(),
                self.confirm_delete == ConfirmDelete::Idle,
                old(self).confirm_delete == ConfirmDelete::Idle,
                self.focused == focused,
                sounds@ == fs,
                fs == if focus_changed { seq![SfxId::TilePlace] } else { Seq::<SfxId>::empty() },
                normal_result(actions@.skip(i as int), cursor_profile_exists) == normal_result(actions@, cursor_profile_exists),
            decreases actions.len() - i,
        {
            let ghost rest = actions@.skip(i as int);
            assert(rest[0] == actions@[i as int]);
            assert(rest.drop_first() =~= actions@.skip(i + 1));
            let a = actions[i];
            if matches!(a, UiAction::Cancel | UiAction::Pause) {
                sounds.push(SfxId::UiCancel);
                return (ProfileStep::ReturnToArchive, sounds);
            }
            if a == UiAction::Delete {
                let idx = self.cursor();
                if cursor_profile_exists {
                    self.confirm_delete = ConfirmDelete::Pending(idx);
                    return (ProfileStep::Stay, sounds);
                }
            }
            i += 1;
        }
        assert(actions@.skip(i as int) =~= Seq::<UiAction>::empty());
        match picked {
            Some(idx) => {
                sounds.push(SfxId::UiConfirm);
                (ProfileStep::SwitchProfile(idx), sounds)
            },
            None => (ProfileStep::Stay, sounds),
        }
    }
}

/// While a delete is pending: the step decided by the first Confirm (delete)
/// or Cancel/Pause/Delete (abort), or `None` when no action decides.
pub open spec fn pending_result(actions: Seq<UiAction>, idx: usize) -> Option<ProfileStep>
    decreases actions.len(),
{
    if actions.len() == 0 {
        None
    } else {
        match actions[0] {
            UiAction::Confirm => Some(ProfileStep::DeleteProfile(idx)),
            UiAction::Cancel | UiAction::Pause | UiAction::Delete => Some(ProfileStep::Stay),
            _ => pending_result(actions.drop_first(), idx),
        }
    }
}

/// In normal selection: `Some(true)` when a Cancel/Pause comes first (leave),
/// `Some(false)` when a Delete on an existing save comes first (ask to
/// confirm), `None` when neither happens.
pub open spec fn normal_result(actions: Seq<UiAction>, exists_save: bool) -> Option<bool>
    decreases actions.len(),
{
    if actions.len() == 0 {
        None
    } else {
        match actions[0] {
            UiAction::Cancel | UiAction::Pause => Some(true),
            UiAction::Delete => if exists_save {
                Some(false)
            } else {
                normal_result(actions.drop_first(), exists_save)
            },
            _ => normal_result(actions.drop_first(), exists_save),
        }
    }
}

/// What a profile card shows of a profile's career.
#[derive(Clone, Copy, Debug, PartialEq, Eq, Structural)]
pub struct ProfileSummary {
    pub level: u32,
    pub runs_completed: u32,
    pub victories: u32,
    pub high_score: u64,
    pub second_high_score: u64,
    pub third_high_score: u64,
    pub relics_unlocked: u32,
    pub yaku_discovered: u32,
    pub has_saved_run: bool,
}

/// One line of a profile card.
#[derive(Clone, Copy, Debug, PartialEq, Eq, Structural)]
pub enum StatLine {
    /// Meta depth, shown in Roman numerals.
    Depth(u32),
    RunsCompleted(u32),
    Victories(u32),
    /// Best score.
    Best(u64),
    /// Second-best score.
    Second(u64),
    /// Third-best score.
    Third(u64),
    RelicsUnlocked(u32),
    YakuDiscovered(u32),
    /// A run is saved and can be resumed (drawn highlighted).
    SavedGame,
}

/// The card's lines: depth, runs, victories, best score, the second and
/// third scores when there are any, relics, yaku, and the saved-run note.
pub open spec fn stat_lines_spec(s: ProfileSummary) -> Seq<StatLine> {
    seq![
        StatLine::Depth(s.level),
        StatLine::RunsCompleted(s.runs_completed),
        StatLine::Victories(s.victories),
        StatLine::Best(s.high_score),
    ] + (if s.second_high_score > 0 { seq![StatLine::Second(s.second_high_score)] } else { seq![] }) + (
    if s.third_high_score > 0 { seq![StatLine::Third(s.third_high_score)] } else { seq![] }) + seq![
        StatLine::RelicsUnlocked(s.relics_unlocked),
        StatLine::YakuDiscovered(s.yaku_discovered),
    ] + (if s.has_saved_run { seq![StatLine::SavedGame] } else { seq![] })
}

/// The lines of a profile card.
pub fn profile_stat_lines(summary: &ProfileSummary) -> (r: Vec<StatLine>)
    ensures
        r@ == stat_lines_spec(*summary),
{
    let mut lines: Vec<StatLine> = Vec::new();
    lines.push(StatLine::Depth(summary.level));
    lines.push(StatLine::RunsCompleted(summary.runs_completed));
    lines.push(StatLine::Victories(summary.victories));
    lines.push(StatLine::Best(summary.high_score));
    if summary.second_high_score > 0 {
        lines.push(StatLine::Second(summary.second_high_score));
    }
    if summary.third_high_score > 0 {
        lines.push(StatLine::Third(summary.third_high_score));
    }
    lines.push(StatLine::RelicsUnlocked(summary.relics_unlocked));
    lines.push(StatLine::YakuDiscovered(summary.yaku_discovered));
    if summary.has_saved_run {
        lines.push(StatLine::SavedGame);
    }
    assert(lines@ =~= stat_lines_spec(*summary));
    lines
}

/// Text of a card line that this screen words itself: counts with their
/// singular or plural noun, and the saved-run note. Depth and scores are
/// worded by the career archive (Roman numerals, score format).
pub open spec fn stat_text_spec(line: StatLine) -> Option<Seq<char>> {
    match line {
        StatLine::RunsCompleted(n) => Some(decimal(n as nat) + " run"@ + (if n == 1 { ""@ } else { "s"@ }) + " completed"@),
        StatLine::Victories(n) => Some(decimal(n as nat) + " victor"@ + (if n == 1 { "y"@ } else { "ies"@ })),
        StatLine::RelicsUnlocked(n) => Some(decimal(n as nat) + " relic"@ + (if n == 1 { ""@ } else { "s"@ }) + " unlocked"@),
        StatLine::YakuDiscovered(n) => Some(decimal(n as nat) + " yaku discovered"@),
        StatLine::SavedGame => Some("Saved game in progress"@),
        _ => None,
    }
}

/// Text of a card line worded by this screen.
pub fn stat_line_text(line: StatLine) -> (r: Option<String>)
    ensures
        r matches Some(t) ==> stat_text_spec(line) == Some(t@),
        r is None ==> stat_text_spec(line) is None,
{
    let mut s = String::new();
    match line {
        StatLine::RunsCompleted(n) => {
            push_decimal(&mut s, n as u64);
            s.append(" run");
            if n != 1 {
                s.append("s");
            }
            s.append(" completed");
            proof {
                assert(s@ =~= decimal(n as nat) + " run"@ + (if n == 1 { ""@ } else { "s"@ }) + " completed"@) by {
                    reveal_strlit("");
                }
            }
            Some(s)
        },
        StatLine::Victories(n) => {
            push_decimal(&mut s, n as u64);
            s.append(" victor");
            if n == 1 {
                s.append("y");
            } else {
                s.append("ies");
            }
            proof {
                assert(s@ =~= decimal(n as nat) + " victor"@ + (if n == 1 { "y"@ } else { "ies"@ }));
            }
            Some(s)
        },
        StatLine::RelicsUnlocked(n) => {
            push_decimal(&mut s, n as u64);
            s.append(" relic");
            if n != 1 {
                s.append("s");
            }
            s.append(" unlocked");
            proof {
                assert(s@ =~= decimal(n as nat) + " relic"@ + (if n == 1 { ""@ } else { "s"@ }) + " unlocked"@) by {
                    reveal_strlit("");
                }
            }
            Some(s)
        },
        StatLine::YakuDiscovered(n) => {
            push_decimal(&mut s, n as u64);
            s.append(" yaku discovered");
            proof {
                assert(s@ =~= decimal(n as nat) + " yaku discovered"@);
            }
            Some(s)
        },
        StatLine::SavedGame => Some(String::from_str("Saved game in progress")),
        _ => None,
    }
}

/// Only the saved-run note is drawn highlighted.
pub fn stat_line_highlighted(line: StatLine) -> (r: bool)
    ensures
        r == (line == StatLine::SavedGame),
{
    match line {
        StatLine::SavedGame => true,
        _ => false,
    }
}

/// The delete dialog: a Confirm deletes the pending profile, Cancel, Pause
/// or Delete abort it, and other actions wait, so the first deciding action
/// wins. In normal selection Cancel or Pause leave, Delete asks to confirm
/// only on an existing save, and other actions wait.
pub proof fn lemma_profile_deciding_actions(a: UiAction, rest: Seq<UiAction>, idx: usize, exists_save: bool)
    ensures
        pending_result(seq![a] + rest, idx) == (if a == UiAction::Confirm {
            Some(ProfileStep::DeleteProfile(idx))
        } else if a == UiAction::Cancel || a == UiAction::Pause || a == UiAction::Delete {
            Some(ProfileStep::Stay)
        } else {
            pending_result(rest, idx)
        }),
        pending_result(Seq::empty(), idx) is None,
        normal_result(seq![a] + rest, exists_save) == (if a == UiAction::Cancel || a == UiAction::Pause {
            Some(true)
        } else if a == UiAction::Delete && exists_save {
            Some(false)
        } else {
            normal_result(rest, exists_save)
        }),
        normal_result(Seq::empty(), exists_save) is None,
{
    assert((seq![a] + rest)[0] == a);
    assert((seq![a] + rest).drop_first() =~= rest);
}

} // verus!
