//! Pick-chamber hallway: choose Play or Skip before the next chamber.

use vstd::prelude::*;
use crate::input::{FocusId, SfxId, UiAction};

verus! {

/// Kind of the upcoming chamber, as far as the hallway tells them apart:
/// the ordeal chamber cannot be skipped.
#[derive(Clone, Copy, Debug, PartialEq, Eq, Structural)]
pub enum ChamberKind {
    Regular,
    Ordeal,
}

/// The two hallway buttons.
#[derive(Clone, Copy, Debug, PartialEq, Eq, Structural)]
pub enum ChamberAction {
    PlayChamber,
    SkipChamber,
}

impl ChamberAction {
    pub fn id(self) -> (r: FocusId)
        ensures
            r == FocusId(match self {
                ChamberAction::PlayChamber => 1,
                ChamberAction::SkipChamber => 2,
            }),
    {
        match self {
            ChamberAction::PlayChamber => FocusId(1),
            ChamberAction::SkipChamber => FocusId(2),
        }
    }
}

/// Can the upcoming chamber be skipped?
pub fn can_skip(chamber: ChamberKind) -> (r: bool)
    ensures
        r == (chamber != ChamberKind::Ordeal),
{
    !matches!(chamber, ChamberKind::Ordeal)
}

/// Where a hallway frame leads.
#[derive(Clone, Copy, Debug, PartialEq, Eq, Structural)]
pub enum HallwayOutcome {
    Stay,
    /// The upcoming chamber was skipped; show the hallway again.
    SkippedToHallway,
    /// Enter the chamber; `ordeal` when it is the ordeal (an encounter event follows).
    Play { ordeal: bool },
}

/// Caption of the hallway's play marker: "BOSS" before the ordeal chamber,
/// "PLAY" otherwise; the skip marker reads "SKIP".
pub fn play_caption(upcoming: ChamberKind) -> (r: &'static str)
    ensures
        upcoming == ChamberKind::Ordeal ==> r@ == "BOSS"@,
        upcoming != ChamberKind::Ordeal ==> r@ == "PLAY"@,
{
    proof {
        reveal_strlit("BOSS");
        reveal_strlit("PLAY");
    }
    if upcoming == ChamberKind::Ordeal { "BOSS" } else { "PLAY" }
}

/// Decisions of one hallway frame: whether Cancel moves the focus to Skip,
/// the outcome of the button the focus tree activated, and the sounds (the
/// focus sound when the tree's focus moved, then the refocus sound, then
/// the outcome's).
pub fn hallway_step(
    upcoming: ChamberKind,
    skip_focused: bool,
    tree_focus_changed: bool,
    actions: &[UiAction],
    chosen: Option<ChamberAction>,
) -> (r: (bool, HallwayOutcome, Vec<SfxId>))
    ensures
        ({
            let skippable = upcoming != ChamberKind::Ordeal;
            let refocus = skippable && !skip_focused && exists|i: int|
                0 <= i < actions@.len() && #[trigger] actions@[i] == UiAction::Cancel;
            let refocus_sound = (if tree_focus_changed { seq![SfxId::TilePlace] } else { Seq::<SfxId>::empty() })
                + (if refocus { seq![SfxId::TilePlace] } else { Seq::<SfxId>::empty() });
            &&& r.0 == refocus
            &&& match chosen {
                Some(ChamberAction::SkipChamber) => if skippable {
                    r.1 == HallwayOutcome::SkippedToHallway && r.2@ == refocus_sound
                } else {
                    r.1 == HallwayOutcome::Stay && r.2@ == refocus_sound
                },
                Some(ChamberAction::PlayChamber) => r.1 == (HallwayOutcome::Play {
                    ordeal: upcoming == ChamberKind::Ordeal,
                }) && r.2@ == refocus_sound.push(SfxId::RoundStart),
                None => r.1 == HallwayOutcome::Stay && r.2@ == refocus_sound,
            }
        }),
{
    let skippable = can_skip(upcoming);
    let mut sounds: Vec<SfxId> = Vec::new();
    if tree_focus_changed {
        sounds.push(SfxId::TilePlace);
    }
    let ghost focus_sound = sounds@;
    let mut refocus = false;
    if skippable && !skip_focused {
        let mut i: usize = 0;
        while i < actions.len()
            invariant
                i <= actions.len(),
                refocus == exists|j: int| 0 <= j < i && #[trigger] actions@[j] == UiAction::Cancel,
                sounds@ == focus_sound,
            decreases actions.len() - i,
        {
            if actions[i] == UiAction::Cancel {
                refocus = true;
            }
            i += 1;
        }
        if refocus {
            sounds.push(SfxId::TilePlace);
        }
        proof {
            assert(refocus == exists|j: int| 0 <= j < actions@.len() && #[trigger] actions@[j] == UiAction::Cancel);
        }
    }
    assert(sounds@ =~= (if tree_focus_changed { seq![SfxId::TilePlace] } else { Seq::<SfxId>::empty() })
        + (if refocus { seq![SfxId::TilePlace] } else { Seq::<SfxId>::empty() }));
    match chosen {
        Some(ChamberAction::SkipChamber) => {
            if skippable {
                (refocus, HallwayOutcome::SkippedToHallway, sounds)
            } else {
                (refocus, HallwayOutcome::Stay, sounds)
            }
        },
        Some(ChamberAction::PlayChamber) => {
            sounds.push(SfxId::RoundStart);
            (refocus, HallwayOutcome::Play { ordeal: upcoming == ChamberKind::Ordeal }, sounds)
        },
        None => (refocus, HallwayOutcome::Stay, sounds),
    }
}

} // verus!
