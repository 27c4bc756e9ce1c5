//! Pick-blind scene: choose Play or Skip before the next blind.

use vstd::prelude::*;
use crate::input::{FocusId, SfxId, UiAction};

verus! {

/// Kind of the upcoming blind, as far as this scene tells them apart:
/// the boss blind cannot be skipped.
#[derive(Clone, Copy, Debug, PartialEq, Eq, Structural)]
pub enum BlindKind {
    Regular,
    Boss,
}

/// The two buttons.
#[derive(Clone, Copy, Debug, PartialEq, Eq, Structural)]
pub enum BlindAction {
    PlayBlind,
    SkipBlind,
}

impl BlindAction {
    pub fn id(self) -> (r: FocusId)
        ensures
            r == FocusId(match self {
                BlindAction::PlayBlind => 1,
                BlindAction::SkipBlind => 2,
            }),
    {
        match self {
            BlindAction::PlayBlind => FocusId(1),
            BlindAction::SkipBlind => FocusId(2),
        }
    }
}

/// Can the upcoming blind be skipped?
pub fn can_skip(blind: BlindKind) -> (r: bool)
    ensures
        r == (blind != BlindKind::Boss),
{
    !matches!(blind, BlindKind::Boss)
}

/// Where a pick-blind frame leads.
#[derive(Clone, Copy, Debug, PartialEq, Eq, Structural)]
pub enum PickBlindOutcome {
    Stay,
    /// The blind was skipped (taking its tag); pick again.
    Skipped,
    /// Play the blind; `boss` when it is the boss (an encounter event follows).
    Play { boss: bool },
}

/// Decision of one frame: Cancel skips a skippable blind at once; otherwise
/// the button the focus tree activated decides. Returns the outcome and the
/// sounds that play (the focus sound when the tree's focus moved first).
pub fn pick_blind_step(
    upcoming: BlindKind,
    tree_focus_changed: bool,
    actions: &[UiAction],
    chosen: Option<BlindAction>,
) -> (r: (PickBlindOutcome, Vec<SfxId>))
    ensures
        ({
            let skippable = upcoming != BlindKind::Boss;
            let cancel = exists|i: int| 0 <= i < actions@.len() && #[trigger] actions@[i] == UiAction::Cancel;
            let focus = if tree_focus_changed { seq![SfxId::TilePlace] } else { Seq::<SfxId>::empty() };
            if skippable && cancel {
                r.0 == PickBlindOutcome::Skipped && r.1@ == focus
            } else {
                match chosen {
                    Some(BlindAction::SkipBlind) => r.1@ == focus && r.0 == if skippable {
                        PickBlindOutcome::Skipped
                    } else {
                        PickBlindOutcome::Stay
                    },
                    Some(BlindAction::PlayBlind) => r.0 == (PickBlindOutcome::Play { boss: upcoming == BlindKind::Boss })
                        && r.1@ == focus.push(SfxId::RoundStart),
                    None => r.0 == PickBlindOutcome::Stay && r.1@ == focus,
                }
            }
        }),
{
    let mut sounds: Vec<SfxId> = Vec::new();
    if tree_focus_changed {
        sounds.push(SfxId::TilePlace);
    }
    assert(sounds@ =~= if tree_focus_changed { seq![SfxId::TilePlace] } else { Seq::<SfxId>::empty() });
    let skippable = can_skip(upcoming);
    let mut i: usize = 0;
    while i < actions.len()
        invariant
            i <= actions.len(),
            skippable == (upcoming != BlindKind::Boss),
            skippable ==> forall|j: int| 0 <= j < i ==> #[trigger] actions@[j] != UiAction::Cancel,
            sounds@ == if tree_focus_changed { seq![SfxId::TilePlace] } else { Seq::<SfxId>::empty() },
        decreases actions.len() - i,
    {
        if actions[i] == UiAction::Cancel && skippable {
            return (PickBlindOutcome::Skipped, sounds);
        }
        i += 1;
    }
    match chosen {
        Some(BlindAction::SkipBlind) => {
            if skippable {
                (PickBlindOutcome::Skipped, sounds)
            } else {
                (PickBlindOutcome::Stay, sounds)
            }
        },
        Some(BlindAction::PlayBlind) => {
            sounds.push(SfxId::RoundStart);
            (PickBlindOutcome::Play { boss: upcoming == BlindKind::Boss }, sounds)
        },
        None => (PickBlindOutcome::Stay, sounds),
    }
}

} // verus!
