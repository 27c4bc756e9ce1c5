//! Shared pause menu used by gameplay, shop and blind-selection scenes:
//! its rows, and what a frame of input does while it is open.

use vstd::prelude::*;
use crate::input::{FocusId, SfxId, UiAction};

verus! {

/// A row of the pause menu.
#[derive(Clone, Copy, Debug, PartialEq, Eq, Structural)]
pub enum PauseAction {
    Resume,
    Restart,
    Options,
    MainMenu,
    Exit,
}

pub open spec fn pause_action_ordinal(a: PauseAction) -> u32 {
    match a {
        PauseAction::Resume => 0,
        PauseAction::Restart => 1,
        PauseAction::Options => 2,
        PauseAction::MainMenu => 3,
        PauseAction::Exit => 4,
    }
}

impl PauseAction {
    pub fn id(self) -> (r: FocusId)
        ensures
            r == FocusId((0x1000_0000 + pause_action_ordinal(self)) as u32),
    {
        FocusId(
            match self {
                PauseAction::Resume => 0x1000_0000,
                PauseAction::Restart => 0x1000_0001,
                PauseAction::Options => 0x1000_0002,
                PauseAction::MainMenu => 0x1000_0003,
                PauseAction::Exit => 0x1000_0004,
            },
        )
    }
}

/// Scene a pause-menu choice navigates to.
#[derive(Clone, Copy, Debug, PartialEq, Eq, Structural)]
pub enum PauseTarget {
    MainMenu,
    /// After a restart the run is reset and play resumes in the shop.
    ShopFromRun,
}

/// Result of a paused frame.
#[derive(Clone, Copy, Debug, PartialEq, Eq, Structural)]
pub enum PauseUpdate {
    StayPaused,
    Resume,
    Transition(PauseTarget),
    Quit,
}

/// What the embedded options overlay reported for this frame.
#[derive(Clone, Copy, Debug, PartialEq, Eq, Structural)]
pub struct OptionsOverlayFrame {
    /// The overlay asked to close (Back / Cancel / Pause).
    pub closed: bool,
    pub focus_changed: bool,
    pub confirm_requested: bool,
    pub credits_requested: bool,
}

/// Pause menu state.
pub struct PauseMenu {
    pub paused: bool,
    /// The options sub-overlay is open on top of the pause root.
    pub options_open: bool,
    /// One-shot flag set when the player opens Credits from the options overlay.
    pub credits_requested: bool,
}

/// Does the action leave the pause menu?
pub open spec fn resumes(a: UiAction) -> bool {
    a == UiAction::Pause || a == UiAction::Cancel
}

/// A paused frame as a function of the menu's flags (paused, options
/// open, credits requested): the result, the sounds in order, and the new
/// flags.
pub open spec fn pause_frame_spec(
    paused: bool,
    options_open: bool,
    credits: bool,
    actions: Seq<UiAction>,
    overlay: OptionsOverlayFrame,
    tree_focus_changed: bool,
    chosen: Option<PauseAction>,
) -> (PauseUpdate, Seq<SfxId>, bool, bool, bool) {
    if options_open {
        let heard = (if overlay.focus_changed { seq![SfxId::TilePlace] } else { Seq::<SfxId>::empty() })
            + (if overlay.confirm_requested { seq![SfxId::UiConfirm] } else { Seq::<SfxId>::empty() });
        if !overlay.closed && overlay.credits_requested {
            (PauseUpdate::Resume, heard.push(SfxId::UiConfirm), false, false, true)
        } else if !overlay.closed {
            (PauseUpdate::StayPaused, heard, paused, true, credits)
        } else {
            (PauseUpdate::StayPaused, seq![SfxId::UiCancel], paused, false, credits)
        }
    } else if exists|i: int| 0 <= i < actions.len() && resumes(#[trigger] actions[i]) {
        (PauseUpdate::Resume, seq![SfxId::Unpause], false, options_open, credits)
    } else {
        let focus = if tree_focus_changed { seq![SfxId::TilePlace] } else { Seq::<SfxId>::empty() };
        match chosen {
            Some(PauseAction::Resume) => (PauseUpdate::Resume, focus.push(SfxId::Unpause), false, false, credits),
            Some(PauseAction::Restart) => (PauseUpdate::Transition(PauseTarget::ShopFromRun), focus.push(SfxId::UiConfirm), paused, false, credits),
            Some(PauseAction::Options) => (PauseUpdate::StayPaused, focus.push(SfxId::UiConfirm), paused, true, credits),
            Some(PauseAction::MainMenu) => (PauseUpdate::Transition(PauseTarget::MainMenu), focus.push(SfxId::UiCancel), paused, false, credits),
            Some(PauseAction::Exit) => (PauseUpdate::Quit, focus.push(SfxId::UiConfirm), paused, false, credits),
            None => (PauseUpdate::StayPaused, focus, paused, false, credits),
        }
    }
}

/// What a scene does with the pause menu's frame.
#[derive(Clone, Copy, Debug, PartialEq, Eq, Structural)]
pub enum PauseHandled {
    /// The menu is closed and no Pause came: the scene handles its own input.
    NotPaused,
    /// The menu used the frame (it opened, stays open, or closed to resume).
    Consumed,
    /// Go to another scene.
    Transition(PauseTarget),
    /// Quit the application.
    Quit,
}

/// How a scene reads a paused frame's result.
pub open spec fn handled_of(u: PauseUpdate) -> PauseHandled {
    match u {
        PauseUpdate::StayPaused | PauseUpdate::Resume => PauseHandled::Consumed,
        PauseUpdate::Transition(t) => PauseHandled::Transition(t),
        PauseUpdate::Quit => PauseHandled::Quit,
    }
}

impl PauseMenu {
    pub fn new() -> (r: Self)
        ensures
            !r.paused && !r.options_open && !r.credits_requested,
    {
        Self { paused: false, options_open: false, credits_requested: false }
    }

    /// Drain the credits-open request flag.
    pub fn take_credits_request(&mut self) -> (r: bool)
        ensures
            r == old(self).credits_requested,
            !final(self).credits_requested,
            final(self).paused == old(self).paused,
            final(self).options_open == old(self).options_open,
    {
        let v = self.credits_requested;
        self.credits_requested = false;
        v
    }

    /// Open the pause menu at its root.
    pub fn open(&mut self)
        ensures
            final(self).paused && !final(self).options_open && !final(self).credits_requested,
    {
        self.paused = true;
        self.options_open = false;
        self.credits_requested = false;
    }

    /// One paused frame. While the options overlay is open its report decides;
    /// otherwise Pause/Cancel resume, and then the row the focus tree activated
    /// (`chosen`) decides. `tree_focus_changed` plays the focus sound first.
    /// Returns the result and the sounds to play, in order.
    pub fn update(
        &mut self,
        actions: &[UiAction],
        overlay: OptionsOverlayFrame,
        tree_focus_changed: bool,
        chosen: Option<PauseAction>,
    ) -> (r: (PauseUpdate, Vec<SfxId>))
        ensures
            (r.0, r.1@, final(self).paused, final(self).options_open, final(self).credits_requested) == pause_frame_spec(
                old(self).paused,
                old(self).options_open,
                old(self).credits_requested,
                actions@,
                overlay,
                tree_focus_changed,
                chosen,
            ),
            old(self).options_open ==> {
                let still_open = !overlay.closed;
                if still_open && overlay.credits_requested {
                    &&& r.0 == PauseUpdate::Resume
                    &&& !final(self).options_open && !final(self).paused && final(self).credits_requested
                    &&& r.1@ == (if overlay.focus_changed { seq![SfxId::TilePlace] } else { seq![] })
                        + (if overlay.confirm_requested { seq![SfxId::UiConfirm] } else { seq![] })
                        + seq![SfxId::UiConfirm]
                } else if still_open {
                    &&& r.0 == PauseUpdate::StayPaused
                    &&& *final(self) == *old(self)
                    &&& r.1@ == (if overlay.focus_changed { seq![SfxId::TilePlace] } else { seq![] })
                        + (if overlay.confirm_requested { seq![SfxId::UiConfirm] } else { seq![] })
                } else {
                    &&& r.0 == PauseUpdate::StayPaused
                    &&& !final(self).options_open
                    &&& final(self).paused == old(self).paused
                    &&& final(self).credits_requested == old(self).credits_requested
                    &&& r.1@ == seq![SfxId::UiCancel]
                }
            },
            !old(self).options_open && (exists|i: int| 0 <= i < actions@.len() && resumes(#[trigger] actions@[i])) ==> {
                &&& r.0 == PauseUpdate::Resume
                &&& r.1@ == seq![SfxId::Unpause]
                &&& !final(self).paused
                &&& final(self).options_open == old(self).options_open
                &&& final(self).credits_requested == old(self).credits_requested
            },
            !old(self).options_open && !(exists|i: int| 0 <= i < actions@.len() && resumes(#[trigger] actions@[i])) ==> {
                let focus = if tree_focus_changed { seq![SfxId::TilePlace] } else { Seq::<SfxId>::empty() };
                &&& final(self).credits_requested == old(self).credits_requested
                &&& match chosen {
                    Some(PauseAction::Resume) => r.0 == PauseUpdate::Resume && r.1@ == focus.push(SfxId::Unpause)
                        && !final(self).paused && !final(self).options_open,
                    Some(PauseAction::Restart) => r.0 == PauseUpdate::Transition(PauseTarget::ShopFromRun)
                        && r.1@ == focus.push(SfxId::UiConfirm) && final(self).paused == old(self).paused
                        && !final(self).options_open,
                    Some(PauseAction::Options) => r.0 == PauseUpdate::StayPaused && r.1@ == focus.push(SfxId::UiConfirm)
                        && final(self).paused == old(self).paused && final(self).options_open,
                    Some(PauseAction::MainMenu) => r.0 == PauseUpdate::Transition(PauseTarget::MainMenu)
                        && r.1@ == focus.push(SfxId::UiCancel) && final(self).paused == old(self).paused
                        && !final(self).options_open,
                    Some(PauseAction::Exit) => r.0 == PauseUpdate::Quit && r.1@ == focus.push(SfxId::UiConfirm)
                        && final(self).paused == old(self).paused && !final(self).options_open,
                    None => r.0 == PauseUpdate::StayPaused && r.1@ == focus
                        && final(self).paused == old(self).paused && !final(self).options_open,
                }
            },
    {
        let mut sounds: Vec<SfxId> = Vec::new();
        if self.options_open {
            if overlay.closed {
                self.options_open = false;
            }
            if self.options_open {
                if overlay.focus_changed {
                    sounds.push(SfxId::TilePlace);
                }
                if overlay.confirm_requested {
                    sounds.push(SfxId::UiConfirm);
                }
                if overlay.credits_requested {
                    sounds.push(SfxId::UiConfirm);
                    self.options_open = false;
                    self.credits_requested = true;
                    self.paused = false;
                    proof {
                        assert(sounds@ =~= (if overlay.focus_changed { seq![SfxId::TilePlace] } else { seq![] })
                            + (if overlay.confirm_requested { seq![SfxId::UiConfirm] } else { seq![] })
                            + seq![SfxId::UiConfirm]);
                    }
                    return (PauseUpdate::Resume, sounds);
                }
                proof {
                    assert(sounds@ =~= (if overlay.focus_changed { seq![SfxId::TilePlace] } else { seq![] })
                        + (if overlay.confirm_requested { seq![SfxId::UiConfirm] } else { seq![] }));
                }
            }
            if !self.options_open {
                sounds.push(SfxId::UiCancel);
            }
            return (PauseUpdate::StayPaused, sounds);
        }
        let mut i: usize = 0;
        while i < actions.len()
            invariant
                i <= actions.len(),
                forall|j: int| 0 <= j < i ==> !resumes(#[trigger] actions@[j]),
                !old(self).options_open,
                self.paused == old(self).paused,
                self.options_open == old(self).options_open,
                self.credits_requested == old(self).credits_requested,
                sounds@ == Seq::<SfxId>::empty(),
            decreases actions.len() - i,
        {
            if matches!(actions[i], UiAction::Pause | UiAction::Cancel) {
                sounds.push(SfxId::Unpause);
                self.paused = false;
                return (PauseUpdate::Resume, sounds);
            }
            i += 1;
        }
        if tree_focus_changed {
            sounds.push(SfxId::TilePlace);
        }
        match chosen {
            Some(PauseAction::Resume) => {
                sounds.push(SfxId::Unpause);
                self.paused = false;
                (PauseUpdate::Resume, sounds)
            },
            Some(PauseAction::Restart) => {
                sounds.push(SfxId::UiConfirm);
                (PauseUpdate::Transition(PauseTarget::ShopFromRun), sounds)
            },
            Some(PauseAction::Options) => {
                sounds.push(SfxId::UiConfirm);
                self.options_open = true;
                (PauseUpdate::StayPaused, sounds)
            },
            Some(PauseAction::MainMenu) => {
                sounds.push(SfxId::UiCancel);
                (PauseUpdate::Transition(PauseTarget::MainMenu), sounds)
            },
            Some(PauseAction::Exit) => {
                sounds.push(SfxId::UiConfirm);
                (PauseUpdate::Quit, sounds)
            },
            None => (PauseUpdate::StayPaused, sounds),
        }
    }

    /// The menu is closed: a Pause action opens it (and consumes the frame,
    /// returning `true` and the pause sound); otherwise nothing changes.
    pub fn open_on_pause(&mut self, actions: &[UiAction]) -> (r: (bool, Option<SfxId>))
        ensures
            (exists|i: int| 0 <= i < actions@.len() && #[trigger] actions@[i] == UiAction::Pause) ==> {
                &&& r == (true, Some(SfxId::Pause))
                &&& final(self).paused && !final(self).options_open && !final(self).credits_requested
            },
            !(exists|i: int| 0 <= i < actions@.len() && #[trigger] actions@[i] == UiAction::Pause) ==> {
                &&& r == (false, None::<SfxId>)
                &&& final(self).paused == old(self).paused
                &&& final(self).options_open == old(self).options_open
                &&& final(self).credits_requested == old(self).credits_requested
            },
    {
        let mut i: usize = 0;
        while i < actions.len()
            invariant
                i <= actions.len(),
                forall|j: int| 0 <= j < i ==> #[trigger] actions@[j] != UiAction::Pause,
                self.paused == old(self).paused,
                self.options_open == old(self).options_open,
                self.credits_requested == old(self).credits_requested,
            decreases actions.len() - i,
        {
            if actions[i] == UiAction::Pause {
                self.open();
                return (true, Some(SfxId::Pause));
            }
            i += 1;
        }
        (false, None)
    }

    /// One frame of a pause-aware scene: while paused the menu takes the
    /// frame (`update`), and a scene reads Stay/Resume as a used frame, a
    /// transition as its next scene and Quit as quitting; while closed a
    /// Pause opens it and uses the frame, else the scene goes on.
    pub fn handle(
        &mut self,
        actions: &[UiAction],
        overlay: OptionsOverlayFrame,
        tree_focus_changed: bool,
        chosen: Option<PauseAction>,
    ) -> (r: (PauseHandled, Vec<SfxId>))
        ensures
            old(self).paused ==> {
                let (u, sounds, p, o, c) = pause_frame_spec(
                    old(self).paused,
                    old(self).options_open,
                    old(self).credits_requested,
                    actions@,
                    overlay,
                    tree_focus_changed,
                    chosen,
                );
                &&& r.0 == handled_of(u)
                &&& r.1@ == sounds
                &&& final(self).paused == p && final(self).options_open == o && final(self).credits_requested == c
            },
            !old(self).paused && (exists|i: int| 0 <= i < actions@.len() && #[trigger] actions@[i] == UiAction::Pause) ==> {
                &&& r.0 == PauseHandled::Consumed
                &&& r.1@ == seq![SfxId::Pause]
                &&& final(self).paused && !final(self).options_open && !final(self).credits_requested
            },
            !old(self).paused && !(exists|i: int| 0 <= i < actions@.len() && #[trigger] actions@[i] == UiAction::Pause) ==> {
                &&& r.0 == PauseHandled::NotPaused
                &&& r.1@.len() == 0
                &&& final(self).paused == old(self).paused
                &&& final(self).options_open == old(self).options_open
                &&& final(self).credits_requested == old(self).credits_requested
            },
    {
        if self.paused {
            let (u, sounds) = self.update(actions, overlay, tree_focus_changed, chosen);
            let h = match u {
                PauseUpdate::StayPaused | PauseUpdate::Resume => PauseHandled::Consumed,
                PauseUpdate::Transition(t) => PauseHandled::Transition(t),
                PauseUpdate::Quit => PauseHandled::Quit,
            };
            (h, sounds)
        } else {
            let (opened, _sound) = self.open_on_pause(actions);
            let mut sounds: Vec<SfxId> = Vec::new();
            if opened {
                sounds.push(SfxId::Pause);
                assert(sounds@ =~= seq![SfxId::Pause]);
                (PauseHandled::Consumed, sounds)
            } else {
                (PauseHandled::NotPaused, sounds)
            }
        }
    }
}

/// At the pause root: Pause or Cancel resume play with the unpause sound;
/// otherwise each row leads to its own result, Options opening the options
/// overlay and staying paused, and no row keeps the menu where it was.
/// While the options overlay is open, its Credits request resumes play and
/// raises the credits flag, and its closing drops back to the pause root.
pub proof fn lemma_pause_rows(
    paused: bool,
    credits: bool,
    actions: Seq<UiAction>,
    overlay: OptionsOverlayFrame,
    tfc: bool,
    a: PauseAction,
    b: PauseAction,
)
    ensures
        (exists|i: int| 0 <= i < actions.len() && resumes(#[trigger] actions[i])) ==> pause_frame_spec(
            paused,
            false,
            credits,
            actions,
            overlay,
            tfc,
            Some(a),
        ) == (PauseUpdate::Resume, seq![SfxId::Unpause], false, false, credits),
        a != b && a != PauseAction::Options && b != PauseAction::Options ==> pause_frame_spec(
            paused,
            false,
            credits,
            Seq::empty(),
            overlay,
            tfc,
            Some(a),
        ).0 != pause_frame_spec(paused, false, credits, Seq::empty(), overlay, tfc, Some(b)).0,
        pause_frame_spec(paused, false, credits, Seq::empty(), overlay, tfc, Some(PauseAction::Options)).3,
        pause_frame_spec(paused, false, credits, Seq::empty(), overlay, tfc, Some(PauseAction::Resume)).0
            == PauseUpdate::Resume,
        pause_frame_spec(paused, false, credits, Seq::empty(), overlay, tfc, Some(PauseAction::Exit)).0
            == PauseUpdate::Quit,
        !overlay.closed && overlay.credits_requested ==> {
            let r = pause_frame_spec(paused, true, credits, actions, overlay, tfc, Some(a));
            r.0 == PauseUpdate::Resume && !r.2 && !r.3 && r.4
        },
        overlay.closed ==> {
            let r = pause_frame_spec(paused, true, credits, actions, overlay, tfc, Some(a));
            r.0 == PauseUpdate::StayPaused && r.1 == seq![SfxId::UiCancel] && r.2 == paused && !r.3
        },
{
}

} // verus!
