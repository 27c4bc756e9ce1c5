//! Exterior variant of the main-menu hub: same rows, but activating a row
//! that enters a 3D-heavy scene waits for the GPU uploads to finish.

use vstd::prelude::*;
use crate::input::{SfxId, UiAction};
use crate::main_menu::{hub_default_focus, hub_menu_items, menu_contains, HubFocus, HubIntent};

pub use crate::main_menu::{default_focus, label_for, menu_items};

verus! {

/// Does entering this row's destination need the GPU uploads done?
pub open spec fn needs_gpu_ready(focus: Option<HubFocus>, tutorial_eligible: bool, multiple_materials: bool) -> bool {
    match focus {
        Some(HubFocus::Continue) => true,
        Some(HubFocus::NewGame) => !tutorial_eligible && !multiple_materials,
        _ => false,
    }
}

/// Where activating the focused exterior-hub row leads (nothing when no
/// row is focused).
pub open spec fn exterior_intent(focus: Option<HubFocus>, tutorial_eligible: bool, multiple_materials: bool) -> Option<HubIntent> {
    match focus {
        Some(HubFocus::Continue) => Some(HubIntent::Continue),
        Some(HubFocus::NewGame) => Some(
            if tutorial_eligible {
                HubIntent::TileSelect { tutorial: true }
            } else if multiple_materials {
                HubIntent::TileSelect { tutorial: false }
            } else {
                HubIntent::StartRunDefaultMaterialAndShop
            },
        ),
        Some(HubFocus::Archive) => Some(HubIntent::Archive),
        Some(HubFocus::Options) => Some(HubIntent::Options),
        Some(HubFocus::Quit) => Some(HubIntent::Quit),
        None => None,
    }
}

/// Activate the focused row. While the uploads are still running a row that
/// needs them is refused with the invalid-action sound; otherwise the
/// confirm sound plays and the row's destination is returned (nothing when
/// no row is focused).
pub fn exterior_activate(
    focus: Option<HubFocus>,
    tutorial_eligible: bool,
    multiple_materials: bool,
    loading_done: bool,
) -> (r: (Option<HubIntent>, SfxId))
    ensures
        needs_gpu_ready(focus, tutorial_eligible, multiple_materials) && !loading_done ==> r == (
        None::<HubIntent>, SfxId::InvalidAction),
        !(needs_gpu_ready(focus, tutorial_eligible, multiple_materials) && !loading_done) ==> {
            &&& r.1 == SfxId::UiConfirm
            &&& r.0 == exterior_intent(focus, tutorial_eligible, multiple_materials)
        },
{
    let needs = match focus {
        Some(HubFocus::Continue) => true,
        Some(HubFocus::NewGame) => !tutorial_eligible && !multiple_materials,
        _ => false,
    };
    if needs && !loading_done {
        return (None, SfxId::InvalidAction);
    }
    let intent = match focus {
        Some(HubFocus::Continue) => Some(HubIntent::Continue),
        Some(HubFocus::NewGame) => {
            if tutorial_eligible {
                Some(HubIntent::TileSelect { tutorial: true })
            } else if multiple_materials {
                Some(HubIntent::TileSelect { tutorial: false })
            } else {
                Some(HubIntent::StartRunDefaultMaterialAndShop)
            }
        },
        Some(HubFocus::Archive) => Some(HubIntent::Archive),
        Some(HubFocus::Options) => Some(HubIntent::Options),
        Some(HubFocus::Quit) => Some(HubIntent::Quit),
        None => None,
    };
    (intent, SfxId::UiConfirm)
}

/// The row a neighbour link leads to from `from`: the first link listed
/// for it (links are measured on screen by the caller).
pub open spec fn link_from(links: Seq<(HubFocus, HubFocus)>, from: HubFocus) -> Option<HubFocus>
    decreases links.len(),
{
    if links.len() == 0 {
        None
    } else if links[0].0 == from {
        Some(links[0].1)
    } else {
        link_from(links.drop_first(), from)
    }
}

fn find_link(links: &[(HubFocus, HubFocus)], from: HubFocus) -> (r: Option<HubFocus>)
    ensures
        r == link_from(links@, from),
{
    let mut i: usize = 0;
    assert(links@.skip(0) =~= links@);
    while i < links.len()
        invariant
            i <= links.len(),
            link_from(links@.skip(i as int), from) == link_from(links@, from),
        decreases links.len() - i,
    {
        let ghost rest = links@.skip(i as int);
        assert(rest[0] == links@[i as int]);
        assert(rest.drop_first() =~= links@.skip(i + 1));
        if links[i].0 == from {
            return Some(links[i].1);
        }
        i += 1;
    }
    assert(links@.skip(i as int) =~= Seq::<(HubFocus, HubFocus)>::empty());
    None
}

/// One action on the exterior hub: Up/Prev and Down/Next follow the
/// neighbour links, Confirm activates, Cancel/Pause move to Quit (with the
/// cancel sound).
pub open spec fn ext_step(
    f: HubFocus,
    a: UiAction,
    up: Seq<(HubFocus, HubFocus)>,
    down: Seq<(HubFocus, HubFocus)>,
) -> (HubFocus, bool, bool) {
    match a {
        UiAction::FocusUp | UiAction::FocusPrev => (
            match link_from(up, f) {
                Some(g) => g,
                None => f,
            },
            false,
            false,
        ),
        UiAction::FocusDown | UiAction::FocusNext => (
            match link_from(down, f) {
                Some(g) => g,
                None => f,
            },
            false,
            false,
        ),
        UiAction::Confirm => (f, true, false),
        UiAction::Cancel | UiAction::Pause => (HubFocus::Quit, false, true),
        _ => (f, false, false),
    }
}

/// The actions of a frame in order: focus, whether one activated, and the
/// number of cancel sounds.
pub open spec fn ext_fold(
    f: HubFocus,
    acts: Seq<UiAction>,
    up: Seq<(HubFocus, HubFocus)>,
    down: Seq<(HubFocus, HubFocus)>,
) -> (HubFocus, bool, nat)
    decreases acts.len(),
{
    if acts.len() == 0 {
        (f, false, 0)
    } else {
        let prev = ext_fold(f, acts.drop_last(), up, down);
        let st = ext_step(prev.0, acts.last(), up, down);
        (st.0, prev.1 || st.1, prev.2 + if st.2 { 1nat } else { 0nat })
    }
}

/// What a frame of input does to the exterior hub.
#[derive(Clone, Copy, Debug, PartialEq, Eq, Structural)]
pub struct ExteriorFrame {
    pub focus: HubFocus,
    /// The focused row was activated (Confirm, or a click on a row).
    pub activated: bool,
    /// Cancel sounds to play, one per Cancel/Pause.
    pub cancel_sounds: usize,
    /// The focus moved (plays the focus sound).
    pub focus_moved: bool,
}

/// One frame of the exterior hub's focus: a focus on a row that is not
/// shown falls back to the default row; the row under the pointer
/// (`pointer_pick`, only in cursor mode) takes it; the actions follow; a
/// click focuses and activates the row under the pointer.
pub fn exterior_frame(
    focus: Option<HubFocus>,
    in_progress: bool,
    pointer_pick: Option<HubFocus>,
    clicked: bool,
    actions: &[UiAction],
    up: &[(HubFocus, HubFocus)],
    down: &[(HubFocus, HubFocus)],
) -> (r: ExteriorFrame)
    ensures
        ({
            let start = match focus {
                Some(f) => if hub_menu_items(in_progress).contains(f) { f } else { hub_default_focus(in_progress) },
                None => hub_default_focus(in_progress),
            };
            let hovered = match pointer_pick {
                Some(p) => p,
                None => start,
            };
            let (f2, act, cancels) = ext_fold(hovered, actions@, up@, down@);
            let (f3, act2) = match pointer_pick {
                Some(p) => if clicked { (p, true) } else { (f2, act) },
                None => (f2, act),
            };
            &&& r.focus == f3
            &&& r.activated == act2
            &&& r.cancel_sounds == cancels
            &&& r.focus_moved == (f3 != start)
        }),
{
    let start = match focus {
        Some(f) => if menu_contains(in_progress, f) { f } else { crate::main_menu::default_focus(in_progress) },
        None => crate::main_menu::default_focus(in_progress),
    };
    let mut f = start;
    match pointer_pick {
        Some(p) => {
            f = p;
        },
        None => {},
    }
    let ghost hovered = f;
    let mut activated = false;
    let mut cancels: usize = 0;
    let mut i: usize = 0;
    while i < actions.len()
        invariant
            i <= actions.len(),
            ext_fold(hovered, actions@.take(i as int), up@, down@) == (f, activated, cancels as nat),
            cancels <= i,
        decreases actions.len() - i,
    {
        proof {
            assert(actions@.take(i + 1).drop_last() =~= actions@.take(i as int));
        }
        match actions[i] {
            UiAction::FocusUp | UiAction::FocusPrev => {
                match find_link(up, f) {
                    Some(g) => {
                        f = g;
                    },
                    None => {},
                }
            },
            UiAction::FocusDown | UiAction::FocusNext => {
                match find_link(down, f) {
                    Some(g) => {
                        f = g;
                    },
                    None => {},
                }
            },
            UiAction::Confirm => {
                activated = true;
            },
            UiAction::Cancel | UiAction::Pause => {
                f = HubFocus::Quit;
                cancels += 1;
            },
            _ => {},
        }
        i += 1;
    }
    assert(actions@.take(actions@.len() as int) =~= actions@);
    if clicked {
        match pointer_pick {
            Some(p) => {
                f = p;
                activated = true;
            },
            None => {},
        }
    }
    ExteriorFrame { focus: f, activated, cancel_sounds: cancels, focus_moved: f != start }
}

/// The exterior hub and the hub lead each row to the same destination:
/// once the uploads are done, activating a row outside goes where
/// activating it in the hub goes.
pub proof fn lemma_exterior_matches_hub(item: HubFocus, tutorial_eligible: bool, multiple_materials: bool)
    ensures
        exterior_intent(Some(item), tutorial_eligible, multiple_materials) == Some(
            crate::main_menu::hub_activation(item, tutorial_eligible, multiple_materials).0,
        ),
{
}

} // verus!
