//! Main-menu hub: menu rows, their labels and focus ids, and what activating
//! a row leads to.

use vstd::prelude::*;
use vstd::string::*;
use crate::input::{FocusId, SfxId, UiAction};

verus! {

/// Which hub rows are waiting on an asynchronous load.
#[derive(Clone, Copy, Debug, Default, PartialEq, Eq, Structural)]
pub struct HubMenuLoading {
    pub continue_loading: bool,
    pub new_game_loading: bool,
    pub archive_loading: bool,
}

/// A row of the hub menu.
#[derive(Clone, Copy, Debug, PartialEq, Eq, Structural)]
pub enum HubFocus {
    Continue,
    NewGame,
    Archive,
    Options,
    Quit,
}

impl HubMenuLoading {
    /// Is the given row showing its loading dots?
    pub fn for_item(self, item: HubFocus) -> (r: bool)
        ensures
            r == match item {
                HubFocus::Continue => self.continue_loading,
                HubFocus::NewGame => self.new_game_loading,
                HubFocus::Archive => self.archive_loading,
                _ => false,
            },
    {
        match item {
            HubFocus::Continue => self.continue_loading,
            HubFocus::NewGame => self.new_game_loading,
            HubFocus::Archive => self.archive_loading,
            _ => false,
        }
    }
}

/// Focus-id number of a hub row.
pub open spec fn hub_focus_raw(f: HubFocus) -> u32 {
    match f {
        HubFocus::Continue => 0x1200,
        HubFocus::NewGame => 0x1201,
        HubFocus::Archive => 0x1202,
        HubFocus::Options => 0x1203,
        HubFocus::Quit => 0x1204,
    }
}

impl HubFocus {
    pub fn id(self) -> (r: FocusId)
        ensures
            r == FocusId(hub_focus_raw(self)),
    {
        FocusId(
            match self {
                HubFocus::Continue => 0x1200,
                HubFocus::NewGame => 0x1201,
                HubFocus::Archive => 0x1202,
                HubFocus::Options => 0x1203,
                HubFocus::Quit => 0x1204,
            },
        )
    }

    pub fn from_id(id: FocusId) -> (r: Option<Self>)
        ensures
            r matches Some(f) ==> hub_focus_raw(f) == id.0,
            r is None ==> forall|f: HubFocus| hub_focus_raw(f) != id.0,
    {
        match id.0 {
            0x1200 => Some(HubFocus::Continue),
            0x1201 => Some(HubFocus::NewGame),
            0x1202 => Some(HubFocus::Archive),
            0x1203 => Some(HubFocus::Options),
            0x1204 => Some(HubFocus::Quit),
            _ => None,
        }
    }
}

/// Different hub rows have different focus ids, so reading back a row's id
/// with `HubFocus::from_id` gives the row back.
pub proof fn lemma_hub_focus_ids_distinct(f: HubFocus, g: HubFocus)
    ensures
        f != g ==> hub_focus_raw(f) != hub_focus_raw(g),
{
}

/// Rows of the hub, top to bottom.
pub open spec fn hub_menu_items(in_progress: bool) -> Seq<HubFocus> {
    let rest = seq![HubFocus::NewGame, HubFocus::Archive, HubFocus::Options, HubFocus::Quit];
    if in_progress {
        seq![HubFocus::Continue] + rest
    } else {
        rest
    }
}

pub fn menu_items(in_progress: bool) -> (r: Vec<HubFocus>)
    ensures
        r@ == hub_menu_items(in_progress),
{
    let mut items = Vec::with_capacity(8);
    if in_progress {
        items.push(HubFocus::Continue);
    }
    items.push(HubFocus::NewGame);
    items.push(HubFocus::Archive);
    items.push(HubFocus::Options);
    items.push(HubFocus::Quit);
    proof {
        assert(items@ =~= hub_menu_items(in_progress));
    }
    items
}

/// Text of a hub row.
pub open spec fn hub_label(item: HubFocus, in_progress: bool, archive_has_new: bool) -> Seq<char> {
    match item {
        HubFocus::Continue => "Continue"@,
        HubFocus::NewGame => if in_progress { "New Game"@ } else { "Play"@ },
        HubFocus::Archive => if archive_has_new { "Archive (new)"@ } else { "Archive"@ },
        HubFocus::Options => "Options"@,
        HubFocus::Quit => "Quit"@,
    }
}

pub fn label_for(item: HubFocus, in_progress: bool, archive_has_new: bool) -> (r: String)
    ensures
        r@ == hub_label(item, in_progress, archive_has_new),
{
    match item {
        HubFocus::Continue => String::from_str("Continue"),
        HubFocus::NewGame => {
            if in_progress {
                String::from_str("New Game")
            } else {
                String::from_str("Play")
            }
        },
        HubFocus::Archive => {
            if archive_has_new {
                String::from_str("Archive (new)")
            } else {
                String::from_str("Archive")
            }
        },
        HubFocus::Options => String::from_str("Options"),
        HubFocus::Quit => String::from_str("Quit"),
    }
}

/// The row focused when the hub opens.
pub open spec fn hub_default_focus(in_progress: bool) -> HubFocus {
    if in_progress {
        HubFocus::Continue
    } else {
        HubFocus::NewGame
    }
}

pub fn default_focus(in_progress: bool) -> (r: HubFocus)
    ensures
        r == hub_default_focus(in_progress),
{
    if in_progress {
        HubFocus::Continue
    } else {
        HubFocus::NewGame
    }
}

/// The hub row the focus tree's focused id names, if any.
pub fn hub_focus(focused: Option<FocusId>) -> (r: Option<HubFocus>)
    ensures
        r matches Some(f) ==> focused == Some(FocusId(hub_focus_raw(f))),
        r is None ==> (focused matches Some(id) ==> forall|f: HubFocus| hub_focus_raw(f) != id.0),
{
    match focused {
        Some(id) => HubFocus::from_id(id),
        None => None,
    }
}

/// Is the row shown in this hub?
pub fn menu_contains(in_progress: bool, item: HubFocus) -> (r: bool)
    ensures
        r == hub_menu_items(in_progress).contains(item),
{
    let items = menu_items(in_progress);
    let mut i: usize = 0;
    while i < items.len()
        invariant
            i <= items.len(),
            items@ == hub_menu_items(in_progress),
            forall|j: int| 0 <= j < i ==> items@[j] != item,
        decreases items.len() - i,
    {
        if items[i] == item {
            return true;
        }
        i += 1;
    }
    false
}

/// Does the action send the hub's focus to Quit?
pub open spec fn hub_cancels(a: UiAction) -> bool {
    a == UiAction::Cancel || a == UiAction::Pause
}

/// Number of Cancel/Pause actions (each plays the cancel sound).
pub open spec fn cancel_count(actions: Seq<UiAction>) -> nat
    decreases actions.len(),
{
    if actions.len() == 0 {
        0
    } else {
        cancel_count(actions.drop_last()) + if hub_cancels(actions.last()) { 1nat } else { 0nat }
    }
}

proof fn lemma_cancel_count(actions: Seq<UiAction>)
    ensures
        cancel_count(actions) <= actions.len(),
        (cancel_count(actions) > 0) == exists|i: int| 0 <= i < actions.len() && hub_cancels(#[trigger] actions[i]),
    decreases actions.len(),
{
    if actions.len() > 0 {
        let init = actions.drop_last();
        lemma_cancel_count(init);
        if exists|i: int| 0 <= i < init.len() && hub_cancels(#[trigger] init[i]) {
            let i = choose|i: int| 0 <= i < init.len() && hub_cancels(#[trigger] init[i]);
            assert(actions[i] == init[i]);
        }
        if exists|i: int| 0 <= i < actions.len() && hub_cancels(#[trigger] actions[i]) {
            let i = choose|i: int| 0 <= i < actions.len() && hub_cancels(#[trigger] actions[i]);
            if i < init.len() {
                assert(init[i] == actions[i]);
            }
        }
    }
}

/// Focus the hub keeps this frame: the tree's focus when it names a shown
/// row, else the default row; a Cancel or Pause moves it to Quit. Also
/// returns how many Cancel/Pause actions came (each plays the cancel sound).
pub fn hub_frame_focus(focused: Option<FocusId>, in_progress: bool, actions: &[UiAction]) -> (r: (HubFocus, usize))
    ensures
        ({
            let cancel = cancel_count(actions@) > 0;
            let kept = exists|f: HubFocus| focused == Some(FocusId(hub_focus_raw(f))) && hub_menu_items(in_progress).contains(f);
            &&& r.1 == cancel_count(actions@)
            &&& cancel ==> r.0 == HubFocus::Quit
            &&& !cancel && kept ==> focused == Some(FocusId(hub_focus_raw(r.0)))
            &&& !cancel && !kept ==> r.0 == hub_default_focus(in_progress)
            &&& hub_menu_items(in_progress).contains(r.0)
        }),
{
    let mut focus = default_focus(in_progress);
    match hub_focus(focused) {
        Some(f) => {
            if menu_contains(in_progress, f) {
                focus = f;
            }
        },
        None => {},
    }
    proof {
        assert(hub_menu_items(in_progress).contains(hub_default_focus(in_progress))) by {
            if in_progress {
                assert(hub_menu_items(in_progress)[0] == HubFocus::Continue);
            } else {
                assert(hub_menu_items(in_progress)[0] == HubFocus::NewGame);
            }
        }
        assert(hub_menu_items(in_progress).contains(HubFocus::Quit)) by {
            let n = hub_menu_items(in_progress).len();
            assert(hub_menu_items(in_progress)[n - 1] == HubFocus::Quit);
        }
    }
    let mut cancels: usize = 0;
    let mut i: usize = 0;
    while i < actions.len()
        invariant
            i <= actions.len(),
            cancels == cancel_count(actions@.take(i as int)),
        decreases actions.len() - i,
    {
        proof {
            assert(actions@.take(i + 1).drop_last() =~= actions@.take(i as int));
            lemma_cancel_count(actions@.take(i as int));
        }
        if matches!(actions[i], UiAction::Cancel | UiAction::Pause) {
            cancels += 1;
        }
        i += 1;
    }
    assert(actions@.take(actions@.len() as int) =~= actions@);
    if cancels > 0 {
        (HubFocus::Quit, cancels)
    } else {
        (focus, 0)
    }
}

/// Where activating a hub row leads.
#[derive(Clone, Copy, Debug, PartialEq, Eq, Structural)]
pub enum HubIntent {
    /// Resume the saved run.
    Continue,
    /// Open the tile-material picker, as the tutorial or not.
    TileSelect { tutorial: bool },
    /// Start a run with the default material and go to the shop.
    StartRunDefaultMaterialAndShop,
    Archive,
    Options,
    /// Ask the app to quit.
    Quit,
}

/// The row's destination and the confirm sound that plays.
pub open spec fn hub_activation(item: HubFocus, tutorial_eligible: bool, multiple_materials: bool) -> (HubIntent, SfxId) {
    match item {
        HubFocus::Continue => (HubIntent::Continue, SfxId::UiConfirm),
        HubFocus::NewGame => (
            if tutorial_eligible {
                HubIntent::TileSelect { tutorial: true }
            } else if multiple_materials {
                HubIntent::TileSelect { tutorial: false }
            } else {
                HubIntent::StartRunDefaultMaterialAndShop
            },
            SfxId::NewGameStinger,
        ),
        HubFocus::Archive => (HubIntent::Archive, SfxId::UiConfirm),
        HubFocus::Options => (HubIntent::Options, SfxId::UiConfirm),
        HubFocus::Quit => (HubIntent::Quit, SfxId::UiConfirm),
    }
}

/// Decide what activating a hub row does.
pub fn activate(item: HubFocus, tutorial_eligible: bool, multiple_materials: bool) -> (r: (HubIntent, SfxId))
    ensures
        r == hub_activation(item, tutorial_eligible, multiple_materials),
{
    let sfx = match item {
        HubFocus::NewGame => SfxId::NewGameStinger,
        _ => SfxId::UiConfirm,
    };
    let intent = match item {
        HubFocus::Continue => HubIntent::Continue,
        HubFocus::NewGame => {
            if tutorial_eligible {
                HubIntent::TileSelect { tutorial: true }
            } else if multiple_materials {
                HubIntent::TileSelect { tutorial: false }
            } else {
                HubIntent::StartRunDefaultMaterialAndShop
            }
        },
        HubFocus::Archive => HubIntent::Archive,
        HubFocus::Options => HubIntent::Options,
        HubFocus::Quit => HubIntent::Quit,
    };
    (intent, sfx)
}

/// The moon quip after this frame's clicks (`moon_id` is the moon's pick
/// id): a click on the moon hides a showing quip, or shows a freshly rolled
/// one, with a click sound. Returns whether the quip shows, whether a new
/// quip must be rolled, and the sound.
pub fn moon_quip_step(visible: bool, button_clicks: &[u32], moon_id: u32) -> (r: (bool, bool, Option<SfxId>))
    ensures
        !button_clicks@.contains(moon_id) ==> r == (visible, false, None::<SfxId>),
        button_clicks@.contains(moon_id) ==> r == (!visible, !visible, Some(SfxId::TileClick)),
{
    let mut i: usize = 0;
    while i < button_clicks.len()
        invariant
            i <= button_clicks.len(),
            forall|j: int| 0 <= j < i ==> button_clicks@[j] != moon_id,
        decreases button_clicks.len() - i,
    {
        if button_clicks[i] == moon_id {
            assert(button_clicks@[i as int] == moon_id);
            return (!visible, !visible, Some(SfxId::TileClick));
        }
        i += 1;
    }
    (visible, false, None)
}

/// Each hub row leads somewhere of its own: two different rows never
/// share a destination. New Game plays its stinger; every other row plays
/// the confirm sound.
pub proof fn lemma_hub_rows_distinct_destinations(a: HubFocus, b: HubFocus, te: bool, mm: bool, te2: bool, mm2: bool)
    ensures
        a != b ==> hub_activation(a, te, mm).0 != hub_activation(b, te2, mm2).0,
        (hub_activation(a, te, mm).1 == SfxId::NewGameStinger) == (a == HubFocus::NewGame),
        a != HubFocus::NewGame ==> hub_activation(a, te, mm).1 == SfxId::UiConfirm,
{
}

} // verus!
