//! Semantic input actions, focus ids and UI sound cues shared by the scenes.

use vstd::prelude::*;

verus! {

/// A semantic UI action decoded from keyboard, controller or mouse input.
#[derive(Clone, Copy, Debug, PartialEq, Eq, Structural)]
pub enum UiAction {
    Confirm,
    Cancel,
    Pause,
    Help,
    Delete,
    CommitDiscard,
    TabPrev,
    TabNext,
    PagePrev,
    PageNext,
    FocusPrev,
    FocusNext,
    FocusUp,
    FocusDown,
    ShopItemInspectToggle,
    WestFacePress,
    NorthFacePress,
}

/// Identifier of a focusable widget.
#[derive(Clone, Copy, Debug, PartialEq, Eq, Structural)]
pub struct FocusId(pub u32);

/// UI sound cues a scene asks the app to play.
#[derive(Clone, Copy, Debug, PartialEq, Eq, Structural)]
pub enum SfxId {
    TileClick,
    TilePlace,
    InvalidAction,
    UiConfirm,
    UiCancel,
    NewGameStinger,
    RoundStart,
    Pause,
    Unpause,
}

} // verus!
