//! Item inspect: which host opened the close-up view, the frame environment
//! it applies, and the actions that close it.

use vstd::prelude::*;
use crate::input::UiAction;

verus! {

/// Which parent context an inspect session was opened from.
#[derive(Clone, Copy, Debug, PartialEq, Eq, Structural)]
pub enum ItemInspectHost {
    Shop,
    Collection,
}

/// Environment-specific frame flags applied with inspect lighting.
#[derive(Clone, Copy, Debug, PartialEq, Eq, Structural)]
pub enum InspectFrameEnv {
    /// Only set camera and scene punctual lights (collection, isolated inspect).
    Neutral,
    /// Shop storeroom: disable the room's own punctual and spot lights.
    ShopStoreroomInspect,
}

/// Does the action close the inspect overlay?
pub open spec fn closes_inspect(a: UiAction) -> bool {
    a == UiAction::ShopItemInspectToggle || a == UiAction::Cancel || a == UiAction::Pause
}

/// Does this frame close the inspect overlay (pop back to its host)?
pub fn inspect_closes(actions: &[UiAction]) -> (r: bool)
    ensures
        r == exists|i: int| 0 <= i < actions@.len() && closes_inspect(#[trigger] actions@[i]),
{
    let mut i: usize = 0;
    while i < actions.len()
        invariant
            i <= actions.len(),
            forall|j: int| 0 <= j < i ==> !closes_inspect(#[trigger] actions@[j]),
        decreases actions.len() - i,
    {
        if matches!(actions[i], UiAction::ShopItemInspectToggle | UiAction::Cancel | UiAction::Pause) {
            return true;
        }
        i += 1;
    }
    false
}

} // verus!
