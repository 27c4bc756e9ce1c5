//! Material Viewer — debug scene previewing one orb per material; leaving it
//! pops back to the suspended scene or returns to the main menu.

use vstd::prelude::*;
use crate::input::UiAction;

verus! {

/// Click id of the Back button.
pub const CLICK_BACK: u32 = 0xE001;

/// Where leaving the viewer goes.
#[derive(Clone, Copy, Debug, PartialEq, Eq, Structural)]
pub enum ViewerExit {
    PopOverlay,
    MainMenu,
}

pub struct MaterialViewerScene {
    /// Entered as an overlay from another scene.
    pub has_suspended: bool,
}

impl MaterialViewerScene {
    pub fn new(has_suspended: bool) -> (r: Self)
        ensures
            r.has_suspended == has_suspended,
    {
        Self { has_suspended }
    }

    pub fn go_back(&self) -> (r: ViewerExit)
        ensures
            r == if self.has_suspended { ViewerExit::PopOverlay } else { ViewerExit::MainMenu },
    {
        if self.has_suspended {
            ViewerExit::PopOverlay
        } else {
            ViewerExit::MainMenu
        }
    }

    /// Does this frame leave the viewer? A Back click or a Cancel/Pause action leaves.
    pub fn exit_requested(&self, button_clicks: &[u32], actions: &[UiAction]) -> (r: Option<ViewerExit>)
        ensures
            ((exists|i: int| 0 <= i < button_clicks@.len() && #[trigger] button_clicks@[i] == CLICK_BACK)
                || (exists|i: int| 0 <= i < actions@.len() && (#[trigger] actions@[i] == UiAction::Cancel
                || actions@[i] == UiAction::Pause))) ==> r == Some(
                if self.has_suspended { ViewerExit::PopOverlay } else { ViewerExit::MainMenu },
            ),
            !((exists|i: int| 0 <= i < button_clicks@.len() && #[trigger] button_clicks@[i] == CLICK_BACK)
                || (exists|i: int| 0 <= i < actions@.len() && (#[trigger] actions@[i] == UiAction::Cancel
                || actions@[i] == UiAction::Pause))) ==> r is None,
    {
        let mut i: usize = 0;
        while i < button_clicks.len()
            invariant
                i <= button_clicks.len(),
                forall|j: int| 0 <= j < i ==> #[trigger] button_clicks@[j] != CLICK_BACK,
            decreases button_clicks.len() - i,
        {
            if button_clicks[i] == CLICK_BACK {
                return Some(self.go_back());
            }
            i += 1;
        }
        let mut k: usize = 0;
        while k < actions.len()
            invariant
                k <= actions.len(),
                forall|j: int| 0 <= j < button_clicks@.len() ==> #[trigger] button_clicks@[j] != CLICK_BACK,
                forall|j: int| 0 <= j < k ==> #[trigger] actions@[j] != UiAction::Cancel && actions@[j] != UiAction::Pause,
            decreases actions.len() - k,
        {
            if matches!(actions[k], UiAction::Cancel | UiAction::Pause) {
                return Some(self.go_back());
            }
            k += 1;
        }
        None
    }
}

} // verus!
