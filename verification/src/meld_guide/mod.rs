//! Meld Guide — paginated onboarding: meld pages, tile categories, flowers,
//! then one page per yaku.

use vstd::prelude::*;
use crate::input::UiAction;
use crate::tiles::{Suit, Tile, YakuKind, YAKU_KIND_COUNT};

pub mod pages;

verus! {

pub const PAGE_PAIR: usize = 0;
pub const PAGE_SEQUENCE: usize = 1;
pub const PAGE_TRIPLET: usize = 2;
pub const PAGE_KONG: usize = 3;
pub const PAGE_CATEGORIES: usize = 4;
pub const PAGE_FLOWERS: usize = 5;
pub const YAKU_PAGE_START: usize = 6;

pub const CLICK_PREV: u32 = 0xD001;
pub const CLICK_NEXT: u32 = 0xD002;
pub const CLICK_BACK: u32 = 0xD003;

/// Number of meld-guide pages: the fixed pages and one per yaku kind.
pub fn total_pages() -> (r: usize)
    ensures
        r == YAKU_PAGE_START + YAKU_KIND_COUNT,
{
    YAKU_PAGE_START + YakuKind::all().len()
}

/// "`page + 1` / `total`" — the page indicator under a meld-guide page.
pub fn page_indicator(page: usize) -> (r: String)
    requires
        page < u64::MAX,
    ensures
        r@ == crate::text::decimal((page + 1) as nat) + " / "@ + crate::text::decimal(
            (YAKU_PAGE_START + YAKU_KIND_COUNT) as nat,
        ),
{
    proof {
        reveal_strlit(" / ");
    }
    let mut s = String::new();
    crate::text::push_decimal(&mut s, (page as u64) + 1);
    s.append(" / ");
    crate::text::push_decimal(&mut s, total_pages() as u64);
    s
}

/// Click ids of the navigation buttons a meld-guide page registers: Prev
/// unless on the first page, Back always, Next unless on the last page.
pub fn nav_buttons(page: usize) -> (r: Vec<u32>)
    ensures
        r@ == (if page > 0 { seq![CLICK_PREV] } else { Seq::<u32>::empty() }) + seq![CLICK_BACK] + (
        if page + 1 < YAKU_PAGE_START + YAKU_KIND_COUNT { seq![CLICK_NEXT] } else { Seq::<u32>::empty() }),
{
    let pages = total_pages();
    let mut v: Vec<u32> = Vec::new();
    if page > 0 {
        v.push(CLICK_PREV);
    }
    v.push(CLICK_BACK);
    if page < pages && page + 1 < pages {
        v.push(CLICK_NEXT);
    }
    proof {
        assert(v@ =~= (if page > 0 { seq![CLICK_PREV] } else { Seq::<u32>::empty() }) + seq![CLICK_BACK] + (
        if page + 1 < YAKU_PAGE_START + YAKU_KIND_COUNT { seq![CLICK_NEXT] } else { Seq::<u32>::empty() }));
    }
    v
}

/// Convenience tile constructor.
pub fn t(suit: Suit, rank: u8, id: u32) -> (r: Tile)
    ensures
        r == Tile::new_spec(suit, rank, id),
{
    Tile::new(suit, rank, id)
}

/// Where the player goes when leaving the meld guide.
#[derive(Clone, Copy, Debug, PartialEq, Eq, Structural)]
pub enum MeldGuideOutcome {
    /// Stay on the guide.
    Stay,
    /// Pop the overlay back to the suspended scene.
    PopOverlay,
    /// Replace the guide with the start screen.
    StartScreen,
}

/// Page after one button click; `None` when the click leaves the guide.
pub open spec fn click_step(page: int, cid: u32, pages: int) -> Option<int> {
    if cid == CLICK_PREV {
        Some(if page > 0 { page - 1 } else { page })
    } else if cid == CLICK_NEXT {
        Some(if page + 1 < pages { page + 1 } else { page })
    } else if cid == CLICK_BACK {
        None
    } else {
        Some(page)
    }
}

/// Page after one action; `None` when the action leaves the guide.
pub open spec fn action_step(page: int, a: UiAction, pages: int) -> Option<int> {
    match a {
        UiAction::Cancel | UiAction::Pause => None,
        UiAction::FocusPrev | UiAction::FocusUp => Some(if page > 0 { page - 1 } else { page }),
        UiAction::FocusNext | UiAction::FocusDown => Some(
            if page + 1 < pages { page + 1 } else { page },
        ),
        _ => Some(page),
    }
}

/// Page after a frame's clicks, and whether one of them left the guide
/// (the page is then the one at the moment of leaving).
pub open spec fn clicks_fold(page: int, clicks: Seq<u32>, pages: int) -> (int, bool)
    decreases clicks.len(),
{
    if clicks.len() == 0 {
        (page, false)
    } else {
        match click_step(page, clicks[0], pages) {
            None => (page, true),
            Some(p) => clicks_fold(p, clicks.drop_first(), pages),
        }
    }
}

/// Page after a frame's actions, and whether one of them left the guide.
pub open spec fn actions_fold(page: int, actions: Seq<UiAction>, pages: int) -> (int, bool)
    decreases actions.len(),
{
    if actions.len() == 0 {
        (page, false)
    } else {
        match action_step(page, actions[0], pages) {
            None => (page, true),
            Some(p) => actions_fold(p, actions.drop_first(), pages),
        }
    }
}

/// The meld guide: current page, and whether a suspended scene waits under it.
pub struct MeldGuideScene {
    pub page: usize,
    pub has_suspended: bool,
}

impl MeldGuideScene {
    pub fn new(has_suspended: bool) -> (r: Self)
        ensures
            r.page == 0,
            r.has_suspended == has_suspended,
    {
        Self { page: 0, has_suspended }
    }

    /// Leaving: pop back to the suspended scene, or go to the start screen.
    pub fn go_back(&self) -> (r: MeldGuideOutcome)
        ensures
            r == if self.has_suspended {
                MeldGuideOutcome::PopOverlay
            } else {
                MeldGuideOutcome::StartScreen
            },
    {
        if self.has_suspended {
            MeldGuideOutcome::PopOverlay
        } else {
            MeldGuideOutcome::StartScreen
        }
    }

    /// One frame: button clicks first, then actions.
    pub fn update(&mut self, button_clicks: &[u32], actions: &[UiAction]) -> (r: MeldGuideOutcome)
        ensures
            final(self).has_suspended == old(self).has_suspended,
            ({
                let pages = YAKU_PAGE_START + YAKU_KIND_COUNT;
                let (p1, left1) = clicks_fold(old(self).page as int, button_clicks@, pages as int);
                let (p2, left2) = actions_fold(p1, actions@, pages as int);
                let leave = if old(self).has_suspended {
                    MeldGuideOutcome::PopOverlay
                } else {
                    MeldGuideOutcome::StartScreen
                };
                if left1 {
                    final(self).page == p1 && r == leave
                } else {
                    &&& final(self).page == p2
                    &&& r == if left2 { leave } else { MeldGuideOutcome::Stay }
                }
            }),
    {
        let pages = total_pages();
        let ghost page0 = self.page as int;
        let mut i: usize = 0;
        assert(button_clicks@.skip(0) =~= button_clicks@);
        while i < button_clicks.len()
            invariant
                i <= button_clicks.len(),
                pages == YAKU_PAGE_START + YAKU_KIND_COUNT,
                self.has_suspended == old(self).has_suspended,
                page0 == old(self).page,
                clicks_fold(self.page as int, button_clicks@.skip(i as int), pages as int)
                    == clicks_fold(page0, button_clicks@, pages as int),
            decreases button_clicks.len() - i,
        {
            let ghost rest = button_clicks@.skip(i as int);
            assert(rest[0] == button_clicks@[i as int]);
            assert(rest.drop_first() =~= button_clicks@.skip(i + 1));
            let cid = button_clicks[i];
            if cid == CLICK_PREV {
                if self.page > 0 {
                    self.page -= 1;
                }
            } else if cid == CLICK_NEXT {
                if self.page < pages && self.page + 1 < pages {
                    self.page += 1;
                }
            } else if cid == CLICK_BACK {
                return self.go_back();
            }
            i += 1;
        }
        assert(button_clicks@.skip(i as int) =~= Seq::<u32>::empty());
        let ghost page1 = self.page as int;
        assert(clicks_fold(page0, button_clicks@, pages as int) == (page1, false));
        let mut j: usize = 0;
        assert(actions@.skip(0) =~= actions@);
        while j < actions.len()
            invariant
                j <= actions.len(),
                pages == YAKU_PAGE_START + YAKU_KIND_COUNT,
                self.has_suspended == old(self).has_suspended,
                page0 == old(self).page,
                clicks_fold(page0, button_clicks@, pages as int) == (page1, false),
                actions_fold(self.page as int, actions@.skip(j as int), pages as int)
                    == actions_fold(page1, actions@, pages as int),
            decreases actions.len() - j,
        {
            let ghost rest = actions@.skip(j as int);
            assert(rest[0] == actions@[j as int]);
            assert(rest.drop_first() =~= actions@.skip(j + 1));
            match actions[j] {
                UiAction::Cancel | UiAction::Pause => {
                    return self.go_back();
                },
                UiAction::FocusPrev | UiAction::FocusUp => {
                    if self.page > 0 {
                        self.page -= 1;
                    }
                },
                UiAction::FocusNext | UiAction::FocusDown => {
                    if self.page < pages && self.page + 1 < pages {
                        self.page += 1;
                    }
                },
                _ => {},
            }
            j += 1;
        }
        assert(actions@.skip(j as int) =~= Seq::<UiAction>::empty());
        MeldGuideOutcome::Stay
    }
}

/// The meld guide never pages past its last page or before its first.
pub proof fn lemma_meld_guide_pages_in_range(page: int, clicks: Seq<u32>, actions: Seq<UiAction>)
    requires
        0 <= page < YAKU_PAGE_START + YAKU_KIND_COUNT,
    ensures
        0 <= clicks_fold(page, clicks, (YAKU_PAGE_START + YAKU_KIND_COUNT) as int).0
            < YAKU_PAGE_START + YAKU_KIND_COUNT,
        0 <= actions_fold(page, actions, (YAKU_PAGE_START + YAKU_KIND_COUNT) as int).0
            < YAKU_PAGE_START + YAKU_KIND_COUNT,
    decreases clicks.len() + actions.len(),
{
    let pages = (YAKU_PAGE_START + YAKU_KIND_COUNT) as int;
    if clicks.len() > 0 {
        if let Some(p) = click_step(page, clicks[0], pages) {
            lemma_meld_guide_pages_in_range(p, clicks.drop_first(), actions);
        }
    }
    if actions.len() > 0 {
        if let Some(p) = action_step(page, actions[0], pages) {
            lemma_meld_guide_pages_in_range(p, clicks, actions.drop_first());
        }
    }
}

/// The meld guide's buttons and actions page one step: Prev (a click, or
/// FocusPrev/FocusUp) moves one page back and Next (a click, or
/// FocusNext/FocusDown) one page on, staying put at either end; Back,
/// Cancel and Pause leave the guide; other clicks and actions change
/// nothing. Next then Prev comes back.
pub proof fn lemma_meld_guide_paging(p: int, n: int, a: UiAction, cid: u32)
    requires
        0 <= p < n,
    ensures
        p > 0 ==> click_step(p, CLICK_PREV, n) == Some(p - 1),
        p == 0 ==> click_step(p, CLICK_PREV, n) == Some(p),
        p + 1 < n ==> click_step(p, CLICK_NEXT, n) == Some(p + 1),
        p + 1 == n ==> click_step(p, CLICK_NEXT, n) == Some(p),
        click_step(p, CLICK_BACK, n) is None,
        cid != CLICK_PREV && cid != CLICK_NEXT && cid != CLICK_BACK ==> click_step(p, cid, n) == Some(p),
        p + 1 < n ==> click_step(click_step(p, CLICK_NEXT, n)->0, CLICK_PREV, n) == Some(p),
        (a == UiAction::FocusPrev || a == UiAction::FocusUp) ==> action_step(p, a, n) == click_step(p, CLICK_PREV, n),
        (a == UiAction::FocusNext || a == UiAction::FocusDown) ==> action_step(p, a, n) == click_step(p, CLICK_NEXT, n),
        (a == UiAction::Cancel || a == UiAction::Pause) ==> action_step(p, a, n) is None,
        !(a == UiAction::FocusPrev || a == UiAction::FocusUp || a == UiAction::FocusNext || a == UiAction::FocusDown
            || a == UiAction::Cancel || a == UiAction::Pause) ==> action_step(p, a, n) == Some(p),
{
}

} // verus!
