//! Guide — paginated in-game reference: fixed reference pages followed by
//! yaku detail pages, two yaku per page (Chiitoitsu and Kokushi Musō alone).

use vstd::prelude::*;
use crate::input::{UiAction, FocusId, SfxId};
use crate::tiles::YakuKind;

pub mod content;
pub mod economy;
pub mod layout;
pub mod melds_page;
pub mod page_panels;
pub mod pages;
pub mod yaku_hands;
pub mod yaku_page;
pub mod yaku_text;

verus! {

pub const PAGE_TILES: usize = 0;
pub const PAGE_MELDS: usize = 1;
pub const PAGE_YAKU: usize = 2;
pub const PAGE_FLOWERS: usize = 3;
pub const PAGE_SCORING: usize = 4;
pub const PAGE_ECONOMY: usize = 5;
pub const PAGE_TANUKI_TIPS: usize = 6;
pub const YAKU_PAGE_START: usize = 7;

/// Yaku whose guide entry takes a whole page.
pub open spec fn needs_solo_page(yk: YakuKind) -> bool {
    yk == YakuKind::Chiitoitsu || yk == YakuKind::KokushiMusou
}

/// The guide pages of `s`: walking from the front, a solo yaku gets a page
/// of its own, otherwise a yaku shares its page with the next one when that
/// one is not solo.
pub open spec fn guide_chunks(s: Seq<YakuKind>) -> Seq<Seq<YakuKind>>
    decreases s.len(),
{
    if s.len() == 0 {
        Seq::empty()
    } else if !needs_solo_page(s[0]) && s.len() >= 2 && !needs_solo_page(s[1]) {
        seq![s.take(2)] + guide_chunks(s.skip(2))
    } else {
        seq![s.take(1)] + guide_chunks(s.skip(1))
    }
}

/// Concatenation of a sequence of chunks.
pub open spec fn flatten_chunks(c: Seq<Seq<YakuKind>>) -> Seq<YakuKind>
    decreases c.len(),
{
    if c.len() == 0 {
        Seq::empty()
    } else {
        c[0] + flatten_chunks(c.drop_first())
    }
}

/// Is a yaku's guide entry too tall to share a page?
pub fn yaku_needs_solo_guide_page(yk: YakuKind) -> (r: bool)
    ensures
        r == needs_solo_page(yk),
{
    match yk {
        YakuKind::Chiitoitsu | YakuKind::KokushiMusou => true,
        _ => false,
    }
}

proof fn lemma_chunks_unfold(s: Seq<YakuKind>, i: int)
    requires
        0 <= i < s.len(),
    ensures
        guide_chunks(s.skip(i)) == (if !needs_solo_page(s[i]) && i + 1 < s.len()
            && !needs_solo_page(s[i + 1]) {
            seq![s.subrange(i, i + 2)] + guide_chunks(s.skip(i + 2))
        } else {
            seq![s.subrange(i, i + 1)] + guide_chunks(s.skip(i + 1))
        }),
{
    let t = s.skip(i);
    assert(t[0] == s[i]);
    if i + 1 < s.len() {
        assert(t[1] == s[i + 1]);
    }
    assert(t.skip(1) =~= s.skip(i + 1));
    assert(t.take(1) =~= s.subrange(i, i + 1));
    if i + 2 <= s.len() {
        assert(t.skip(2) =~= s.skip(i + 2));
        assert(t.take(2) =~= s.subrange(i, i + 2));
    }
}

/// Split visible yaku into guide pages.
pub fn yaku_guide_chunks(yaku: &[YakuKind]) -> (chunks: Vec<Vec<YakuKind>>)
    ensures
        chunks@.map_values(|c: Vec<YakuKind>| c@) == guide_chunks(yaku@),
{
    let mut chunks: Vec<Vec<YakuKind>> = Vec::new();
    let mut i: usize = 0;
    assert(yaku@.skip(0) =~= yaku@);
    while i < yaku.len()
        invariant
            i <= yaku.len(),
            chunks@.map_values(|c: Vec<YakuKind>| c@) + guide_chunks(yaku@.skip(i as int))
                == guide_chunks(yaku@),
        decreases yaku.len() - i,
    {
        proof {
            lemma_chunks_unfold(yaku@, i as int);
        }
        let ghost before = chunks@.map_values(|c: Vec<YakuKind>| c@);
        let yk = yaku[i];
        if !yaku_needs_solo_guide_page(yk) && i + 1 < yaku.len()
            && !yaku_needs_solo_guide_page(yaku[i + 1]) {
            let pair = vec![yk, yaku[i + 1]];
            assert(pair@ =~= yaku@.subrange(i as int, i + 2));
            chunks.push(pair);
            assert(chunks@.map_values(|c: Vec<YakuKind>| c@) =~= before.push(
                yaku@.subrange(i as int, i + 2),
            ));
            i += 2;
        } else {
            let single = vec![yk];
            assert(single@ =~= yaku@.subrange(i as int, i + 1));
            chunks.push(single);
            assert(chunks@.map_values(|c: Vec<YakuKind>| c@) =~= before.push(
                yaku@.subrange(i as int, i + 1),
            ));
            i += 1;
        }
    }
    assert(yaku@.skip(i as int) =~= Seq::<YakuKind>::empty());
    assert(chunks@.map_values(|c: Vec<YakuKind>| c@) + guide_chunks(yaku@.skip(i as int))
        =~= chunks@.map_values(|c: Vec<YakuKind>| c@));
    chunks
}


/// The guide pages hold every visible yaku exactly once, in order: reading
/// the pages front to back gives back the list they were made from.
pub proof fn lemma_guide_chunks_flatten(s: Seq<YakuKind>)
    ensures
        flatten_chunks(guide_chunks(s)) == s,
    decreases s.len(),
{
    if s.len() > 0 {
        let c = guide_chunks(s);
        if !needs_solo_page(s[0]) && s.len() >= 2 && !needs_solo_page(s[1]) {
            lemma_guide_chunks_flatten(s.skip(2));
            assert(c.drop_first() =~= guide_chunks(s.skip(2)));
            assert(s.take(2) + s.skip(2) =~= s);
        } else {
            lemma_guide_chunks_flatten(s.skip(1));
            assert(c.drop_first() =~= guide_chunks(s.skip(1)));
            assert(s.take(1) + s.skip(1) =~= s);
        }
    }
}

/// Each guide page holds one or two yaku; a page with two holds no solo yaku,
/// and there are never more pages than yaku.
pub proof fn lemma_guide_chunks_shape(s: Seq<YakuKind>)
    ensures
        guide_chunks(s).len() <= s.len(),
        forall|k: int| 0 <= k < guide_chunks(s).len() ==> {
            let c = #[trigger] guide_chunks(s)[k];
            &&& 1 <= c.len() <= 2
            &&& c.len() == 2 ==> !needs_solo_page(c[0]) && !needs_solo_page(c[1])
        },
    decreases s.len(),
{
    if s.len() > 0 {
        let c = guide_chunks(s);
        if !needs_solo_page(s[0]) && s.len() >= 2 && !needs_solo_page(s[1]) {
            lemma_guide_chunks_shape(s.skip(2));
            assert(c.drop_first() =~= guide_chunks(s.skip(2)));
            assert forall|k: int| 0 <= k < c.len() implies {
                let ck = #[trigger] c[k];
                &&& 1 <= ck.len() <= 2
                &&& ck.len() == 2 ==> !needs_solo_page(ck[0]) && !needs_solo_page(ck[1])
            } by {
                if k > 0 {
                    assert(c[k] == guide_chunks(s.skip(2))[k - 1]);
                }
            }
        } else {
            lemma_guide_chunks_shape(s.skip(1));
            assert(c.drop_first() =~= guide_chunks(s.skip(1)));
            assert forall|k: int| 0 <= k < c.len() implies {
                let ck = #[trigger] c[k];
                &&& 1 <= ck.len() <= 2
                &&& ck.len() == 2 ==> !needs_solo_page(ck[0]) && !needs_solo_page(ck[1])
            } by {
                if k > 0 {
                    assert(c[k] == guide_chunks(s.skip(1))[k - 1]);
                }
            }
        }
    }
}

/// Number of guide pages: the fixed pages plus one per yaku chunk.
pub open spec fn guide_total_pages(available: Seq<YakuKind>) -> int {
    YAKU_PAGE_START + guide_chunks(available).len()
}

/// Page count for the yaku the player can see (`PlayerProgress::available_yaku`).
pub fn total_pages(available: &[YakuKind]) -> (r: usize)
    requires
        available@.len() + YAKU_PAGE_START <= usize::MAX,
    ensures
        r == guide_total_pages(available@),
{
    let chunks = yaku_guide_chunks(available);
    proof {
        lemma_guide_chunks_shape(available@);
        assert(chunks@.map_values(|c: Vec<YakuKind>| c@).len() == chunks@.len());
    }
    YAKU_PAGE_START + chunks.len()
}

/// The yaku shown on guide page `page`, if it is a yaku page.
pub fn yaku_chunk_for_page(page: usize, available: &[YakuKind]) -> (r: Option<Vec<YakuKind>>)
    ensures
        r is Some <==> YAKU_PAGE_START <= page && page - YAKU_PAGE_START < guide_chunks(
            available@,
        ).len(),
        r matches Some(c) ==> c@ == guide_chunks(available@)[page - YAKU_PAGE_START],
{
    if page < YAKU_PAGE_START {
        return None;
    }
    let idx = page - YAKU_PAGE_START;
    let chunks = yaku_guide_chunks(available);
    proof {
        assert(chunks@.map_values(|c: Vec<YakuKind>| c@).len() == chunks@.len());
    }
    if idx < chunks.len() {
        let c = chunks[idx].clone();
        proof {
            assert(chunks@.map_values(|c: Vec<YakuKind>| c@)[idx as int] == chunks@[idx as int]@);
        }
        Some(c)
    } else {
        None
    }
}

/// Header navigation targets of the guide.
#[derive(Clone, Copy, Debug, PartialEq, Eq, Structural)]
pub enum GuideNav {
    Prev,
    Back,
    Next,
}

impl GuideNav {
    /// Position of the variant in declaration order.
    pub open spec fn ordinal(self) -> u32 {
        match self {
            GuideNav::Prev => 0,
            GuideNav::Back => 1,
            GuideNav::Next => 2,
        }
    }

    /// Focus id of the header button.
    pub fn id(self) -> (r: FocusId)
        ensures
            r == FocusId((0xD000 + self.ordinal()) as u32),
    {
        match self {
            GuideNav::Prev => FocusId(0xD000),
            GuideNav::Back => FocusId(0xD001),
            GuideNav::Next => FocusId(0xD002),
        }
    }
}

/// What the guide asks of the app after a frame.
#[derive(Clone, Copy, Debug, PartialEq, Eq, Structural)]
pub enum GuideOutcome {
    /// Keep showing the guide.
    Stay,
    /// Pop the guide overlay and resume the suspended scene.
    Pop,
}

/// Page after one tab/page action, and the sound it makes.
pub open spec fn page_step(page: int, a: UiAction, pages: int) -> (int, Option<SfxId>) {
    match a {
        UiAction::TabPrev | UiAction::PagePrev => if page > 0 {
            (page - 1, Some(SfxId::TileClick))
        } else {
            (page, Some(SfxId::InvalidAction))
        },
        UiAction::TabNext | UiAction::PageNext => if page + 1 < pages {
            (page + 1, Some(SfxId::TileClick))
        } else {
            (page, Some(SfxId::InvalidAction))
        },
        _ => (page, None),
    }
}

/// Page after the actions of a frame, applied in order.
pub open spec fn page_after(page: int, actions: Seq<UiAction>, pages: int) -> int
    decreases actions.len(),
{
    if actions.len() == 0 {
        page
    } else {
        page_step(page_after(page, actions.drop_last(), pages), actions.last(), pages).0
    }
}

/// Sounds played by the actions of a frame, in order.
pub open spec fn sounds_after(page: int, actions: Seq<UiAction>, pages: int) -> Seq<SfxId>
    decreases actions.len(),
{
    if actions.len() == 0 {
        Seq::empty()
    } else {
        let prev = sounds_after(page, actions.drop_last(), pages);
        match page_step(page_after(page, actions.drop_last(), pages), actions.last(), pages).1 {
            Some(s) => prev.push(s),
            None => prev,
        }
    }
}

/// Does the action close the guide?
pub open spec fn closes_guide(a: UiAction) -> bool {
    a == UiAction::Cancel || a == UiAction::Pause || a == UiAction::Help
}

/// Page and sound after the header button chosen this frame.
pub open spec fn nav_step(page: int, nav: Option<GuideNav>, pages: int) -> (int, Option<SfxId>, GuideOutcome) {
    match nav {
        Some(GuideNav::Prev) => if page > 0 {
            (page - 1, Some(SfxId::TileClick), GuideOutcome::Stay)
        } else {
            (page, Some(SfxId::InvalidAction), GuideOutcome::Stay)
        },
        Some(GuideNav::Next) => if page + 1 < pages {
            (page + 1, Some(SfxId::TileClick), GuideOutcome::Stay)
        } else {
            (page, Some(SfxId::InvalidAction), GuideOutcome::Stay)
        },
        Some(GuideNav::Back) => (page, Some(SfxId::UiCancel), GuideOutcome::Pop),
        None => (page, None, GuideOutcome::Stay),
    }
}

/// The guide scene: the page being shown.
pub struct GuideScene {
    pub page: usize,
}

impl GuideScene {
    /// Guide page index for economy / storeroom reference.
    pub const ECONOMY_PAGE: usize = PAGE_ECONOMY;

    /// Open at the first page.
    pub fn new() -> (r: Self)
        ensures
            r.page == 0,
    {
        Self::with_page(0)
    }

    /// Open at a given page.
    pub fn with_page(page: usize) -> (r: Self)
        ensures
            r.page == page,
    {
        Self { page }
    }

    /// Is the Tanuki's Tips page showing?
    pub fn is_tanuki_tips_page(&self) -> (r: bool)
        ensures
            r == (self.page == PAGE_TANUKI_TIPS),
    {
        self.page == PAGE_TANUKI_TIPS
    }

    /// One frame of paging. `actions` are the frame's actions, `nav` the header
    /// button the focus tree activated, `tree_focus_changed` whether the tree's
    /// focus moved, `pages` the page count. Returns what the app should do and
    /// the sounds to play, in order.
    pub fn update_pages(&mut self, actions: &[UiAction], tree_focus_changed: bool, nav: Option<GuideNav>, pages: usize)
        -> (r: (GuideOutcome, Vec<SfxId>))
        ensures
            (exists|i: int| 0 <= i < actions@.len() && closes_guide(#[trigger] actions@[i])) ==> {
                &&& r.0 == GuideOutcome::Pop
                &&& r.1@ == Seq::<SfxId>::empty()
                &&& final(self).page == old(self).page
            },
            !(exists|i: int| 0 <= i < actions@.len() && closes_guide(#[trigger] actions@[i])) ==> {
                let p = page_after(old(self).page as int, actions@, pages as int);
                let (p2, s, o) = nav_step(p, nav, pages as int);
                let before = sounds_after(old(self).page as int, actions@, pages as int) + if tree_focus_changed {
                    seq![SfxId::TilePlace]
                } else {
                    Seq::<SfxId>::empty()
                };
                &&& final(self).page == p2
                &&& r.0 == o
                &&& r.1@ == match s {
                    Some(x) => before.push(x),
                    None => before,
                }
            },
    {
        let mut k: usize = 0;
        while k < actions.len()
            invariant
                k <= actions.len(),
                forall|i: int| 0 <= i < k ==> !closes_guide(#[trigger] actions@[i]),
            decreases actions.len() - k,
        {
            let a = actions[k];
            if matches!(a, UiAction::Cancel | UiAction::Pause | UiAction::Help) {
                return (GuideOutcome::Pop, Vec::new());
            }
            k += 1;
        }
        let ghost page0 = self.page as int;
        let mut sounds: Vec<SfxId> = Vec::new();
        let mut i: usize = 0;
        while i < actions.len()
            invariant
                i <= actions.len(),
                self.page == page_after(page0, actions@.take(i as int), pages as int),
                sounds@ == sounds_after(page0, actions@.take(i as int), pages as int),
            decreases actions.len() - i,
        {
            proof {
                assert(actions@.take(i + 1).drop_last() =~= actions@.take(i as int));
                assert(actions@.take(i + 1).last() == actions@[i as int]);
            }
            match actions[i] {
                UiAction::TabPrev | UiAction::PagePrev => {
                    if self.page > 0 {
                        sounds.push(SfxId::TileClick);
                        self.page -= 1;
                    } else {
                        sounds.push(SfxId::InvalidAction);
                    }
                },
                UiAction::TabNext | UiAction::PageNext => {
                    if self.page < pages && self.page + 1 < pages {
                        sounds.push(SfxId::TileClick);
                        self.page += 1;
                    } else {
                        sounds.push(SfxId::InvalidAction);
                    }
                },
                _ => {},
            }
            i += 1;
        }
        assert(actions@.take(actions@.len() as int) =~= actions@);
        let ghost action_sounds = sounds@;
        if tree_focus_changed {
            sounds.push(SfxId::TilePlace);
        }
        assert(sounds@ =~= action_sounds + if tree_focus_changed { seq![SfxId::TilePlace] } else { Seq::<SfxId>::empty() });
        match nav {
            Some(GuideNav::Prev) => {
                if self.page > 0 {
                    sounds.push(SfxId::TileClick);
                    self.page -= 1;
                } else {
                    sounds.push(SfxId::InvalidAction);
                }
                (GuideOutcome::Stay, sounds)
            },
            Some(GuideNav::Next) => {
                if self.page < pages && self.page + 1 < pages {
                    sounds.push(SfxId::TileClick);
                    self.page += 1;
                } else {
                    sounds.push(SfxId::InvalidAction);
                }
                (GuideOutcome::Stay, sounds)
            },
            Some(GuideNav::Back) => {
                sounds.push(SfxId::UiCancel);
                (GuideOutcome::Pop, sounds)
            },
            None => (GuideOutcome::Stay, sounds),
        }
    }
}

/// Paging keeps the guide on a real page: from a page before the last, any
/// frame's tab/page actions leave it before the last page.
pub proof fn lemma_page_after_in_range(page: int, actions: Seq<UiAction>, pages: int)
    requires
        0 <= page < pages,
    ensures
        0 <= page_after(page, actions, pages) < pages,
    decreases actions.len(),
{
    if actions.len() > 0 {
        lemma_page_after_in_range(page, actions.drop_last(), pages);
    }
}

/// A guide frame (`GuideScene::update_pages`) keeps the guide on a real
/// page, and paging past either end is refused: the page stays and the
/// invalid-action sound plays.
pub proof fn lemma_guide_update_keeps_page(page: int, actions: Seq<UiAction>, nav: Option<GuideNav>, pages: int)
    requires
        0 <= page < pages,
    ensures
        0 <= nav_step(page_after(page, actions, pages), nav, pages).0 < pages,
        page_step(0, UiAction::PagePrev, pages) == (0int, Some(SfxId::InvalidAction)),
        page_step(0, UiAction::TabPrev, pages) == (0int, Some(SfxId::InvalidAction)),
        page_step(pages - 1, UiAction::PageNext, pages) == (pages - 1, Some(SfxId::InvalidAction)),
        page_step(pages - 1, UiAction::TabNext, pages) == (pages - 1, Some(SfxId::InvalidAction)),
        nav_step(0, Some(GuideNav::Prev), pages) == (0int, Some(SfxId::InvalidAction), GuideOutcome::Stay),
        nav_step(pages - 1, Some(GuideNav::Next), pages) == (pages - 1, Some(SfxId::InvalidAction), GuideOutcome::Stay),
{
    lemma_page_after_in_range(page, actions, pages);
}

/// The header buttons page one step: Next moves to the following page and
/// Prev to the one before (each with the page-turn sound) unless that would
/// leave the guide, where the page stays and the invalid-action sound
/// plays; Back pops the guide with the cancel sound and keeps the page; a
/// frame without a button changes nothing. Next then Prev comes back.
pub proof fn lemma_guide_header_buttons(p: int, n: int)
    requires
        0 <= p < n,
    ensures
        p + 1 < n ==> nav_step(p, Some(GuideNav::Next), n) == (p + 1, Some(SfxId::TileClick), GuideOutcome::Stay),
        p + 1 >= n ==> nav_step(p, Some(GuideNav::Next), n) == (p, Some(SfxId::InvalidAction), GuideOutcome::Stay),
        p > 0 ==> nav_step(p, Some(GuideNav::Prev), n) == (p - 1, Some(SfxId::TileClick), GuideOutcome::Stay),
        p == 0 ==> nav_step(p, Some(GuideNav::Prev), n) == (p, Some(SfxId::InvalidAction), GuideOutcome::Stay),
        nav_step(p, Some(GuideNav::Back), n) == (p, Some(SfxId::UiCancel), GuideOutcome::Pop),
        nav_step(p, None, n) == (p, None::<SfxId>, GuideOutcome::Stay),
        p + 1 < n ==> nav_step(nav_step(p, Some(GuideNav::Next), n).0, Some(GuideNav::Prev), n).0 == p,
        p > 0 ==> nav_step(nav_step(p, Some(GuideNav::Prev), n).0, Some(GuideNav::Next), n).0 == p,
{
}

/// The tab and page actions page like the header buttons: next ones move
/// one page on, previous ones one page back, refused at either end; every
/// other action leaves the page alone and plays nothing.
pub proof fn lemma_guide_page_actions(p: int, n: int, a: UiAction)
    requires
        0 <= p < n,
    ensures
        (a == UiAction::PageNext || a == UiAction::TabNext) && p + 1 < n ==> page_step(p, a, n) == (
        p + 1, Some(SfxId::TileClick)),
        (a == UiAction::PagePrev || a == UiAction::TabPrev) && p > 0 ==> page_step(p, a, n) == (
        p - 1, Some(SfxId::TileClick)),
        (a == UiAction::PageNext || a == UiAction::TabNext) && p + 1 == n ==> page_step(p, a, n) == (
        p, Some(SfxId::InvalidAction)),
        (a == UiAction::PagePrev || a == UiAction::TabPrev) && p == 0 ==> page_step(p, a, n) == (
        p, Some(SfxId::InvalidAction)),
        !(a == UiAction::PageNext || a == UiAction::TabNext || a == UiAction::PagePrev || a == UiAction::TabPrev)
            ==> page_step(p, a, n) == (p, None::<SfxId>),
        page_step(p, UiAction::PageNext, n) == page_step(p, UiAction::TabNext, n),
        page_step(p, UiAction::PagePrev, n) == page_step(p, UiAction::TabPrev, n),
        page_step(p, UiAction::PageNext, n).0 == nav_step(p, Some(GuideNav::Next), n).0,
        page_step(p, UiAction::PagePrev, n).0 == nav_step(p, Some(GuideNav::Prev), n).0,
{
}

} // verus!
