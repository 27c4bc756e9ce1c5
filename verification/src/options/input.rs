//! Options scene input: keyboard and controller focus over the rows and
//! the bottom buttons, clicks on the table of contents, the tile-set arrows
//! and the rows, and what each asks of the scene.
//!
//! Hover and slider geometry are measured in window pixels by the caller,
//! which hands the hovered row or bottom button in.

use vstd::prelude::*;
use crate::input::{SfxId, UiAction};
use super::{
    row_ordinal, content, content_index_of_section, content_slot, row_for_click, rows, ContentSlot, Row, Section, BACK_ID,
    CONTENT_LEN, TILESET_ARROW_NEXT_ID, TILESET_ARROW_PREV_ID, TILESET_MODS_FOLDER_ID, TOC_ID_BASE,
};

verus! {

/// Keyboard focus below the scroll area: on the rows, or on one of the two
/// bottom buttons.
#[derive(Clone, Copy, Debug, PartialEq, Eq, Structural)]
pub enum BottomFocus {
    Content,
    TilesetMods,
    Back,
}

/// Where the options scene's focus is.
#[derive(Clone, Copy, Debug, PartialEq, Eq, Structural)]
pub struct OptionsFocus {
    pub row: Row,
    pub bottom: BottomFocus,
}

/// What a frame's input asks of the options scene, in order.
#[derive(Clone, Copy, Debug, PartialEq, Eq, Structural)]
pub enum OptionsEffect {
    /// Scroll the content so this section's header is on top.
    ScrollToSection(Section),
    /// Open the tile-set mods folder.
    OpenTilesetMods,
    /// Step the tile set forward (`true`) or back.
    CycleTileset(bool),
    /// Activate a row (its click / confirm behaviour).
    Activate(Row),
    /// Adjust a row to the right (`true`) or left.
    Adjust(Row, bool),
}

/// Position of a row in the Up/Down order.
pub open spec fn row_pos(row: Row) -> int {
    match row {
        Row::Master => 0,
        Row::Music => 1,
        Row::Sfx => 2,
        Row::SfxToggle => 3,
        Row::Gamma => 4,
        Row::Effects => 5,
        Row::Tile => 6,
        Row::Tileset => 7,
        Row::BorderlessFullscreen => 8,
        Row::Graphics => 9,
        Row::Hdr => 10,
        Row::SwapAb => 11,
        Row::SwapXy => 12,
        Row::XyQuickAction => 13,
        Row::HoldToSellRumble => 14,
        Row::AutoCashInOnFullStructure => 15,
        Row::StructureMeldPreview => 16,
        Row::UndoDiscard => 17,
        Row::GlyphPrompts => 18,
        Row::ExportPlayStats => 19,
        Row::Credits => 20,
    }
}

/// The rows' position is their place in [`rows`].
pub proof fn lemma_row_pos(row: Row)
    ensures
        0 <= row_pos(row) < rows().len(),
        rows()[row_pos(row)] == row,
{
}

fn row_position(row: Row) -> (r: usize)
    ensures
        r == row_pos(row),
        r < 21,
{
    match row {
        Row::Master => 0,
        Row::Music => 1,
        Row::Sfx => 2,
        Row::SfxToggle => 3,
        Row::Gamma => 4,
        Row::Effects => 5,
        Row::Tile => 6,
        Row::Tileset => 7,
        Row::BorderlessFullscreen => 8,
        Row::Graphics => 9,
        Row::Hdr => 10,
        Row::SwapAb => 11,
        Row::SwapXy => 12,
        Row::XyQuickAction => 13,
        Row::HoldToSellRumble => 14,
        Row::AutoCashInOnFullStructure => 15,
        Row::StructureMeldPreview => 16,
        Row::UndoDiscard => 17,
        Row::GlyphPrompts => 18,
        Row::ExportPlayStats => 19,
        Row::Credits => 20,
    }
}

fn row_at(i: usize) -> (r: Row)
    requires
        i < 21,
    ensures
        r == rows()[i as int],
{
    match i {
        0 => Row::Master,
        1 => Row::Music,
        2 => Row::Sfx,
        3 => Row::SfxToggle,
        4 => Row::Gamma,
        5 => Row::Effects,
        6 => Row::Tile,
        7 => Row::Tileset,
        8 => Row::BorderlessFullscreen,
        9 => Row::Graphics,
        10 => Row::Hdr,
        11 => Row::SwapAb,
        12 => Row::SwapXy,
        13 => Row::XyQuickAction,
        14 => Row::HoldToSellRumble,
        15 => Row::AutoCashInOnFullStructure,
        16 => Row::StructureMeldPreview,
        17 => Row::UndoDiscard,
        18 => Row::GlyphPrompts,
        19 => Row::ExportPlayStats,
        _ => Row::Credits,
    }
}

/// Table-of-contents sections, in order.
pub open spec fn toc_sections() -> Seq<Section> {
    seq![Section::Audio, Section::Graphics, Section::Controls, Section::Accessibility, Section::Data]
}

fn toc_section(i: u32) -> (r: Section)
    requires
        i < 5,
    ensures
        r == toc_sections()[i as int],
{
    match i {
        0 => Section::Audio,
        1 => Section::Graphics,
        2 => Section::Controls,
        3 => Section::Accessibility,
        _ => Section::Data,
    }
}

/// The first row at or below content slot `i`.
pub open spec fn first_row_from(i: int) -> Option<Row>
    decreases CONTENT_LEN - i,
{
    if i < 0 || i >= CONTENT_LEN {
        None
    } else {
        match content()[i] {
            ContentSlot::Row(r) => Some(r),
            ContentSlot::Header(_) => first_row_from(i + 1),
        }
    }
}

/// Index of a section's header in the content.
pub open spec fn section_slot(s: Section) -> int {
    choose|j: int| 0 <= j < CONTENT_LEN && content()[j] == ContentSlot::Header(s) && forall|k: int|
        0 <= k < j ==> content()[k] != ContentSlot::Header(s)
}

fn first_row_at(start: usize) -> (r: Option<Row>)
    requires
        start <= CONTENT_LEN,
    ensures
        r == first_row_from(start as int),
    decreases CONTENT_LEN - start,
{
    if start >= CONTENT_LEN {
        return None;
    }
    match content_slot(start) {
        ContentSlot::Row(row) => Some(row),
        ContentSlot::Header(_) => first_row_at(start + 1),
    }
}

/// Focus on a row, off the bottom buttons.
pub open spec fn on_row(row: Row) -> OptionsFocus {
    OptionsFocus { row, bottom: BottomFocus::Content }
}

/// One button click: new focus, what it asks, whether it is a confirm, and
/// whether input handling stops there (1: it ends the frame, 2: it closes
/// the scene; 0: it goes on).
pub open spec fn click_step(f: OptionsFocus, cid: u32) -> (OptionsFocus, Option<OptionsEffect>, bool, int) {
    if TOC_ID_BASE <= cid < TOC_ID_BASE + 5 {
        let sec = toc_sections()[cid - TOC_ID_BASE];
        let f2 = match first_row_from(section_slot(sec)) {
            Some(r) => on_row(r),
            None => f,
        };
        (f2, Some(OptionsEffect::ScrollToSection(sec)), false, 0)
    } else if cid == TILESET_MODS_FOLDER_ID {
        (OptionsFocus { bottom: BottomFocus::TilesetMods, ..f }, Some(OptionsEffect::OpenTilesetMods), true, 0)
    } else if cid == BACK_ID {
        (f, None, false, 2)
    } else if cid == TILESET_ARROW_PREV_ID {
        (on_row(Row::Tileset), Some(OptionsEffect::CycleTileset(false)), true, 0)
    } else if cid == TILESET_ARROW_NEXT_ID {
        (on_row(Row::Tileset), Some(OptionsEffect::CycleTileset(true)), true, 0)
    } else {
        match row_for_click(cid) {
            Some(row) => (on_row(row), Some(OptionsEffect::Activate(row)), true, 1),
            None => (f, None, false, 0),
        }
    }
}

/// One keyboard or controller action: new focus, what it asks, whether it
/// is a confirm, and whether it closes the scene.
pub open spec fn action_step(f: OptionsFocus, a: UiAction) -> (OptionsFocus, Option<OptionsEffect>, bool, bool) {
    let i = row_pos(f.row);
    match a {
        UiAction::FocusDown => match f.bottom {
            BottomFocus::Back => (f, None, false, false),
            BottomFocus::TilesetMods => (OptionsFocus { bottom: BottomFocus::Back, ..f }, None, false, false),
            BottomFocus::Content => if i + 1 < rows().len() {
                (on_row(rows()[i + 1]), None, false, false)
            } else {
                (OptionsFocus { bottom: BottomFocus::TilesetMods, ..f }, None, false, false)
            },
        },
        UiAction::FocusUp => match f.bottom {
            BottomFocus::Back => (OptionsFocus { bottom: BottomFocus::TilesetMods, ..f }, None, false, false),
            BottomFocus::TilesetMods => (on_row(rows().last()), None, false, false),
            BottomFocus::Content => if i > 0 {
                (on_row(rows()[i - 1]), None, false, false)
            } else {
                (f, None, false, false)
            },
        },
        UiAction::FocusNext => if f.bottom == BottomFocus::Content {
            (f, Some(OptionsEffect::Adjust(f.row, true)), false, false)
        } else {
            (f, None, false, false)
        },
        UiAction::FocusPrev => if f.bottom == BottomFocus::Content {
            (f, Some(OptionsEffect::Adjust(f.row, false)), false, false)
        } else {
            (f, None, false, false)
        },
        UiAction::Confirm | UiAction::CommitDiscard => match f.bottom {
            BottomFocus::TilesetMods => (f, Some(OptionsEffect::OpenTilesetMods), true, false),
            BottomFocus::Back => (f, None, false, true),
            BottomFocus::Content => (f, Some(OptionsEffect::Activate(f.row)), true, false),
        },
        UiAction::Cancel | UiAction::Pause => (f, None, false, true),
        _ => (f, None, false, false),
    }
}

pub open spec fn opt_push(s: Seq<OptionsEffect>, e: Option<OptionsEffect>) -> Seq<OptionsEffect> {
    match e {
        Some(x) => s.push(x),
        None => s,
    }
}

/// The clicks of a frame, in order, until one stops input handling: focus,
/// effects, confirm, and the stop code of [`click_step`].
pub open spec fn clicks_fold(f: OptionsFocus, cs: Seq<u32>) -> (OptionsFocus, Seq<OptionsEffect>, bool, int)
    decreases cs.len(),
{
    if cs.len() == 0 {
        (f, Seq::empty(), false, 0)
    } else {
        let prev = clicks_fold(f, cs.drop_last());
        if prev.3 != 0 {
            prev
        } else {
            let st = click_step(prev.0, cs.last());
            (st.0, opt_push(prev.1, st.1), prev.2 || st.2, st.3)
        }
    }
}

/// The actions of a frame, in order, until one closes the scene: focus,
/// effects, confirm, close.
pub open spec fn actions_fold(f: OptionsFocus, acts: Seq<UiAction>) -> (OptionsFocus, Seq<OptionsEffect>, bool, bool)
    decreases acts.len(),
{
    if acts.len() == 0 {
        (f, Seq::empty(), false, false)
    } else {
        let prev = actions_fold(f, acts.drop_last());
        if prev.3 {
            prev
        } else {
            let st = action_step(prev.0, acts.last());
            (st.0, opt_push(prev.1, st.1), prev.2 || st.2, st.3)
        }
    }
}

/// Focus after the hovered row (if any) and then the hovered bottom button
/// (if any) take it.
pub open spec fn hovered(f: OptionsFocus, hover_row: Option<Row>, hover_bottom: Option<BottomFocus>) -> OptionsFocus {
    let f1 = match hover_row {
        Some(r) => on_row(r),
        None => f,
    };
    match hover_bottom {
        Some(b) => OptionsFocus { bottom: b, ..f1 },
        None => f1,
    }
}

/// What one frame of options input does.
pub struct OptionsFrame {
    pub focus: OptionsFocus,
    pub effects: Vec<OptionsEffect>,
    /// A confirm sound is due.
    pub confirm: bool,
    /// The scene closes (settings are saved first).
    pub close: bool,
    /// The focus ended the frame elsewhere than it started.
    pub focus_changed: bool,
}

/// The frame's outcome: hover first, then clicks (a row click or Back ends
/// the frame), then actions (Back, Cancel or Pause close the scene).
pub open spec fn frame_spec(
    f: OptionsFocus,
    hover_row: Option<Row>,
    hover_bottom: Option<BottomFocus>,
    clicks: Seq<u32>,
    acts: Seq<UiAction>,
) -> (OptionsFocus, Seq<OptionsEffect>, bool, bool, bool) {
    let c = clicks_fold(hovered(f, hover_row, hover_bottom), clicks);
    if c.3 == 1 {
        (c.0, c.1, c.2, false, false)
    } else if c.3 == 2 {
        (c.0, c.1, c.2, true, false)
    } else {
        let a = actions_fold(c.0, acts);
        (a.0, c.1 + a.1, c.2 || a.2, a.3, !a.3 && a.0 != f)
    }
}

fn click_exec(f: OptionsFocus, cid: u32) -> (r: (OptionsFocus, Option<OptionsEffect>, bool, u8))
    ensures
        (r.0, r.1, r.2, r.3 as int) == click_step(f, cid),
{
    if TOC_ID_BASE <= cid && cid < TOC_ID_BASE + 5 {
        let sec = toc_section(cid - TOC_ID_BASE);
        let slot = content_index_of_section(sec);
        proof {
            let j = slot as int;
            assert(0 <= j < CONTENT_LEN && content()[j] == ContentSlot::Header(sec) && forall|k: int|
                0 <= k < j ==> content()[k] != ContentSlot::Header(sec));
            let c = section_slot(sec);
            if c != j {
                if c < j {
                    assert(content()[c] != ContentSlot::Header(sec));
                } else {
                    assert(content()[j] != ContentSlot::Header(sec));
                }
            }
        }
        let f2 = match first_row_at(slot) {
            Some(r) => OptionsFocus { row: r, bottom: BottomFocus::Content },
            None => f,
        };
        (f2, Some(OptionsEffect::ScrollToSection(sec)), false, 0)
    } else if cid == TILESET_MODS_FOLDER_ID {
        (OptionsFocus { row: f.row, bottom: BottomFocus::TilesetMods }, Some(OptionsEffect::OpenTilesetMods), true, 0)
    } else if cid == BACK_ID {
        (f, None, false, 2)
    } else if cid == TILESET_ARROW_PREV_ID {
        (OptionsFocus { row: Row::Tileset, bottom: BottomFocus::Content }, Some(OptionsEffect::CycleTileset(false)), true, 0)
    } else if cid == TILESET_ARROW_NEXT_ID {
        (OptionsFocus { row: Row::Tileset, bottom: BottomFocus::Content }, Some(OptionsEffect::CycleTileset(true)), true, 0)
    } else {
        match Row::from_click_id(cid) {
            Some(row) => (OptionsFocus { row, bottom: BottomFocus::Content }, Some(OptionsEffect::Activate(row)), true, 1),
            None => (f, None, false, 0),
        }
    }
}

fn action_exec(f: OptionsFocus, a: UiAction) -> (r: (OptionsFocus, Option<OptionsEffect>, bool, bool))
    ensures
        r == action_step(f, a),
{
    let i = row_position(f.row);
    match a {
        UiAction::FocusDown => match f.bottom {
            BottomFocus::Back => (f, None, false, false),
            BottomFocus::TilesetMods => (OptionsFocus { row: f.row, bottom: BottomFocus::Back }, None, false, false),
            BottomFocus::Content => if i + 1 < 21 {
                (OptionsFocus { row: row_at(i + 1), bottom: BottomFocus::Content }, None, false, false)
            } else {
                (OptionsFocus { row: f.row, bottom: BottomFocus::TilesetMods }, None, false, false)
            },
        },
        UiAction::FocusUp => match f.bottom {
            BottomFocus::Back => (OptionsFocus { row: f.row, bottom: BottomFocus::TilesetMods }, None, false, false),
            BottomFocus::TilesetMods => (OptionsFocus { row: row_at(20), bottom: BottomFocus::Content }, None, false, false),
            BottomFocus::Content => if i > 0 {
                (OptionsFocus { row: row_at(i - 1), bottom: BottomFocus::Content }, None, false, false)
            } else {
                (f, None, false, false)
            },
        },
        UiAction::FocusNext => if f.bottom == BottomFocus::Content {
            (f, Some(OptionsEffect::Adjust(f.row, true)), false, false)
        } else {
            (f, None, false, false)
        },
        UiAction::FocusPrev => if f.bottom == BottomFocus::Content {
            (f, Some(OptionsEffect::Adjust(f.row, false)), false, false)
        } else {
            (f, None, false, false)
        },
        UiAction::Confirm | UiAction::CommitDiscard => match f.bottom {
            BottomFocus::TilesetMods => (f, Some(OptionsEffect::OpenTilesetMods), true, false),
            BottomFocus::Back => (f, None, false, true),
            BottomFocus::Content => (f, Some(OptionsEffect::Activate(f.row)), true, false),
        },
        UiAction::Cancel | UiAction::Pause => (f, None, false, true),
        _ => (f, None, false, false),
    }
}

fn push_opt(v: &mut Vec<OptionsEffect>, e: Option<OptionsEffect>)
    ensures
        final(v)@ == opt_push(old(v)@, e),
{
    match e {
        Some(x) => v.push(x),
        None => {},
    }
}

/// Process one frame of options input: the hovered row and bottom button
/// (measured by the caller), the button clicks and the actions.
pub fn options_frame(
    focus: OptionsFocus,
    hover_row: Option<Row>,
    hover_bottom: Option<BottomFocus>,
    button_clicks: &[u32],
    actions: &[UiAction],
) -> (r: OptionsFrame)
    ensures
        (r.focus, r.effects@, r.confirm, r.close, r.focus_changed) == frame_spec(
            focus,
            hover_row,
            hover_bottom,
            button_clicks@,
            actions@,
        ),
{
    let mut f = focus;
    match hover_row {
        Some(row) => {
            f = OptionsFocus { row, bottom: BottomFocus::Content };
        },
        None => {},
    }
    match hover_bottom {
        Some(b) => {
            f = OptionsFocus { row: f.row, bottom: b };
        },
        None => {},
    }
    let ghost start = f;
    assert(start == hovered(focus, hover_row, hover_bottom));
    let mut effects: Vec<OptionsEffect> = Vec::new();
    let mut confirm = false;
    let mut i: usize = 0;
    while i < button_clicks.len()
        invariant
            i <= button_clicks.len(),
            start == hovered(focus, hover_row, hover_bottom),
            clicks_fold(start, button_clicks@.take(i as int)) == (f, effects@, confirm, 0int),
        decreases button_clicks.len() - i,
    {
        proof {
            assert(button_clicks@.take(i + 1).drop_last() =~= button_clicks@.take(i as int));
        }
        let (f2, e, c, stop) = click_exec(f, button_clicks[i]);
        f = f2;
        push_opt(&mut effects, e);
        confirm = confirm || c;
        if stop != 0 {
            proof {
                let cs = button_clicks@;
                assert forall|k: int| i + 1 <= k <= cs.len() implies clicks_fold(start, #[trigger] cs.take(k))
                    == clicks_fold(start, cs.take(i + 1)) by {
                    lemma_clicks_stop(start, cs, i + 1, k);
                }
                assert(cs.take(cs.len() as int) =~= cs);
            }
            return OptionsFrame { focus: f, effects, confirm, close: stop == 2, focus_changed: false };
        }
        i += 1;
    }
    assert(button_clicks@.take(button_clicks@.len() as int) =~= button_clicks@);
    let ghost click_effects = effects@;
    let ghost after_clicks = f;
    let mut acts: Vec<OptionsEffect> = Vec::new();
    let mut act_confirm = false;
    let mut j: usize = 0;
    while j < actions.len()
        invariant
            j <= actions.len(),
            start == hovered(focus, hover_row, hover_bottom),
            clicks_fold(start, button_clicks@) == (after_clicks, click_effects, confirm, 0int),
            effects@ == click_effects,
            actions_fold(after_clicks, actions@.take(j as int)) == (f, acts@, act_confirm, false),
        decreases actions.len() - j,
    {
        proof {
            assert(actions@.take(j + 1).drop_last() =~= actions@.take(j as int));
        }
        let (f2, e, c, close) = action_exec(f, actions[j]);
        f = f2;
        push_opt(&mut acts, e);
        act_confirm = act_confirm || c;
        if close {
            proof {
                let s = actions@;
                assert forall|k: int| j + 1 <= k <= s.len() implies actions_fold(after_clicks, #[trigger] s.take(k))
                    == actions_fold(after_clicks, s.take(j + 1)) by {
                    lemma_actions_stop(after_clicks, s, j + 1, k);
                }
                assert(s.take(s.len() as int) =~= s);
            }
            effects.append(&mut acts);
            return OptionsFrame { focus: f, effects, confirm: confirm || act_confirm, close: true, focus_changed: false };
        }
        j += 1;
    }
    assert(actions@.take(actions@.len() as int) =~= actions@);
    effects.append(&mut acts);
    let changed = f != focus;
    OptionsFrame { focus: f, effects, confirm: confirm || act_confirm, close: false, focus_changed: changed }
}

proof fn lemma_clicks_stop(f: OptionsFocus, cs: Seq<u32>, n: int, k: int)
    requires
        0 <= n <= k <= cs.len(),
        clicks_fold(f, cs.take(n)).3 != 0,
    ensures
        clicks_fold(f, cs.take(k)) == clicks_fold(f, cs.take(n)),
    decreases k - n,
{
    if k > n {
        lemma_clicks_stop(f, cs, n, k - 1);
        assert(cs.take(k).drop_last() =~= cs.take(k - 1));
    }
}

proof fn lemma_actions_stop(f: OptionsFocus, s: Seq<UiAction>, n: int, k: int)
    requires
        0 <= n <= k <= s.len(),
        actions_fold(f, s.take(n)).3,
    ensures
        actions_fold(f, s.take(k)) == actions_fold(f, s.take(n)),
    decreases k - n,
{
    if k > n {
        lemma_actions_stop(f, s, n, k - 1);
        assert(s.take(k).drop_last() =~= s.take(k - 1));
    }
}

/// Down then Up returns the focus to where it was, from any row but the
/// last; Up then Down does the same from any row but the first.
pub proof fn lemma_down_up_returns(row: Row)
    ensures
        row_pos(row) + 1 < rows().len() ==> action_step(
            action_step(on_row(row), UiAction::FocusDown).0,
            UiAction::FocusUp,
        ).0 == on_row(row),
        row_pos(row) > 0 ==> action_step(action_step(on_row(row), UiAction::FocusUp).0, UiAction::FocusDown).0
            == on_row(row),
{
    lemma_row_pos(row);
    if row_pos(row) + 1 < rows().len() {
        lemma_row_pos(rows()[row_pos(row) + 1]);
        lemma_rows_distinct(rows()[row_pos(row) + 1], row_pos(row) + 1);
    }
    if row_pos(row) > 0 {
        lemma_row_pos(rows()[row_pos(row) - 1]);
        lemma_rows_distinct(rows()[row_pos(row) - 1], row_pos(row) - 1);
    }
}

/// A row's position is the one place it holds in the Up/Down order.
proof fn lemma_rows_distinct(row: Row, i: int)
    requires
        0 <= i < rows().len(),
        rows()[i] == row,
    ensures
        row_pos(row) == i,
{
}

/// Down from the last row reaches the tile-set mods button, then Back, and
/// stays on Back; Up walks back the same way to the last row.
pub proof fn lemma_bottom_buttons_order()
    ensures
        action_step(on_row(Row::Credits), UiAction::FocusDown).0.bottom == BottomFocus::TilesetMods,
        action_step(OptionsFocus { row: Row::Credits, bottom: BottomFocus::TilesetMods }, UiAction::FocusDown).0.bottom
            == BottomFocus::Back,
        action_step(OptionsFocus { row: Row::Credits, bottom: BottomFocus::Back }, UiAction::FocusDown).0.bottom
            == BottomFocus::Back,
        action_step(OptionsFocus { row: Row::Credits, bottom: BottomFocus::Back }, UiAction::FocusUp).0.bottom
            == BottomFocus::TilesetMods,
        action_step(OptionsFocus { row: Row::Credits, bottom: BottomFocus::TilesetMods }, UiAction::FocusUp).0
            == on_row(Row::Credits),
{
}

/// Where the options scene hands over when it leaves.
#[derive(Clone, Copy, Debug, PartialEq, Eq, Structural)]
pub enum OptionsExit {
    MainMenu,
    Credits,
}

/// What the options scene does after a frame of input, in order.
#[derive(Clone, Copy, Debug, PartialEq, Eq, Structural)]
pub enum OptionsSceneEvent {
    Sound(SfxId),
    /// Write the play-stats report (the caller asks where and reports back).
    ExportPlayStats,
    /// Open the tile-set mods folder.
    OpenTilesetMods,
}

/// The scene's reaction to a frame: a closing frame plays the cancel sound
/// and returns to the main menu; otherwise the focus sound, the confirm
/// sound, the stats export, then Credits (with a confirm sound, leaving the
/// scene), and last the mods folder.
pub open spec fn scene_step_spec(
    close: bool,
    focus_changed: bool,
    confirm: bool,
    export: bool,
    credits: bool,
    open_mods: bool,
) -> (Option<OptionsExit>, Seq<OptionsSceneEvent>) {
    if close {
        (Some(OptionsExit::MainMenu), seq![OptionsSceneEvent::Sound(SfxId::UiCancel)])
    } else {
        let head = (if focus_changed { seq![OptionsSceneEvent::Sound(SfxId::TilePlace)] } else { seq![] })
            + (if confirm { seq![OptionsSceneEvent::Sound(SfxId::UiConfirm)] } else { seq![] })
            + (if export { seq![OptionsSceneEvent::ExportPlayStats] } else { seq![] });
        if credits {
            (Some(OptionsExit::Credits), head.push(OptionsSceneEvent::Sound(SfxId::UiConfirm)))
        } else if open_mods {
            (None, head.push(OptionsSceneEvent::OpenTilesetMods))
        } else {
            (None, head)
        }
    }
}

/// One options-scene frame after its input was handled: the frame's close,
/// focus and confirm reports, and whether the stats export, Credits or the
/// mods folder were asked for.
pub fn options_scene_step(
    close: bool,
    focus_changed: bool,
    confirm: bool,
    export: bool,
    credits: bool,
    open_mods: bool,
) -> (r: (Option<OptionsExit>, Vec<OptionsSceneEvent>))
    ensures
        (r.0, r.1@) == scene_step_spec(close, focus_changed, confirm, export, credits, open_mods),
{
    let mut events: Vec<OptionsSceneEvent> = Vec::new();
    if close {
        events.push(OptionsSceneEvent::Sound(SfxId::UiCancel));
        proof {
            assert(events@ =~= seq![OptionsSceneEvent::Sound(SfxId::UiCancel)]);
        }
        return (Some(OptionsExit::MainMenu), events);
    }
    if focus_changed {
        events.push(OptionsSceneEvent::Sound(SfxId::TilePlace));
    }
    if confirm {
        events.push(OptionsSceneEvent::Sound(SfxId::UiConfirm));
    }
    if export {
        events.push(OptionsSceneEvent::ExportPlayStats);
    }
    let ghost head = events@;
    assert(head =~= (if focus_changed { seq![OptionsSceneEvent::Sound(SfxId::TilePlace)] } else { seq![] })
        + (if confirm { seq![OptionsSceneEvent::Sound(SfxId::UiConfirm)] } else { seq![] })
        + (if export { seq![OptionsSceneEvent::ExportPlayStats] } else { seq![] }));
    if credits {
        events.push(OptionsSceneEvent::Sound(SfxId::UiConfirm));
        return (Some(OptionsExit::Credits), events);
    }
    if open_mods {
        events.push(OptionsSceneEvent::OpenTilesetMods);
    }
    (None, events)
}

/// Confirm and CommitDiscard act alike: on a row they activate that row
/// with a confirm sound and keep the focus; on the mods button they open
/// the mods folder; on Back they close the scene. Cancel and Pause close it
/// from anywhere. FocusNext and FocusPrev adjust the focused row right and
/// left, and do nothing on the bottom buttons.
pub proof fn lemma_options_confirm_and_adjust(f: OptionsFocus)
    ensures
        action_step(f, UiAction::Confirm) == action_step(f, UiAction::CommitDiscard),
        f.bottom == BottomFocus::Content ==> action_step(f, UiAction::Confirm) == (
            f,
            Some(OptionsEffect::Activate(f.row)),
            true,
            false,
        ),
        f.bottom == BottomFocus::TilesetMods ==> action_step(f, UiAction::Confirm) == (
            f,
            Some(OptionsEffect::OpenTilesetMods),
            true,
            false,
        ),
        f.bottom == BottomFocus::Back ==> action_step(f, UiAction::Confirm).3,
        action_step(f, UiAction::Cancel).3 && action_step(f, UiAction::Pause).3,
        action_step(f, UiAction::Cancel).1 is None && action_step(f, UiAction::Pause).1 is None,
        f.bottom == BottomFocus::Content ==> action_step(f, UiAction::FocusNext) == (
            f,
            Some(OptionsEffect::Adjust(f.row, true)),
            false,
            false,
        ) && action_step(f, UiAction::FocusPrev) == (f, Some(OptionsEffect::Adjust(f.row, false)), false, false),
        f.bottom != BottomFocus::Content ==> action_step(f, UiAction::FocusNext).1 is None && action_step(
            f,
            UiAction::FocusPrev,
        ).1 is None,
        !action_step(f, UiAction::Confirm).3 ==> action_step(f, UiAction::Confirm).0 == f,
{
}

/// Clicks: a row's hit target focuses and activates that row with a
/// confirm, ending the frame's clicks; the tile-set arrows focus the tile
/// set row and step it back or on; the mods button opens the mods folder;
/// Back closes the scene; a table-of-contents link scrolls to its section;
/// an unknown id changes nothing.
pub proof fn lemma_options_clicks(f: OptionsFocus, row: Row, cid: u32)
    ensures
        click_step(f, (row_ordinal(row) + 1) as u32) == (on_row(row), Some(OptionsEffect::Activate(row)), true, 1int),
        click_step(f, TILESET_ARROW_PREV_ID) == (on_row(Row::Tileset), Some(OptionsEffect::CycleTileset(false)), true, 0int),
        click_step(f, TILESET_ARROW_NEXT_ID) == (on_row(Row::Tileset), Some(OptionsEffect::CycleTileset(true)), true, 0int),
        click_step(f, TILESET_MODS_FOLDER_ID) == (
            OptionsFocus { bottom: BottomFocus::TilesetMods, ..f },
            Some(OptionsEffect::OpenTilesetMods),
            true,
            0int,
        ),
        click_step(f, BACK_ID) == (f, None::<OptionsEffect>, false, 2int),
        TOC_ID_BASE <= cid < TOC_ID_BASE + 5 ==> click_step(f, cid).1 == Some(
            OptionsEffect::ScrollToSection(toc_sections()[cid - TOC_ID_BASE]),
        ) && click_step(f, cid).3 == 0,
        row_for_click(cid) is None && !(TOC_ID_BASE <= cid < TOC_ID_BASE + 5) && cid != BACK_ID && cid
            != TILESET_ARROW_PREV_ID && cid != TILESET_ARROW_NEXT_ID && cid != TILESET_MODS_FOLDER_ID ==> click_step(
            f,
            cid,
        ) == (f, None::<OptionsEffect>, false, 0int),
{
    super::lemma_click_ids_distinct(row, row);
}

} // verus!
