//! Options scene structure: sections, rows, their click ids and the order of
//! the scrollable content (section headers interleaved with rows).

use vstd::prelude::*;
use vstd::string::*;

pub mod input;
pub mod settings;

verus! {

/// Click-id base for table-of-contents links.
pub const TOC_ID_BASE: u32 = 0xF200;
/// Click id of the Back button below the scroll area.
pub const BACK_ID: u32 = 0xF210;
/// Click ids of the tile-set row's arrows.
pub const TILESET_ARROW_PREV_ID: u32 = 0xF211;
pub const TILESET_ARROW_NEXT_ID: u32 = 0xF212;
/// Click id of the "open tile-set mods folder" button.
pub const TILESET_MODS_FOLDER_ID: u32 = 0xF213;

#[derive(Clone, Copy, Debug, PartialEq, Eq, Structural)]
pub enum Section {
    Audio,
    Graphics,
    Controls,
    Accessibility,
    Data,
}

impl Section {
    pub open spec fn label_spec(self) -> &'static str {
        match self {
            Section::Audio => "Audio",
            Section::Graphics => "Graphics",
            Section::Controls => "Controls",
            Section::Accessibility => "Accessibility",
            Section::Data => "Data",
        }
    }

    pub fn label(self) -> (r: &'static str)
        ensures
            r == self.label_spec(),
    {
        match self {
            Section::Audio => "Audio",
            Section::Graphics => "Graphics",
            Section::Controls => "Controls",
            Section::Accessibility => "Accessibility",
            Section::Data => "Data",
        }
    }
}

#[derive(Clone, Copy, Debug, PartialEq, Eq, Structural)]
pub enum Row {
    Master,
    Music,
    Sfx,
    SfxToggle,
    Gamma,
    Effects,
    Tile,
    Tileset,
    BorderlessFullscreen,
    Graphics,
    Hdr,
    UndoDiscard,
    SwapAb,
    SwapXy,
    XyQuickAction,
    HoldToSellRumble,
    AutoCashInOnFullStructure,
    StructureMeldPreview,
    GlyphPrompts,
    ExportPlayStats,
    Credits,
}

/// Position of a row in declaration order.
pub open spec fn row_ordinal(r: Row) -> u32 {
    match r {
        Row::Master => 0,
        Row::Music => 1,
        Row::Sfx => 2,
        Row::SfxToggle => 3,
        Row::Gamma => 4,
        Row::Effects => 5,
        Row::Tile => 6,
        Row::Tileset => 7,
        Row::BorderlessFullscreen => 8,
        Row::Graphics => 9,
        Row::Hdr => 10,
        Row::UndoDiscard => 11,
        Row::SwapAb => 12,
        Row::SwapXy => 13,
        Row::XyQuickAction => 14,
        Row::HoldToSellRumble => 15,
        Row::AutoCashInOnFullStructure => 16,
        Row::StructureMeldPreview => 17,
        Row::GlyphPrompts => 18,
        Row::ExportPlayStats => 19,
        Row::Credits => 20,
    }
}

/// Navigable rows in section order (Up/Down cycles through these).
pub open spec fn rows() -> Seq<Row> {
    seq![
        Row::Master,
        Row::Music,
        Row::Sfx,
        Row::SfxToggle,
        Row::Gamma,
        Row::Effects,
        Row::Tile,
        Row::Tileset,
        Row::BorderlessFullscreen,
        Row::Graphics,
        Row::Hdr,
        Row::SwapAb,
        Row::SwapXy,
        Row::XyQuickAction,
        Row::HoldToSellRumble,
        Row::AutoCashInOnFullStructure,
        Row::StructureMeldPreview,
        Row::UndoDiscard,
        Row::GlyphPrompts,
        Row::ExportPlayStats,
        Row::Credits,
    ]
}

/// The row whose click id is `id` (ids are one past the row's ordinal).
pub open spec fn row_for_click(id: u32) -> Option<Row> {
    match id {
        1 => Some(Row::Master),
        2 => Some(Row::Music),
        3 => Some(Row::Sfx),
        4 => Some(Row::SfxToggle),
        5 => Some(Row::Gamma),
        6 => Some(Row::Effects),
        7 => Some(Row::Tile),
        8 => Some(Row::Tileset),
        9 => Some(Row::BorderlessFullscreen),
        10 => Some(Row::Graphics),
        11 => Some(Row::Hdr),
        12 => Some(Row::UndoDiscard),
        13 => Some(Row::SwapAb),
        14 => Some(Row::SwapXy),
        15 => Some(Row::XyQuickAction),
        16 => Some(Row::HoldToSellRumble),
        17 => Some(Row::AutoCashInOnFullStructure),
        18 => Some(Row::StructureMeldPreview),
        19 => Some(Row::GlyphPrompts),
        20 => Some(Row::ExportPlayStats),
        21 => Some(Row::Credits),
        _ => None,
    }
}

impl Row {
    /// Click id of the row's hit target.
    pub fn click_id(self) -> (r: u32)
        ensures
            r == row_ordinal(self) + 1,
    {
        match self {
            Row::Master => 1,
            Row::Music => 2,
            Row::Sfx => 3,
            Row::SfxToggle => 4,
            Row::Gamma => 5,
            Row::Effects => 6,
            Row::Tile => 7,
            Row::Tileset => 8,
            Row::BorderlessFullscreen => 9,
            Row::Graphics => 10,
            Row::Hdr => 11,
            Row::UndoDiscard => 12,
            Row::SwapAb => 13,
            Row::SwapXy => 14,
            Row::XyQuickAction => 15,
            Row::HoldToSellRumble => 16,
            Row::AutoCashInOnFullStructure => 17,
            Row::StructureMeldPreview => 18,
            Row::GlyphPrompts => 19,
            Row::ExportPlayStats => 20,
            Row::Credits => 21,
        }
    }

    /// The navigable row whose click id is `id`.
    pub fn from_click_id(id: u32) -> (r: Option<Row>)
        ensures
            r == row_for_click(id),
            r matches Some(row) ==> row_ordinal(row) + 1 == id && rows().contains(row),
            r is None ==> forall|row: Row| #[trigger] row_ordinal(row) + 1 != id,
    {
        let r = match id {
            1 => Some(Row::Master),
            2 => Some(Row::Music),
            3 => Some(Row::Sfx),
            4 => Some(Row::SfxToggle),
            5 => Some(Row::Gamma),
            6 => Some(Row::Effects),
            7 => Some(Row::Tile),
            8 => Some(Row::Tileset),
            9 => Some(Row::BorderlessFullscreen),
            10 => Some(Row::Graphics),
            11 => Some(Row::Hdr),
            12 => Some(Row::UndoDiscard),
            13 => Some(Row::SwapAb),
            14 => Some(Row::SwapXy),
            15 => Some(Row::XyQuickAction),
            16 => Some(Row::HoldToSellRumble),
            17 => Some(Row::AutoCashInOnFullStructure),
            18 => Some(Row::StructureMeldPreview),
            19 => Some(Row::GlyphPrompts),
            20 => Some(Row::ExportPlayStats),
            21 => Some(Row::Credits),
            _ => None,
        };
        proof {
            lemma_every_row_navigable();
        }
        r
    }

    /// Volume and gamma rows are sliders.
    pub fn is_slider(self) -> (r: bool)
        ensures
            r == (self == Row::Master || self == Row::Music || self == Row::Sfx || self == Row::Gamma),
    {
        matches!(self, Row::Master | Row::Music | Row::Sfx | Row::Gamma)
    }
}

/// Every row is navigable: each appears in the Up/Down cycle.
pub proof fn lemma_every_row_navigable()
    ensures
        forall|row: Row| #[trigger] rows().contains(row),
{
    assert forall|row: Row| #[trigger] rows().contains(row) by {
        let i: int = match row {
            Row::Master => 0,
            Row::Music => 1,
            Row::Sfx => 2,
            Row::SfxToggle => 3,
            Row::Gamma => 4,
            Row::Effects => 5,
            Row::Tile => 6,
            Row::Tileset => 7,
            Row::BorderlessFullscreen => 8,
            Row::Graphics => 9,
            Row::Hdr => 10,
            Row::SwapAb => 11,
            Row::SwapXy => 12,
            Row::XyQuickAction => 13,
            Row::HoldToSellRumble => 14,
            Row::AutoCashInOnFullStructure => 15,
            Row::StructureMeldPreview => 16,
            Row::UndoDiscard => 17,
            Row::GlyphPrompts => 18,
            Row::ExportPlayStats => 19,
            Row::Credits => 20,
        };
        assert(rows()[i] == row);
    }
}

/// Clicking a row's hit target finds that row again: click ids are distinct.
pub proof fn lemma_click_ids_distinct(a: Row, b: Row)
    ensures
        a != b ==> row_ordinal(a) != row_ordinal(b),
        row_for_click((row_ordinal(a) + 1) as u32) == Some(a),
{
}

/// A slot of the scrollable content: a section header or a row.
#[derive(Clone, Copy, Debug, PartialEq, Eq, Structural)]
pub enum ContentSlot {
    Header(Section),
    Row(Row),
}

/// The scrollable content, top to bottom.
#[verifier::opaque]
pub open spec fn content() -> Seq<ContentSlot> {
    seq![
        ContentSlot::Header(Section::Audio),
        ContentSlot::Row(Row::Master),
        ContentSlot::Row(Row::Music),
        ContentSlot::Row(Row::Sfx),
        ContentSlot::Row(Row::SfxToggle),
        ContentSlot::Header(Section::Graphics),
        ContentSlot::Row(Row::Gamma),
        ContentSlot::Row(Row::Effects),
        ContentSlot::Row(Row::Tile),
        ContentSlot::Row(Row::Tileset),
        ContentSlot::Row(Row::BorderlessFullscreen),
        ContentSlot::Row(Row::Graphics),
        ContentSlot::Row(Row::Hdr),
        ContentSlot::Header(Section::Controls),
        ContentSlot::Row(Row::SwapAb),
        ContentSlot::Row(Row::SwapXy),
        ContentSlot::Row(Row::XyQuickAction),
        ContentSlot::Row(Row::HoldToSellRumble),
        ContentSlot::Row(Row::AutoCashInOnFullStructure),
        ContentSlot::Row(Row::StructureMeldPreview),
        ContentSlot::Header(Section::Accessibility),
        ContentSlot::Row(Row::UndoDiscard),
        ContentSlot::Row(Row::GlyphPrompts),
        ContentSlot::Header(Section::Data),
        ContentSlot::Row(Row::ExportPlayStats),
        ContentSlot::Row(Row::Credits),
    ]
}

/// Number of content slots.
pub const CONTENT_LEN: usize = 26;

/// The content slot at a position.
pub fn content_slot(i: usize) -> (r: ContentSlot)
    requires
        i < CONTENT_LEN,
    ensures
        r == content()[i as int],
{
    reveal(content);
    match i {
        0 => ContentSlot::Header(Section::Audio),
        1 => ContentSlot::Row(Row::Master),
        2 => ContentSlot::Row(Row::Music),
        3 => ContentSlot::Row(Row::Sfx),
        4 => ContentSlot::Row(Row::SfxToggle),
        5 => ContentSlot::Header(Section::Graphics),
        6 => ContentSlot::Row(Row::Gamma),
        7 => ContentSlot::Row(Row::Effects),
        8 => ContentSlot::Row(Row::Tile),
        9 => ContentSlot::Row(Row::Tileset),
        10 => ContentSlot::Row(Row::BorderlessFullscreen),
        11 => ContentSlot::Row(Row::Graphics),
        12 => ContentSlot::Row(Row::Hdr),
        13 => ContentSlot::Header(Section::Controls),
        14 => ContentSlot::Row(Row::SwapAb),
        15 => ContentSlot::Row(Row::SwapXy),
        16 => ContentSlot::Row(Row::XyQuickAction),
        17 => ContentSlot::Row(Row::HoldToSellRumble),
        18 => ContentSlot::Row(Row::AutoCashInOnFullStructure),
        19 => ContentSlot::Row(Row::StructureMeldPreview),
        20 => ContentSlot::Header(Section::Accessibility),
        21 => ContentSlot::Row(Row::UndoDiscard),
        22 => ContentSlot::Row(Row::GlyphPrompts),
        23 => ContentSlot::Header(Section::Data),
        24 => ContentSlot::Row(Row::ExportPlayStats),
        _ => ContentSlot::Row(Row::Credits),
    }
}

/// Position of the first content slot equal to `slot`, searching from the top.
fn position_of(slot: ContentSlot) -> (r: Option<usize>)
    ensures
        r matches Some(i) ==> i < CONTENT_LEN && content()[i as int] == slot && forall|j: int|
            0 <= j < i ==> content()[j] != slot,
        r is None ==> !content().contains(slot),
{
    proof {
        reveal(content);
    }
    let mut i: usize = 0;
    while i < CONTENT_LEN
        invariant
            i <= CONTENT_LEN,
            content().len() == CONTENT_LEN,
            forall|j: int| 0 <= j < i ==> content()[j] != slot,
        decreases CONTENT_LEN - i,
    {
        if content_slot(i) == slot {
            return Some(i);
        }
        i += 1;
    }
    None
}

/// Content position of a row.
pub fn content_index_of_row(row: Row) -> (r: usize)
    ensures
        r < CONTENT_LEN,
        content()[r as int] == ContentSlot::Row(row),
        forall|j: int| 0 <= j < r ==> content()[j] != ContentSlot::Row(row),
{
    proof {
        lemma_every_row_has_slot(row);
    }
    match position_of(ContentSlot::Row(row)) {
        Some(i) => i,
        None => 0,
    }
}

/// Content position of a section header.
pub fn content_index_of_section(section: Section) -> (r: usize)
    ensures
        r < CONTENT_LEN,
        content()[r as int] == ContentSlot::Header(section),
        forall|j: int| 0 <= j < r ==> content()[j] != ContentSlot::Header(section),
{
    proof {
        lemma_every_section_has_header(section);
    }
    match position_of(ContentSlot::Header(section)) {
        Some(i) => i,
        None => 0,
    }
}

/// Every row has a slot in the content.
pub proof fn lemma_every_row_has_slot(row: Row)
    ensures
        content().contains(ContentSlot::Row(row)),
{
    let i: int = match row {
        Row::Master => 1,
        Row::Music => 2,
        Row::Sfx => 3,
        Row::SfxToggle => 4,
        Row::Gamma => 6,
        Row::Effects => 7,
        Row::Tile => 8,
        Row::Tileset => 9,
        Row::BorderlessFullscreen => 10,
        Row::Graphics => 11,
        Row::Hdr => 12,
        Row::SwapAb => 14,
        Row::SwapXy => 15,
        Row::XyQuickAction => 16,
        Row::HoldToSellRumble => 17,
        Row::AutoCashInOnFullStructure => 18,
        Row::StructureMeldPreview => 19,
        Row::UndoDiscard => 21,
        Row::GlyphPrompts => 22,
        Row::ExportPlayStats => 24,
        Row::Credits => 25,
    };
    reveal(content);
    assert(content()[i] == ContentSlot::Row(row));
}

/// Every section has a header in the content.
pub proof fn lemma_every_section_has_header(section: Section)
    ensures
        content().contains(ContentSlot::Header(section)),
{
    let i: int = match section {
        Section::Audio => 0,
        Section::Graphics => 5,
        Section::Controls => 13,
        Section::Accessibility => 20,
        Section::Data => 23,
    };
    reveal(content);
    assert(content()[i] == ContentSlot::Header(section));
}

/// Which section header is at the top of the visible content viewport, for
/// the viewport starting at content slot `idx` (the scroll offset's floor).
pub fn section_at_scroll(idx: usize) -> (r: Section)
    ensures
        ({
            let c = content();
            let below = exists|j: int| idx <= j < c.len() && #[trigger] c[j] is Header;
            &&& below ==> exists|j: int|
                idx <= j < c.len() && c[j] == ContentSlot::Header(r) && forall|k: int|
                    idx <= k < j ==> !(#[trigger] c[k] is Header)
            &&& !below ==> {
                let top = if idx < c.len() - 1 { idx as int } else { c.len() - 1 };
                exists|j: int|
                    0 <= j <= top && c[j] == ContentSlot::Header(r) && forall|k: int|
                        j < k <= top ==> !(#[trigger] c[k] is Header)
            }
        }),
{
    proof {
        reveal(content);
    }
    let mut i: usize = idx;
    while i < CONTENT_LEN
        invariant
            idx <= i,
            content().len() == CONTENT_LEN,
            forall|k: int| idx <= k < i ==> !(#[trigger] content()[k] is Header),
        decreases CONTENT_LEN - i,
    {
        match content_slot(i) {
            ContentSlot::Header(sec) => {
                return sec;
            },
            ContentSlot::Row(_) => {},
        }
        i += 1;
    }
    assert(!exists|j: int| idx <= j < content().len() && #[trigger] content()[j] is Header);
    let top: usize = if idx < CONTENT_LEN - 1 { idx } else { CONTENT_LEN - 1 };
    let mut j: usize = top + 1;
    assert(content()[0] == ContentSlot::Header(Section::Audio));
    while j > 0
        invariant
            j <= top + 1,
            top < CONTENT_LEN,
            content().len() == CONTENT_LEN,
            content()[0] == ContentSlot::Header(Section::Audio),
            top == if idx < CONTENT_LEN - 1 { idx } else { (CONTENT_LEN - 1) as usize },
            !exists|m: int| idx <= m < content().len() && #[trigger] content()[m] is Header,
            forall|k: int| j <= k <= top ==> !(#[trigger] content()[k] is Header),
        decreases j,
    {
        j -= 1;
        match content_slot(j) {
            ContentSlot::Header(sec) => {
                return sec;
            },
            ContentSlot::Row(_) => {},
        }
    }
    Section::Audio
}

/// "ON" or "OFF" for a toggle row.
pub fn on_off(enabled: bool) -> (r: String)
    ensures
        r@ == if enabled { "ON"@ } else { "OFF"@ },
{
    if enabled {
        String::from_str("ON")
    } else {
        String::from_str("OFF")
    }
}

} // verus!
