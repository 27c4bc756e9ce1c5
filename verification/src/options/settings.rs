//! Options values that the scene decides itself: on/off settings, what
//! adjusting or activating a row does, the tile-set choice, and row labels.
//! Volume and gamma are sliders in window pixels and stay with the caller.

use vstd::prelude::*;
use super::Row;
use super::on_off;

verus! {

/// The on/off settings of the options scene, and the two "set by the
/// player" marks that pin controller layout and graphics mode.
#[derive(Clone, Copy, Debug, PartialEq, Eq, Structural)]
pub struct ToggleSettings {
    pub sfx_enabled: bool,
    pub borderless_fullscreen: bool,
    pub hdr_enabled: bool,
    pub swap_ab: bool,
    pub swap_xy: bool,
    pub controller_layout_user_set: bool,
    pub xy_quick_action: bool,
    pub hold_to_sell_rumble: bool,
    pub auto_cash_in_on_full_structure: bool,
    pub structure_meld_preview: bool,
    pub discard_undo_enabled: bool,
    pub graphics_mode_user_set: bool,
}

/// Rows that flip one on/off setting.
pub open spec fn is_toggle_row(row: Row) -> bool {
    row == Row::SfxToggle || row == Row::BorderlessFullscreen || row == Row::Hdr || row == Row::SwapAb || row == Row::SwapXy || row == Row::XyQuickAction || row == Row::HoldToSellRumble || row == Row::AutoCashInOnFullStructure || row == Row::StructureMeldPreview || row == Row::UndoDiscard
}

/// The settings after flipping a row's on/off setting (swapping A/B or X/Y
/// also marks the controller layout as set by the player).
pub open spec fn flip(t: ToggleSettings, row: Row) -> ToggleSettings {
    match row {
        Row::SfxToggle => ToggleSettings { sfx_enabled: !t.sfx_enabled, ..t },
        Row::BorderlessFullscreen => ToggleSettings { borderless_fullscreen: !t.borderless_fullscreen, ..t },
        Row::Hdr => ToggleSettings { hdr_enabled: !t.hdr_enabled, ..t },
        Row::SwapAb => ToggleSettings { swap_ab: !t.swap_ab, controller_layout_user_set: true, ..t },
        Row::SwapXy => ToggleSettings { swap_xy: !t.swap_xy, controller_layout_user_set: true, ..t },
        Row::XyQuickAction => ToggleSettings { xy_quick_action: !t.xy_quick_action, ..t },
        Row::HoldToSellRumble => ToggleSettings { hold_to_sell_rumble: !t.hold_to_sell_rumble, ..t },
        Row::AutoCashInOnFullStructure => ToggleSettings { auto_cash_in_on_full_structure: !t.auto_cash_in_on_full_structure, ..t },
        Row::StructureMeldPreview => ToggleSettings { structure_meld_preview: !t.structure_meld_preview, ..t },
        Row::UndoDiscard => ToggleSettings { discard_undo_enabled: !t.discard_undo_enabled, ..t },
        _ => t,
    }
}

/// What adjusting or activating a row asks of the scene beyond its on/off
/// settings.
#[derive(Clone, Copy, Debug, PartialEq, Eq, Structural)]
pub enum RowChange {
    /// Nothing to change.
    Unchanged,
    /// An on/off setting flipped (settings are saved).
    Toggled,
    /// Move the slider one step right (`true`) or left (settings are saved).
    SliderStep(Row, bool),
    /// Mute the volume, or restore it when muted (settings are saved).
    VolumeToggle(Row),
    /// Set the slider from the cursor's place on the track (settings are saved).
    SliderFromCursor(Row),
    /// Step the row's list of choices forward (`true`) or back (settings are saved).
    Cycle(Row, bool),
    /// Export play stats.
    ExportRequested,
    /// Show the credits.
    CreditsRequested,
}

pub open spec fn is_slider_row(row: Row) -> bool {
    row == Row::Master || row == Row::Music || row == Row::Sfx || row == Row::Gamma
}

/// Rows that step through a list of choices.
pub open spec fn is_cycle_row(row: Row) -> bool {
    row == Row::Effects || row == Row::Tile || row == Row::Tileset || row == Row::Graphics || row == Row::GlyphPrompts
}

/// Adjusting a row right or left: sliders step, lists of choices step (the
/// graphics mode also becomes set by the player), on/off settings flip.
pub open spec fn adjust_spec(t: ToggleSettings, row: Row, right: bool) -> (ToggleSettings, RowChange) {
    if is_slider_row(row) {
        (t, RowChange::SliderStep(row, right))
    } else if is_cycle_row(row) {
        let t2 = if row == Row::Graphics { ToggleSettings { graphics_mode_user_set: true, ..t } } else { t };
        (t2, RowChange::Cycle(row, right))
    } else if is_toggle_row(row) {
        (flip(t, row), RowChange::Toggled)
    } else {
        (t, RowChange::Unchanged)
    }
}

/// Activating a row (click or confirm): a volume row mutes or unmutes
/// unless the cursor is on its track, where it sets the slider; gamma sets
/// its slider from the cursor on the track; lists step forward; on/off
/// settings flip; export and credits are requested.
pub open spec fn activate_spec(t: ToggleSettings, row: Row, cursor_on_track: bool) -> (ToggleSettings, RowChange) {
    if row == Row::Master || row == Row::Music || row == Row::Sfx {
        (t, if cursor_on_track { RowChange::SliderFromCursor(row) } else { RowChange::VolumeToggle(row) })
    } else if row == Row::Gamma {
        (t, if cursor_on_track { RowChange::SliderFromCursor(row) } else { RowChange::Unchanged })
    } else if row == Row::ExportPlayStats {
        (t, RowChange::ExportRequested)
    } else if row == Row::Credits {
        (t, RowChange::CreditsRequested)
    } else {
        adjust_spec(t, row, true)
    }
}

fn flip_exec(t: ToggleSettings, row: Row) -> (r: ToggleSettings)
    ensures
        r == flip(t, row),
{
    let mut t = t;
    match row {
        Row::SfxToggle => {
            t.sfx_enabled = !t.sfx_enabled;
        },
        Row::BorderlessFullscreen => {
            t.borderless_fullscreen = !t.borderless_fullscreen;
        },
        Row::Hdr => {
            t.hdr_enabled = !t.hdr_enabled;
        },
        Row::SwapAb => {
            t.swap_ab = !t.swap_ab;
            t.controller_layout_user_set = true;
        },
        Row::SwapXy => {
            t.swap_xy = !t.swap_xy;
            t.controller_layout_user_set = true;
        },
        Row::XyQuickAction => {
            t.xy_quick_action = !t.xy_quick_action;
        },
        Row::HoldToSellRumble => {
            t.hold_to_sell_rumble = !t.hold_to_sell_rumble;
        },
        Row::AutoCashInOnFullStructure => {
            t.auto_cash_in_on_full_structure = !t.auto_cash_in_on_full_structure;
        },
        Row::StructureMeldPreview => {
            t.structure_meld_preview = !t.structure_meld_preview;
        },
        Row::UndoDiscard => {
            t.discard_undo_enabled = !t.discard_undo_enabled;
        },
        _ => {},
    }
    t
}

/// Adjust the focused row right (`true`) or left.
pub fn adjust_row(t: ToggleSettings, row: Row, right: bool) -> (r: (ToggleSettings, RowChange))
    ensures
        r == adjust_spec(t, row, right),
{
    match row {
        Row::Master | Row::Music | Row::Sfx | Row::Gamma => (t, RowChange::SliderStep(row, right)),
        Row::Effects | Row::Tile | Row::Tileset | Row::GlyphPrompts => (t, RowChange::Cycle(row, right)),
        Row::Graphics => {
            let mut t2 = t;
            t2.graphics_mode_user_set = true;
            (t2, RowChange::Cycle(row, right))
        },
        Row::ExportPlayStats | Row::Credits => (t, RowChange::Unchanged),
        _ => (flip_exec(t, row), RowChange::Toggled),
    }
}

/// Activate a row by click or confirm; `cursor_on_track` says whether the
/// cursor is on the slider track.
pub fn activate_row(t: ToggleSettings, row: Row, cursor_on_track: bool) -> (r: (ToggleSettings, RowChange))
    ensures
        r == activate_spec(t, row, cursor_on_track),
{
    match row {
        Row::Master | Row::Music | Row::Sfx => {
            if cursor_on_track {
                (t, RowChange::SliderFromCursor(row))
            } else {
                (t, RowChange::VolumeToggle(row))
            }
        },
        Row::Gamma => {
            if cursor_on_track {
                (t, RowChange::SliderFromCursor(row))
            } else {
                (t, RowChange::Unchanged)
            }
        },
        Row::ExportPlayStats => (t, RowChange::ExportRequested),
        Row::Credits => (t, RowChange::CreditsRequested),
        _ => adjust_row(t, row, true),
    }
}

/// Flipping a row's on/off setting twice restores it; the only trace left
/// is that swapping A/B or X/Y marks the controller layout as set by the
/// player.
pub proof fn lemma_flip_twice(t: ToggleSettings, row: Row)
    requires
        is_toggle_row(row),
    ensures
        flip(flip(t, row), row) == (if row == Row::SwapAb || row == Row::SwapXy {
            ToggleSettings { controller_layout_user_set: true, ..t }
        } else {
            t
        }),
{
}

/// Adjusting an on/off row right or left does the same: it flips.
pub proof fn lemma_adjust_direction_free_on_toggles(t: ToggleSettings, row: Row)
    requires
        is_toggle_row(row),
    ensures
        adjust_spec(t, row, true) == adjust_spec(t, row, false),
        adjust_spec(t, row, true) == (flip(t, row), RowChange::Toggled),
{
}

/// Label of a row.
pub open spec fn row_label_spec(row: Row) -> &'static str {
    match row {
        Row::Master => "Master",
        Row::Music => "Music",
        Row::Sfx => "SFX",
        Row::SfxToggle => "SFX enabled",
        Row::Gamma => "Gamma",
        Row::Effects => "Effects quality",
        Row::Tile => "Tile style",
        Row::Tileset => "Tile set",
        Row::BorderlessFullscreen => "Window mode",
        Row::Graphics => "Graphics",
        Row::Hdr => "HDR",
        Row::SwapAb => "Swap A/B",
        Row::SwapXy => "Swap X/Y",
        Row::XyQuickAction => "Face buttons: play/discard",
        Row::HoldToSellRumble => "Controller rumble",
        Row::AutoCashInOnFullStructure => "Auto cash-in",
        Row::StructureMeldPreview => "Structure meld preview",
        Row::GlyphPrompts => "Button glyphs",
        Row::UndoDiscard => "Discard undo",
        Row::ExportPlayStats => "Export play stats",
        Row::Credits => "Credits",
    }
}

/// Label of a row.
pub fn row_label(row: Row) -> (r: &'static str)
    ensures
        r == row_label_spec(row),
{
    match row {
        Row::Master => "Master",
        Row::Music => "Music",
        Row::Sfx => "SFX",
        Row::SfxToggle => "SFX enabled",
        Row::Gamma => "Gamma",
        Row::Effects => "Effects quality",
        Row::Tile => "Tile style",
        Row::Tileset => "Tile set",
        Row::BorderlessFullscreen => "Window mode",
        Row::Graphics => "Graphics",
        Row::Hdr => "HDR",
        Row::SwapAb => "Swap A/B",
        Row::SwapXy => "Swap X/Y",
        Row::XyQuickAction => "Face buttons: play/discard",
        Row::HoldToSellRumble => "Controller rumble",
        Row::AutoCashInOnFullStructure => "Auto cash-in",
        Row::StructureMeldPreview => "Structure meld preview",
        Row::GlyphPrompts => "Button glyphs",
        Row::UndoDiscard => "Discard undo",
        Row::ExportPlayStats => "Export play stats",
        Row::Credits => "Credits",
    }
}

/// Shown value of an on/off row: "ON"/"OFF", or "Borderless"/"Windowed"
/// for the window mode; `None` for the other rows.
pub open spec fn toggle_value_spec(row: Row, t: ToggleSettings) -> Option<Seq<char>> {
    let b = |on: bool| if on { "ON"@ } else { "OFF"@ };
    match row {
        Row::SfxToggle => Some(b(t.sfx_enabled)),
        Row::BorderlessFullscreen => Some(if t.borderless_fullscreen { "Borderless"@ } else { "Windowed"@ }),
        Row::Hdr => Some(b(t.hdr_enabled)),
        Row::SwapAb => Some(b(t.swap_ab)),
        Row::SwapXy => Some(b(t.swap_xy)),
        Row::XyQuickAction => Some(b(t.xy_quick_action)),
        Row::HoldToSellRumble => Some(b(t.hold_to_sell_rumble)),
        Row::AutoCashInOnFullStructure => Some(b(t.auto_cash_in_on_full_structure)),
        Row::StructureMeldPreview => Some(b(t.structure_meld_preview)),
        Row::UndoDiscard => Some(b(t.discard_undo_enabled)),
        _ => None,
    }
}

/// Shown value of an on/off row.
pub fn toggle_value(row: Row, t: &ToggleSettings) -> (r: Option<String>)
    ensures
        r matches Some(s) ==> toggle_value_spec(row, *t) == Some(s@),
        r is None ==> toggle_value_spec(row, *t) is None,
{
    match row {
        Row::SfxToggle => Some(on_off(t.sfx_enabled)),
        Row::BorderlessFullscreen => Some(
            if t.borderless_fullscreen {
                String::from_str("Borderless")
            } else {
                String::from_str("Windowed")
            },
        ),
        Row::Hdr => Some(on_off(t.hdr_enabled)),
        Row::SwapAb => Some(on_off(t.swap_ab)),
        Row::SwapXy => Some(on_off(t.swap_xy)),
        Row::XyQuickAction => Some(on_off(t.xy_quick_action)),
        Row::HoldToSellRumble => Some(on_off(t.hold_to_sell_rumble)),
        Row::AutoCashInOnFullStructure => Some(on_off(t.auto_cash_in_on_full_structure)),
        Row::StructureMeldPreview => Some(on_off(t.structure_meld_preview)),
        Row::UndoDiscard => Some(on_off(t.discard_undo_enabled)),
        _ => None,
    }
}

fn find_name(names: &Vec<String>, name: &String) -> (r: Option<usize>)
    ensures
        r matches Some(i) ==> i < names@.len() && names@[i as int]@ == name@ && forall|k: int| 0 <= k < i ==> names@[k]@ != name@,
        r is None ==> forall|k: int| 0 <= k < names@.len() ==> names@[k]@ != name@,
{
    let mut i: usize = 0;
    while i < names.len()
        invariant
            i <= names.len(),
            forall|k: int| 0 <= k < i ==> names@[k]@ != name@,
        decreases names.len() - i,
    {
        if names[i] == *name {
            return Some(i);
        }
        i += 1;
    }
    None
}

/// Index of the tile set one step forward (`true`) or back from the
/// current one (from the first when the current name is not listed),
/// wrapping around.
pub open spec fn cycle_spec(len: int, cur: int, forward: bool) -> int {
    if forward { (cur + 1) % len } else { (cur - 1 + len) % len }
}

/// The tile set one step forward or back from `current`; `None` when no
/// tile set is listed.
pub fn cycle_tileset(available: &Vec<String>, current: &String, forward: bool) -> (r: Option<String>)
    ensures
        available@.len() == 0 ==> r is None,
        available@.len() > 0 ==> r is Some,
        r matches Some(s) ==> exists|cur: int| {
            &&& 0 <= cur < available@.len()
            &&& (if exists|i: int| 0 <= i < available@.len() && available@[i]@ == current@ {
                available@[cur]@ == current@ && forall|k: int| 0 <= k < cur ==> available@[k]@ != current@
            } else {
                cur == 0
            })
            &&& s@ == available@[cycle_spec(available@.len() as int, cur, forward)]@
        },
{
    let len = available.len();
    if len == 0 {
        return None;
    }
    let found = find_name(available, current);
    let cur = match found {
        Some(i) => i,
        None => 0,
    };
    proof {
        if found is None {
            assert(!exists|i: int| 0 <= i < available@.len() && available@[i]@ == current@);
        }
    }
    let next = if forward {
        if cur + 1 == len { 0 } else { cur + 1 }
    } else {
        if cur == 0 { len - 1 } else { cur - 1 }
    };
    proof {
        let c = cur as int;
        let l = len as int;
        if forward {
            if c + 1 == l {
                assert((c + 1) % l == 0) by (nonlinear_arith) requires c + 1 == l, l > 0;
            } else {
                assert((c + 1) % l == c + 1) by (nonlinear_arith) requires 0 <= c + 1 < l;
            }
        } else {
            if c == 0 {
                assert((c - 1 + l) % l == l - 1) by (nonlinear_arith) requires c == 0, l > 0;
            } else {
                assert((c - 1 + l) % l == c - 1) by (nonlinear_arith) requires 0 < c < l;
            }
        }
    }
    let r = available[next].clone();
    assert(0 <= cur < available@.len() && r@ == available@[cycle_spec(available@.len() as int, cur as int, forward)]@);
    Some(r)
}

/// Stepping forward then back through `len` choices returns to the start.
pub proof fn lemma_cycle_round_trip(len: int, cur: int)
    requires
        0 <= cur < len,
    ensures
        cycle_spec(len, cycle_spec(len, cur, true), false) == cur,
        cycle_spec(len, cycle_spec(len, cur, false), true) == cur,
{
    let n = cycle_spec(len, cur, true);
    if cur + 1 == len {
        assert((cur + 1) % len == 0) by (nonlinear_arith) requires cur + 1 == len, len > 0;
        assert((0 - 1 + len) % len == len - 1) by (nonlinear_arith) requires len > 0;
    } else {
        assert((cur + 1) % len == cur + 1) by (nonlinear_arith) requires 0 <= cur + 1 < len;
        assert((cur + 1 - 1 + len) % len == cur) by (nonlinear_arith) requires 0 <= cur < len;
    }
    if cur == 0 {
        assert((cur - 1 + len) % len == len - 1) by (nonlinear_arith) requires cur == 0, len > 0;
        assert((len - 1 + 1) % len == 0) by (nonlinear_arith) requires len > 0;
    } else {
        assert((cur - 1 + len) % len == cur - 1) by (nonlinear_arith) requires 0 < cur < len;
        assert((cur - 1 + 1) % len == cur) by (nonlinear_arith) requires 0 < cur < len;
    }
}

/// The listed tile sets ("original" when none is) and the chosen one: the
/// saved choice when it is listed, the first listed set otherwise.
pub fn resolve_tilesets(available: Vec<String>, saved: &String) -> (r: (Vec<String>, String))
    ensures
        available@.len() == 0 ==> r.0@.len() == 1 && r.0@[0]@ == "original"@,
        available@.len() > 0 ==> r.0@ == available@,
        (exists|i: int| 0 <= i < r.0@.len() && r.0@[i]@ == saved@) ==> r.1@ == saved@,
        !(exists|i: int| 0 <= i < r.0@.len() && r.0@[i]@ == saved@) ==> r.1@ == r.0@[0]@,
{
    let mut list = available;
    if list.len() == 0 {
        list.push(String::from_str("original"));
    }
    let name = match find_name(&list, saved) {
        Some(_) => saved.clone(),
        None => list[0].clone(),
    };
    (list, name)
}

/// Flipping an on/off row changes exactly the setting that row shows: its
/// shown value changes, every other row's shown value stays, and the only
/// other mark it may set is the controller layout's, by the swap rows.
/// Adjusting or activating such a row is that flip, reported as Toggled.
pub proof fn lemma_flip_changes_own_row(t: ToggleSettings, row: Row, other: Row, right: bool, on_track: bool)
    requires
        is_toggle_row(row),
    ensures
        toggle_value_spec(row, flip(t, row)) != toggle_value_spec(row, t),
        other != row ==> toggle_value_spec(other, flip(t, row)) == toggle_value_spec(other, t),
        flip(t, row).graphics_mode_user_set == t.graphics_mode_user_set,
        flip(t, row).controller_layout_user_set == (t.controller_layout_user_set || row == Row::SwapAb
            || row == Row::SwapXy),
        adjust_spec(t, row, right) == (flip(t, row), RowChange::Toggled),
        activate_spec(t, row, on_track) == (flip(t, row), RowChange::Toggled),
{
    reveal_strlit("ON");
    reveal_strlit("OFF");
    reveal_strlit("Borderless");
    reveal_strlit("Windowed");
    assert("ON"@[1] != "OFF"@[1]);
    assert("Borderless"@.len() != "Windowed"@.len());
}

/// Rows that are not on/off rows keep every on/off setting when adjusted,
/// apart from the graphics row, which marks its mode as set by the player.
pub proof fn lemma_adjust_keeps_toggles(t: ToggleSettings, row: Row, right: bool, other: Row)
    requires
        !is_toggle_row(row),
    ensures
        toggle_value_spec(other, adjust_spec(t, row, right).0) == toggle_value_spec(other, t),
        row != Row::Graphics ==> adjust_spec(t, row, right).0 == t,
        adjust_spec(t, row, right).1 != RowChange::Toggled,
{
}

} // verus!
