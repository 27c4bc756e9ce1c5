use mahjuro_scenes::input::{SfxId, UiAction};
use mahjuro_scenes::options::input::{
    options_frame, options_scene_step, BottomFocus, OptionsEffect, OptionsExit, OptionsFocus, OptionsSceneEvent,
};
use mahjuro_scenes::options::settings::{
    activate_row, adjust_row, cycle_tileset, resolve_tilesets, row_label, toggle_value, RowChange, ToggleSettings,
};
use mahjuro_scenes::options::{
    on_off, section_at_scroll, Row, Section, BACK_ID, TILESET_ARROW_NEXT_ID, TILESET_ARROW_PREV_ID,
    TILESET_MODS_FOLDER_ID, TOC_ID_BASE,
};

fn on(row: Row) -> OptionsFocus {
    OptionsFocus { row, bottom: BottomFocus::Content }
}

fn settings() -> ToggleSettings {
    ToggleSettings {
        sfx_enabled: true,
        borderless_fullscreen: false,
        hdr_enabled: false,
        swap_ab: false,
        swap_xy: false,
        controller_layout_user_set: false,
        xy_quick_action: false,
        hold_to_sell_rumble: true,
        auto_cash_in_on_full_structure: false,
        structure_meld_preview: true,
        discard_undo_enabled: false,
        graphics_mode_user_set: false,
    }
}

#[test]
fn down_and_up_walk_the_rows_in_section_order() {
    let f = options_frame(on(Row::Hdr), None, None, &[], &[UiAction::FocusDown]);
    assert_eq!(f.focus, on(Row::SwapAb));
    assert!(f.focus_changed);
    let f = options_frame(on(Row::StructureMeldPreview), None, None, &[], &[UiAction::FocusDown]);
    assert_eq!(f.focus, on(Row::UndoDiscard));
    let f = options_frame(on(Row::Master), None, None, &[], &[UiAction::FocusUp]);
    assert_eq!(f.focus, on(Row::Master));
    assert!(!f.focus_changed);
    let f = options_frame(on(Row::Music), None, None, &[], &[UiAction::FocusDown, UiAction::FocusUp]);
    assert_eq!(f.focus, on(Row::Music));
    assert!(!f.focus_changed);
}

#[test]
fn down_past_the_last_row_reaches_the_bottom_buttons() {
    let f = options_frame(
        on(Row::Credits),
        None,
        None,
        &[],
        &[UiAction::FocusDown, UiAction::FocusDown, UiAction::FocusDown],
    );
    assert_eq!(f.focus.bottom, BottomFocus::Back);
    let f = options_frame(
        OptionsFocus { row: Row::Master, bottom: BottomFocus::Back },
        None,
        None,
        &[],
        &[UiAction::FocusUp, UiAction::FocusUp],
    );
    assert_eq!(f.focus, on(Row::Credits));
}

#[test]
fn confirm_on_back_closes_and_on_a_row_activates() {
    let f = options_frame(OptionsFocus { row: Row::Gamma, bottom: BottomFocus::Back }, None, None, &[], &[UiAction::Confirm]);
    assert!(f.close);
    assert!(!f.focus_changed);
    let f = options_frame(on(Row::Hdr), None, None, &[], &[UiAction::CommitDiscard]);
    assert_eq!(f.effects, vec![OptionsEffect::Activate(Row::Hdr)]);
    assert!(f.confirm);
    assert!(!f.close);
    let f = options_frame(
        OptionsFocus { row: Row::Hdr, bottom: BottomFocus::TilesetMods },
        None,
        None,
        &[],
        &[UiAction::Confirm],
    );
    assert_eq!(f.effects, vec![OptionsEffect::OpenTilesetMods]);
}

#[test]
fn cancel_closes_and_stops_later_actions() {
    let f = options_frame(on(Row::Master), None, None, &[], &[UiAction::Cancel, UiAction::FocusDown]);
    assert!(f.close);
    assert_eq!(f.focus, on(Row::Master));
    let f = options_frame(on(Row::Master), None, None, &[], &[UiAction::Pause]);
    assert!(f.close);
}

#[test]
fn left_and_right_adjust_only_on_rows() {
    let f = options_frame(on(Row::Tile), None, None, &[], &[UiAction::FocusNext, UiAction::FocusPrev]);
    assert_eq!(f.effects, vec![OptionsEffect::Adjust(Row::Tile, true), OptionsEffect::Adjust(Row::Tile, false)]);
    let f = options_frame(OptionsFocus { row: Row::Tile, bottom: BottomFocus::Back }, None, None, &[], &[UiAction::FocusNext]);
    assert!(f.effects.is_empty());
}

#[test]
fn clicks_on_toc_arrows_mods_and_rows() {
    let f = options_frame(on(Row::Master), None, None, &[TOC_ID_BASE + 2], &[]);
    assert_eq!(f.effects, vec![OptionsEffect::ScrollToSection(Section::Controls)]);
    assert_eq!(f.focus, on(Row::SwapAb));
    let f = options_frame(on(Row::Master), None, None, &[TOC_ID_BASE + 3], &[]);
    assert_eq!(f.focus, on(Row::UndoDiscard));
    let f = options_frame(on(Row::Master), None, None, &[TILESET_ARROW_NEXT_ID, TILESET_ARROW_PREV_ID], &[]);
    assert_eq!(f.focus, on(Row::Tileset));
    assert_eq!(f.effects, vec![OptionsEffect::CycleTileset(true), OptionsEffect::CycleTileset(false)]);
    assert!(f.confirm);
    let f = options_frame(on(Row::Master), None, None, &[TILESET_MODS_FOLDER_ID], &[]);
    assert_eq!(f.focus.bottom, BottomFocus::TilesetMods);
    assert_eq!(f.effects, vec![OptionsEffect::OpenTilesetMods]);
}

#[test]
fn a_row_click_ends_the_frame_before_the_actions() {
    let hdr_id = Row::Hdr.click_id();
    let f = options_frame(on(Row::Master), None, None, &[hdr_id], &[UiAction::Cancel]);
    assert_eq!(f.effects, vec![OptionsEffect::Activate(Row::Hdr)]);
    assert!(!f.close);
    assert!(!f.focus_changed);
    assert_eq!(f.focus, on(Row::Hdr));
}

#[test]
fn back_click_closes() {
    let f = options_frame(on(Row::Master), None, None, &[BACK_ID, TILESET_ARROW_NEXT_ID], &[]);
    assert!(f.close);
    assert!(f.effects.is_empty());
}

#[test]
fn hover_moves_focus_before_keys() {
    let f = options_frame(on(Row::Master), Some(Row::Gamma), None, &[], &[UiAction::FocusDown]);
    assert_eq!(f.focus, on(Row::Effects));
    let f = options_frame(on(Row::Master), None, Some(BottomFocus::Back), &[], &[]);
    assert_eq!(f.focus, OptionsFocus { row: Row::Master, bottom: BottomFocus::Back });
    assert!(f.focus_changed);
}

#[test]
fn click_ids_round_trip() {
    for row in [Row::Master, Row::Hdr, Row::UndoDiscard, Row::Credits] {
        assert_eq!(Row::from_click_id(row.click_id()), Some(row));
    }
    assert_eq!(Row::from_click_id(0), None);
    assert_eq!(Row::from_click_id(22), None);
    assert_eq!(Row::Master.click_id(), 1);
    assert_eq!(Row::UndoDiscard.click_id(), 12);
}

#[test]
fn toggles_flip_and_flip_back() {
    let t = settings();
    let (t1, c) = adjust_row(t, Row::Hdr, true);
    assert_eq!(c, RowChange::Toggled);
    assert!(t1.hdr_enabled);
    let (t2, _) = adjust_row(t1, Row::Hdr, false);
    assert_eq!(t2, t);
    let (s1, _) = adjust_row(t, Row::SwapAb, true);
    assert!(s1.swap_ab && s1.controller_layout_user_set);
    let (s2, _) = adjust_row(s1, Row::SwapAb, true);
    assert!(!s2.swap_ab && s2.controller_layout_user_set);
}

#[test]
fn sliders_lists_and_requests() {
    let t = settings();
    assert_eq!(adjust_row(t, Row::Music, false).1, RowChange::SliderStep(Row::Music, false));
    assert_eq!(adjust_row(t, Row::Effects, true).1, RowChange::Cycle(Row::Effects, true));
    let (g, c) = adjust_row(t, Row::Graphics, false);
    assert_eq!(c, RowChange::Cycle(Row::Graphics, false));
    assert!(g.graphics_mode_user_set);
    assert_eq!(adjust_row(t, Row::Credits, true), (t, RowChange::Unchanged));
    assert_eq!(activate_row(t, Row::Master, false).1, RowChange::VolumeToggle(Row::Master));
    assert_eq!(activate_row(t, Row::Master, true).1, RowChange::SliderFromCursor(Row::Master));
    assert_eq!(activate_row(t, Row::Gamma, false).1, RowChange::Unchanged);
    assert_eq!(activate_row(t, Row::ExportPlayStats, false).1, RowChange::ExportRequested);
    assert_eq!(activate_row(t, Row::Credits, false).1, RowChange::CreditsRequested);
    assert_eq!(activate_row(t, Row::Tileset, false).1, RowChange::Cycle(Row::Tileset, true));
    let (u, c) = activate_row(t, Row::UndoDiscard, false);
    assert_eq!(c, RowChange::Toggled);
    assert!(u.discard_undo_enabled);
}

#[test]
fn tile_set_cycle_wraps_both_ways() {
    let names: Vec<String> = vec!["original".to_string(), "jade".to_string(), "bone".to_string()];
    assert_eq!(cycle_tileset(&names, &"bone".to_string(), true), Some("original".to_string()));
    assert_eq!(cycle_tileset(&names, &"original".to_string(), false), Some("bone".to_string()));
    assert_eq!(cycle_tileset(&names, &"jade".to_string(), true), Some("bone".to_string()));
    // An unlisted name steps from the first.
    assert_eq!(cycle_tileset(&names, &"gone".to_string(), true), Some("jade".to_string()));
    let jade_next = cycle_tileset(&names, &"jade".to_string(), true).unwrap();
    assert_eq!(cycle_tileset(&names, &jade_next, false), Some("jade".to_string()));
    assert_eq!(cycle_tileset(&Vec::new(), &"jade".to_string(), true), None);
}

#[test]
fn resolving_tile_sets_falls_back() {
    let (list, name) = resolve_tilesets(Vec::new(), &"jade".to_string());
    assert_eq!(list, vec!["original".to_string()]);
    assert_eq!(name, "original");
    let (list, name) = resolve_tilesets(vec!["a".to_string(), "b".to_string()], &"b".to_string());
    assert_eq!(list.len(), 2);
    assert_eq!(name, "b");
    let (_, name) = resolve_tilesets(vec!["a".to_string(), "b".to_string()], &"c".to_string());
    assert_eq!(name, "a");
}

#[test]
fn labels_and_values() {
    assert_eq!(row_label(Row::Sfx), "SFX");
    assert_eq!(row_label(Row::XyQuickAction), "Face buttons: play/discard");
    let t = settings();
    assert_eq!(toggle_value(Row::SfxToggle, &t), Some("ON".to_string()));
    assert_eq!(toggle_value(Row::Hdr, &t), Some("OFF".to_string()));
    assert_eq!(toggle_value(Row::BorderlessFullscreen, &t), Some("Windowed".to_string()));
    assert_eq!(toggle_value(Row::Gamma, &t), None);
    assert_eq!(on_off(true), "ON");
}

#[test]
fn section_at_scroll_finds_the_header_at_or_above() {
    assert_eq!(section_at_scroll(0), Section::Audio);
    assert_eq!(section_at_scroll(1), Section::Graphics);
    assert_eq!(section_at_scroll(5), Section::Graphics);
    assert_eq!(section_at_scroll(21), Section::Data);
    assert_eq!(section_at_scroll(24), Section::Data);
    assert_eq!(section_at_scroll(100), Section::Data);
}

#[test]
fn sliders_and_content_positions() {
    assert!(Row::Gamma.is_slider());
    assert!(Row::Sfx.is_slider());
    assert!(!Row::SfxToggle.is_slider());
    assert_eq!(mahjuro_scenes::options::content_index_of_row(Row::Master), 1);
    assert_eq!(mahjuro_scenes::options::content_index_of_row(Row::Credits), 25);
    assert_eq!(mahjuro_scenes::options::content_index_of_section(Section::Controls), 13);
    assert_eq!(Section::Accessibility.label(), "Accessibility");
}

#[test]
fn options_scene_closing_frame_plays_cancel_only() {
    let (exit, events) = options_scene_step(true, true, true, true, true, true);
    assert_eq!(exit, Some(OptionsExit::MainMenu));
    assert_eq!(events, vec![OptionsSceneEvent::Sound(SfxId::UiCancel)]);
}

#[test]
fn options_scene_credits_leave_after_export() {
    let (exit, events) = options_scene_step(false, true, true, true, true, true);
    assert_eq!(exit, Some(OptionsExit::Credits));
    assert_eq!(
        events,
        vec![
            OptionsSceneEvent::Sound(SfxId::TilePlace),
            OptionsSceneEvent::Sound(SfxId::UiConfirm),
            OptionsSceneEvent::ExportPlayStats,
            OptionsSceneEvent::Sound(SfxId::UiConfirm),
        ]
    );
}

#[test]
fn options_scene_stays_and_opens_mods_folder() {
    let (exit, events) = options_scene_step(false, false, true, false, false, true);
    assert_eq!(exit, None);
    assert_eq!(events, vec![OptionsSceneEvent::Sound(SfxId::UiConfirm), OptionsSceneEvent::OpenTilesetMods]);
    let (exit, events) = options_scene_step(false, false, false, false, false, false);
    assert_eq!(exit, None);
    assert!(events.is_empty());
}
