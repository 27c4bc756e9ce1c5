use mahjuro_scenes::guide::economy::{economy_item_role_label, zodiac_icon_asset, ZodiacKind};
use mahjuro_scenes::guide::layout::{page_nav_subtitle, scoring_section_title, IntroCopy};
use mahjuro_scenes::guide::melds_page::{guide_example_meld_breaks_after, guide_example_meld_gap_count};
use mahjuro_scenes::guide::yaku_text::{yaku_guide_detail, yaku_shape_text};
use mahjuro_scenes::guide::{
    total_pages, yaku_chunk_for_page, yaku_guide_chunks, yaku_needs_solo_guide_page, GuideNav, GuideOutcome,
    GuideScene, PAGE_ECONOMY, PAGE_TANUKI_TIPS, YAKU_PAGE_START,
};
use mahjuro_scenes::hallway::{hallway_step, play_caption, ChamberAction, ChamberKind, HallwayOutcome};
use mahjuro_scenes::input::{FocusId, SfxId, UiAction};
use mahjuro_scenes::inspect::inspect_closes;
use mahjuro_scenes::journal::{JournalOverlay, JOURNAL_CLOSE_ID};
use mahjuro_scenes::journal_transition::{done_after, TOTAL_DUR_NANOS};
use mahjuro_scenes::main_menu::{
    activate, default_focus, hub_focus, hub_frame_focus, label_for, menu_contains, menu_items, HubFocus, HubIntent,
    HubMenuLoading,
};
use mahjuro_scenes::main_menu_exterior::{exterior_activate, exterior_frame};
use mahjuro_scenes::material_viewer::{MaterialViewerScene, ViewerExit, CLICK_BACK};
use mahjuro_scenes::meld_guide::{
    nav_buttons, page_indicator, total_pages as meld_total_pages, MeldGuideOutcome, MeldGuideScene,
    CLICK_BACK as MELD_BACK, CLICK_NEXT, CLICK_PREV,
};
use mahjuro_scenes::pause_menu::{OptionsOverlayFrame, PauseAction, PauseHandled, PauseMenu, PauseTarget, PauseUpdate};
use mahjuro_scenes::pick_blind::{pick_blind_step, BlindAction, BlindKind, PickBlindOutcome};
use mahjuro_scenes::profile_select::{
    delete_prompt, profile_stat_lines, stat_line_highlighted, stat_line_text, ConfirmDelete, ProfileSelectScene, ProfileStep,
    ProfileSummary, StatLine,
};
use mahjuro_scenes::results::{RelicId, ResultsScene};
use mahjuro_scenes::scene_keys::{active_scene_key, active_scene_key_for_renderer, overlay_renderer_parent, SceneKey, SceneKind};
use mahjuro_scenes::text::decimal_string;
use mahjuro_scenes::tiles::{Suit, Tile, YakuKind};

#[test]
fn journal_opens_at_top_and_closes_on_help_or_button() {
    let mut j = JournalOverlay::new();
    assert!(!j.open);
    assert!(!j.handle_input(&[UiAction::Help], &[]));
    j.toggle();
    assert!(j.open);
    assert_eq!(j.scroll_steps(), 0);
    assert!(j.handle_input(&[UiAction::FocusDown, UiAction::Confirm], &[]));
    assert!(j.open);
    assert_eq!(j.scroll_steps(), 0);
    assert!(j.handle_input(&[UiAction::Help], &[]));
    assert!(!j.open);
    j.toggle();
    assert!(j.handle_input(&[], &[7, JOURNAL_CLOSE_ID]));
    assert!(!j.open);
    j.toggle();
    j.reset_scroll_range();
    assert!(j.open);
    assert_eq!(j.scroll_steps(), 0);
}

#[test]
fn journal_transition_ends_after_its_length() {
    assert!(!done_after(0));
    assert!(!done_after(TOTAL_DUR_NANOS - 1));
    assert!(done_after(TOTAL_DUR_NANOS));
    assert_eq!(TOTAL_DUR_NANOS, 1_100_000_000);
}

#[test]
fn meld_guide_pages_and_leaving() {
    let mut g = MeldGuideScene::new(true);
    assert_eq!(g.update(&[CLICK_PREV], &[]), MeldGuideOutcome::Stay);
    assert_eq!(g.page, 0);
    assert_eq!(g.update(&[CLICK_NEXT, CLICK_NEXT], &[UiAction::FocusDown]), MeldGuideOutcome::Stay);
    assert_eq!(g.page, 3);
    assert_eq!(g.update(&[], &[UiAction::FocusUp]), MeldGuideOutcome::Stay);
    assert_eq!(g.page, 2);
    assert_eq!(g.update(&[MELD_BACK, CLICK_NEXT], &[]), MeldGuideOutcome::PopOverlay);
    assert_eq!(g.page, 2);
    let mut h = MeldGuideScene::new(false);
    assert_eq!(h.update(&[], &[UiAction::FocusNext, UiAction::Cancel, UiAction::FocusNext]), MeldGuideOutcome::StartScreen);
    assert_eq!(h.page, 1);
    let mut last = MeldGuideScene { page: 24, has_suspended: false };
    assert_eq!(last.update(&[CLICK_NEXT], &[]), MeldGuideOutcome::Stay);
    assert_eq!(last.page, 24);
}

#[test]
fn hub_rows_labels_and_focus() {
    assert_eq!(menu_items(false), vec![HubFocus::NewGame, HubFocus::Archive, HubFocus::Options, HubFocus::Quit]);
    assert_eq!(menu_items(true)[0], HubFocus::Continue);
    assert_eq!(label_for(HubFocus::NewGame, false, false), "Play");
    assert_eq!(label_for(HubFocus::NewGame, true, false), "New Game");
    assert_eq!(label_for(HubFocus::Archive, false, true), "Archive (new)");
    assert_eq!(default_focus(true), HubFocus::Continue);
    assert_eq!(default_focus(false), HubFocus::NewGame);
    assert!(!menu_contains(false, HubFocus::Continue));
    assert_eq!(HubFocus::from_id(HubFocus::Options.id()), Some(HubFocus::Options));
    assert_eq!(HubFocus::from_id(FocusId(7)), None);
    assert_eq!(hub_focus(Some(HubFocus::Quit.id())), Some(HubFocus::Quit));
    assert_eq!(hub_focus(None), None);
    let loading = HubMenuLoading { continue_loading: false, new_game_loading: true, archive_loading: false };
    assert!(loading.for_item(HubFocus::NewGame));
    assert!(!loading.for_item(HubFocus::Quit));
}

#[test]
fn hub_frame_focus_keeps_shown_rows_and_cancel_goes_to_quit() {
    assert_eq!(hub_frame_focus(Some(HubFocus::Archive.id()), false, &[]), (HubFocus::Archive, 0));
    // Continue is not shown without a run in progress: fall back to the default row.
    assert_eq!(hub_frame_focus(Some(HubFocus::Continue.id()), false, &[]), (HubFocus::NewGame, 0));
    assert_eq!(hub_frame_focus(None, true, &[UiAction::Pause]), (HubFocus::Quit, 1));
    assert_eq!(hub_frame_focus(Some(HubFocus::Archive.id()), true, &[UiAction::Cancel, UiAction::Confirm, UiAction::Pause]), (HubFocus::Quit, 2));
}

#[test]
fn hub_activation_destinations() {
    assert_eq!(activate(HubFocus::NewGame, true, false), (HubIntent::TileSelect { tutorial: true }, SfxId::NewGameStinger));
    assert_eq!(activate(HubFocus::NewGame, false, true), (HubIntent::TileSelect { tutorial: false }, SfxId::NewGameStinger));
    assert_eq!(activate(HubFocus::NewGame, false, false), (HubIntent::StartRunDefaultMaterialAndShop, SfxId::NewGameStinger));
    assert_eq!(activate(HubFocus::Quit, false, false), (HubIntent::Quit, SfxId::UiConfirm));
    assert_eq!(exterior_activate(Some(HubFocus::Continue), false, false, false), (None, SfxId::InvalidAction));
    assert_eq!(exterior_activate(Some(HubFocus::Continue), false, false, true), (Some(HubIntent::Continue), SfxId::UiConfirm));
    assert_eq!(exterior_activate(Some(HubFocus::NewGame), true, false, false), (Some(HubIntent::TileSelect { tutorial: true }), SfxId::UiConfirm));
    assert_eq!(exterior_activate(None, false, false, false), (None, SfxId::UiConfirm));
}

fn no_overlay() -> OptionsOverlayFrame {
    OptionsOverlayFrame { closed: false, focus_changed: false, confirm_requested: false, credits_requested: false }
}

#[test]
fn pause_menu_rows() {
    let mut p = PauseMenu::new();
    assert_eq!(p.open_on_pause(&[UiAction::Confirm]), (false, None));
    assert_eq!(p.open_on_pause(&[UiAction::Pause]), (true, Some(SfxId::Pause)));
    assert!(p.paused);
    let (u, s) = p.update(&[], no_overlay(), true, Some(PauseAction::Restart));
    assert_eq!(u, PauseUpdate::Transition(PauseTarget::ShopFromRun));
    assert_eq!(s, vec![SfxId::TilePlace, SfxId::UiConfirm]);
    let (u, s) = p.update(&[], no_overlay(), false, Some(PauseAction::MainMenu));
    assert_eq!(u, PauseUpdate::Transition(PauseTarget::MainMenu));
    assert_eq!(s, vec![SfxId::UiCancel]);
    let (u, _) = p.update(&[], no_overlay(), false, Some(PauseAction::Exit));
    assert_eq!(u, PauseUpdate::Quit);
    let (u, s) = p.update(&[UiAction::Cancel], no_overlay(), true, Some(PauseAction::Exit));
    assert_eq!(u, PauseUpdate::Resume);
    assert_eq!(s, vec![SfxId::Unpause]);
    assert!(!p.paused);
    assert_eq!(PauseAction::Options.id(), FocusId(0x1000_0002));
}

#[test]
fn pause_menu_options_overlay() {
    let mut p = PauseMenu::new();
    p.open();
    let (u, _) = p.update(&[], no_overlay(), false, Some(PauseAction::Options));
    assert_eq!(u, PauseUpdate::StayPaused);
    assert!(p.options_open);
    let frame = OptionsOverlayFrame { closed: false, focus_changed: true, confirm_requested: true, credits_requested: false };
    let (u, s) = p.update(&[UiAction::Cancel], frame, false, None);
    assert_eq!(u, PauseUpdate::StayPaused);
    assert_eq!(s, vec![SfxId::TilePlace, SfxId::UiConfirm]);
    assert!(p.options_open);
    let credits = OptionsOverlayFrame { closed: false, focus_changed: false, confirm_requested: false, credits_requested: true };
    let (u, s) = p.update(&[], credits, false, None);
    assert_eq!(u, PauseUpdate::Resume);
    assert_eq!(s, vec![SfxId::UiConfirm]);
    assert!(p.take_credits_request());
    assert!(!p.take_credits_request());
    p.open();
    p.update(&[], no_overlay(), false, Some(PauseAction::Options));
    let closed = OptionsOverlayFrame { closed: true, focus_changed: true, confirm_requested: false, credits_requested: false };
    let (u, s) = p.update(&[], closed, false, None);
    assert_eq!(u, PauseUpdate::StayPaused);
    assert_eq!(s, vec![SfxId::UiCancel]);
    assert!(!p.options_open);
    assert!(p.paused);
}

#[test]
fn hallway_skip_and_play() {
    let (refocus, out, s) = hallway_step(ChamberKind::Regular, false, false, &[UiAction::Cancel], None);
    assert!(refocus);
    assert_eq!(out, HallwayOutcome::Stay);
    assert_eq!(s, vec![SfxId::TilePlace]);
    let (refocus, out, s) = hallway_step(ChamberKind::Regular, true, true, &[UiAction::Cancel], None);
    assert!(!refocus);
    assert_eq!(out, HallwayOutcome::Stay);
    assert_eq!(s, vec![SfxId::TilePlace]);
    let (refocus, out, _) = hallway_step(ChamberKind::Ordeal, false, false, &[UiAction::Cancel], Some(ChamberAction::SkipChamber));
    assert!(!refocus);
    assert_eq!(out, HallwayOutcome::Stay);
    let (_, out, _) = hallway_step(ChamberKind::Regular, true, false, &[], Some(ChamberAction::SkipChamber));
    assert_eq!(out, HallwayOutcome::SkippedToHallway);
    let (_, out, s) = hallway_step(ChamberKind::Ordeal, false, true, &[], Some(ChamberAction::PlayChamber));
    assert_eq!(out, HallwayOutcome::Play { ordeal: true });
    assert_eq!(s, vec![SfxId::TilePlace, SfxId::RoundStart]);
    assert_eq!(ChamberAction::SkipChamber.id(), FocusId(2));
}

#[test]
fn pick_blind_cancel_skips_unless_boss() {
    assert_eq!(
        pick_blind_step(BlindKind::Regular, false, &[UiAction::Cancel], Some(BlindAction::PlayBlind)),
        (PickBlindOutcome::Skipped, vec![])
    );
    assert_eq!(
        pick_blind_step(BlindKind::Boss, true, &[UiAction::Cancel], Some(BlindAction::PlayBlind)),
        (PickBlindOutcome::Play { boss: true }, vec![SfxId::TilePlace, SfxId::RoundStart])
    );
    assert_eq!(pick_blind_step(BlindKind::Boss, false, &[], Some(BlindAction::SkipBlind)), (PickBlindOutcome::Stay, vec![]));
    assert_eq!(pick_blind_step(BlindKind::Regular, true, &[], None), (PickBlindOutcome::Stay, vec![SfxId::TilePlace]));
    assert_eq!(BlindAction::PlayBlind.id(), FocusId(1));
}

#[test]
fn profile_delete_needs_confirmation() {
    let mut p = ProfileSelectScene::from_archive_switch_save(7);
    assert_eq!(p.cursor(), 2);
    let (step, s) = p.update(&[UiAction::Delete], Some(FocusId(1)), true, None, true);
    assert_eq!(step, ProfileStep::Stay);
    assert_eq!(s, vec![SfxId::TilePlace]);
    assert_eq!(p.confirm_delete, ConfirmDelete::Pending(1));
    let (step, s) = p.update(&[UiAction::FocusDown, UiAction::Confirm], None, false, None, false);
    assert_eq!(step, ProfileStep::DeleteProfile(1));
    assert!(s.is_empty());
    assert_eq!(p.confirm_delete, ConfirmDelete::Idle);
    let (step, _) = p.update(&[UiAction::Delete], Some(FocusId(0)), false, Some(0), false);
    assert_eq!(step, ProfileStep::SwitchProfile(0));
    let (step, s) = p.update(&[UiAction::Pause], Some(FocusId(0)), false, Some(0), true);
    assert_eq!(step, ProfileStep::ReturnToArchive);
    assert_eq!(s, vec![SfxId::UiCancel]);
}

#[test]
fn profile_card_lines() {
    let mut summary = ProfileSummary {
        level: 3,
        runs_completed: 1,
        victories: 2,
        high_score: 900,
        second_high_score: 0,
        third_high_score: 40,
        relics_unlocked: 1,
        yaku_discovered: 12,
        has_saved_run: false,
    };
    assert_eq!(
        profile_stat_lines(&summary),
        vec![
            StatLine::Depth(3),
            StatLine::RunsCompleted(1),
            StatLine::Victories(2),
            StatLine::Best(900),
            StatLine::Third(40),
            StatLine::RelicsUnlocked(1),
            StatLine::YakuDiscovered(12),
        ]
    );
    summary.has_saved_run = true;
    assert_eq!(profile_stat_lines(&summary).last(), Some(&StatLine::SavedGame));
    assert_eq!(stat_line_text(StatLine::RunsCompleted(1)), Some("1 run completed".to_string()));
    assert_eq!(stat_line_text(StatLine::RunsCompleted(0)), Some("0 runs completed".to_string()));
    assert_eq!(stat_line_text(StatLine::Victories(1)), Some("1 victory".to_string()));
    assert_eq!(stat_line_text(StatLine::Victories(12)), Some("12 victories".to_string()));
    assert_eq!(stat_line_text(StatLine::RelicsUnlocked(305)), Some("305 relics unlocked".to_string()));
    assert_eq!(stat_line_text(StatLine::YakuDiscovered(1)), Some("1 yaku discovered".to_string()));
    assert_eq!(stat_line_text(StatLine::SavedGame), Some("Saved game in progress".to_string()));
    assert_eq!(stat_line_text(StatLine::Best(10)), None);
    assert!(stat_line_highlighted(StatLine::SavedGame));
    assert!(!stat_line_highlighted(StatLine::Victories(1)));
}

#[test]
fn results_cursor_and_pick() {
    let mut r = ResultsScene::new(vec![RelicId(5), RelicId(6), RelicId(7)]);
    assert_eq!(r.update(None, &[UiAction::FocusNext, UiAction::FocusNext, UiAction::FocusNext]), None);
    assert_eq!(r.cursor, 2);
    assert_eq!(r.update(None, &[UiAction::FocusPrev, UiAction::Confirm]), Some(RelicId(6)));
    assert_eq!(r.update(Some(0), &[UiAction::CommitDiscard]), Some(RelicId(5)));
    let mut empty = ResultsScene::new(vec![]);
    assert_eq!(empty.update(None, &[UiAction::FocusNext]), None);
    assert_eq!(empty.cursor, 0);
}

#[test]
fn material_viewer_and_inspect_leave_on_cancel() {
    let v = MaterialViewerScene::new(true);
    assert_eq!(v.exit_requested(&[CLICK_BACK], &[]), Some(ViewerExit::PopOverlay));
    assert_eq!(MaterialViewerScene::new(false).exit_requested(&[], &[UiAction::Pause]), Some(ViewerExit::MainMenu));
    assert_eq!(v.exit_requested(&[3], &[UiAction::Confirm]), None);
    assert!(inspect_closes(&[UiAction::FocusNext, UiAction::ShopItemInspectToggle]));
    assert!(!inspect_closes(&[UiAction::Confirm]));
}

#[test]
fn scene_keys_for_the_renderer() {
    assert_eq!(active_scene_key(SceneKind::TutorialCampaign), Some(SceneKey::Tutorial));
    assert_eq!(active_scene_key(SceneKind::AnimationLab), Some(SceneKey::Shop));
    assert_eq!(active_scene_key(SceneKind::Credits), None);
    assert_eq!(overlay_renderer_parent(SceneKind::Shop, &[]), None);
    assert_eq!(overlay_renderer_parent(SceneKind::Shop, &[SceneKind::Showcase { inspect: true }]), Some(SceneKind::Shop));
    assert_eq!(
        overlay_renderer_parent(SceneKind::Shop, &[SceneKind::Gameplay, SceneKind::Showcase { inspect: true }]),
        Some(SceneKind::Gameplay)
    );
    assert_eq!(active_scene_key_for_renderer(SceneKind::Showcase { inspect: true }, Some(SceneKind::Shop)), Some(SceneKey::Shop));
    assert_eq!(active_scene_key_for_renderer(SceneKind::Showcase { inspect: true }, Some(SceneKind::Credits)), Some(SceneKey::Showcase));
    assert_eq!(active_scene_key_for_renderer(SceneKind::Showcase { inspect: false }, Some(SceneKind::Shop)), Some(SceneKey::Showcase));
}

#[test]
fn guide_pages_follow_the_yaku_chunks() {
    let available = vec![YakuKind::Chiitoitsu, YakuKind::Tanyao, YakuKind::KokushiMusou, YakuKind::Pinfu, YakuKind::Toitoi];
    let chunks = yaku_guide_chunks(&available);
    assert_eq!(
        chunks,
        vec![vec![YakuKind::Chiitoitsu], vec![YakuKind::Tanyao], vec![YakuKind::KokushiMusou], vec![YakuKind::Pinfu, YakuKind::Toitoi]]
    );
    assert_eq!(total_pages(&available), YAKU_PAGE_START + 4);
    assert_eq!(yaku_chunk_for_page(YAKU_PAGE_START + 3, &available), Some(vec![YakuKind::Pinfu, YakuKind::Toitoi]));
    assert_eq!(yaku_chunk_for_page(YAKU_PAGE_START + 4, &available), None);
    assert_eq!(yaku_chunk_for_page(2, &available), None);
    assert!(yaku_needs_solo_guide_page(YakuKind::KokushiMusou));
    assert!(!yaku_needs_solo_guide_page(YakuKind::Pinfu));
}

#[test]
fn guide_paging_and_closing() {
    let mut g = GuideScene::new();
    let (o, s) = g.update_pages(&[UiAction::PagePrev, UiAction::TabNext], false, None, 9);
    assert_eq!(o, GuideOutcome::Stay);
    assert_eq!(s, vec![SfxId::InvalidAction, SfxId::TileClick]);
    assert_eq!(g.page, 1);
    let (o, s) = g.update_pages(&[], true, Some(GuideNav::Back), 9);
    assert_eq!(o, GuideOutcome::Pop);
    assert_eq!(s, vec![SfxId::TilePlace, SfxId::UiCancel]);
    let mut end = GuideScene::with_page(8);
    let (_, s) = end.update_pages(&[], false, Some(GuideNav::Next), 9);
    assert_eq!(s, vec![SfxId::InvalidAction]);
    assert_eq!(end.page, 8);
    let (o, s) = end.update_pages(&[UiAction::PagePrev, UiAction::Help], true, Some(GuideNav::Prev), 9);
    assert_eq!(o, GuideOutcome::Pop);
    assert!(s.is_empty());
    assert_eq!(end.page, 8);
    assert!(GuideScene::with_page(PAGE_TANUKI_TIPS).is_tanuki_tips_page());
    assert_eq!(GuideScene::ECONOMY_PAGE, PAGE_ECONOMY);
    assert_eq!(GuideNav::Back.id(), FocusId(0xD001));
}

#[test]
fn guide_copy_helpers() {
    assert_eq!(page_nav_subtitle(0), Some(IntroCopy::Tiles));
    assert_eq!(page_nav_subtitle(PAGE_TANUKI_TIPS), None);
    assert_eq!(page_nav_subtitle(YAKU_PAGE_START), None);
    assert_eq!(scoring_section_title(3, "Cash in"), "3. Cash in");
    assert_eq!(scoring_section_title(12, "X"), "12. X");
    assert_eq!(scoring_section_title(255, ""), "255. ");
    assert_eq!(zodiac_icon_asset(ZodiacKind::Koi), "textures/zodiacs/zodiac_koi.png");
    assert_eq!(economy_item_role_label(2), "REMAKE YOUR TILES");
    assert_eq!(economy_item_role_label(40), "MAKE A CHOICE");
    assert_eq!(yaku_shape_text(YakuKind::Chiitoitsu), "Seven distinct pairs");
    assert_eq!(yaku_guide_detail(YakuKind::Toitoi).requires, "2+ triplets/kongs");
    assert_eq!(decimal_string(0), "0");
    assert_eq!(decimal_string(1_000_007), "1000007");
}

#[test]
fn meld_breaks_between_melds() {
    let tiles = vec![
        Tile::new(Suit::Manzu, 2, 0),
        Tile::new(Suit::Manzu, 3, 1),
        Tile::new(Suit::Manzu, 4, 2),
        Tile::new(Suit::Wind, 2, 3),
        Tile::new(Suit::Wind, 2, 4),
    ];
    assert_eq!(guide_example_meld_breaks_after(&tiles), vec![false, false, true, false, false]);
    assert_eq!(guide_example_meld_gap_count(&tiles), 1);
    let bad = vec![Tile::new(Suit::Manzu, 2, 0), Tile::new(Suit::Souzu, 3, 1)];
    assert_eq!(guide_example_meld_breaks_after(&bad), vec![false, false]);
    assert_eq!(guide_example_meld_gap_count(&bad), 0);
}

#[test]
fn moon_click_toggles_the_quip() {
    assert_eq!(mahjuro_scenes::main_menu::moon_quip_step(false, &[4, 9], 9), (true, true, Some(SfxId::TileClick)));
    assert_eq!(mahjuro_scenes::main_menu::moon_quip_step(true, &[9], 9), (false, false, Some(SfxId::TileClick)));
    assert_eq!(mahjuro_scenes::main_menu::moon_quip_step(true, &[4], 9), (true, false, None));
}

#[test]
fn exterior_hub_focus_frame() {
    let down = [
        (HubFocus::NewGame, HubFocus::Archive),
        (HubFocus::Archive, HubFocus::Options),
        (HubFocus::Options, HubFocus::Quit),
    ];
    let up = [
        (HubFocus::Quit, HubFocus::Options),
        (HubFocus::Options, HubFocus::Archive),
        (HubFocus::Archive, HubFocus::NewGame),
    ];
    // Continue is not shown: fall back to New Game, then walk down twice.
    let f = exterior_frame(Some(HubFocus::Continue), false, None, false, &[UiAction::FocusDown, UiAction::FocusNext], &up, &down);
    assert_eq!(f.focus, HubFocus::Options);
    assert!(f.focus_moved);
    assert!(!f.activated);
    // Down from the last row stays; Confirm activates.
    let f = exterior_frame(Some(HubFocus::Quit), false, None, false, &[UiAction::FocusDown, UiAction::Confirm], &up, &down);
    assert_eq!(f.focus, HubFocus::Quit);
    assert!(f.activated);
    assert!(!f.focus_moved);
    // Cancel moves to Quit; a click activates the row under the pointer.
    let f = exterior_frame(Some(HubFocus::Archive), false, Some(HubFocus::Options), true, &[UiAction::Cancel, UiAction::Pause], &up, &down);
    assert_eq!(f.focus, HubFocus::Options);
    assert!(f.activated);
    assert_eq!(f.cancel_sounds, 2);
    // Hover alone moves the focus.
    let f = exterior_frame(Some(HubFocus::Archive), false, Some(HubFocus::NewGame), false, &[UiAction::FocusUp], &up, &down);
    assert_eq!(f.focus, HubFocus::NewGame);
}

#[test]
fn west_face_button_deletes_unless_confirming() {
    let mut p = ProfileSelectScene::from_archive_switch_save(0);
    assert_eq!(p.west_face_action(), Some(UiAction::Delete));
    p.confirm_delete = ConfirmDelete::Pending(0);
    assert_eq!(p.west_face_action(), None);
}

#[test]
fn pause_handle_dispatch() {
    let mut p = PauseMenu::new();
    let (h, s) = p.handle(&[UiAction::Confirm], no_overlay(), false, None);
    assert_eq!(h, PauseHandled::NotPaused);
    assert!(s.is_empty());
    assert!(!p.paused);
    let (h, s) = p.handle(&[UiAction::Pause], no_overlay(), false, None);
    assert_eq!(h, PauseHandled::Consumed);
    assert_eq!(s, vec![SfxId::Pause]);
    assert!(p.paused);
    let (h, s) = p.handle(&[], no_overlay(), true, Some(PauseAction::Exit));
    assert_eq!(h, PauseHandled::Quit);
    assert_eq!(s, vec![SfxId::TilePlace, SfxId::UiConfirm]);
    let (h, _) = p.handle(&[], no_overlay(), false, Some(PauseAction::MainMenu));
    assert_eq!(h, PauseHandled::Transition(PauseTarget::MainMenu));
    let (h, s) = p.handle(&[UiAction::Cancel], no_overlay(), false, None);
    assert_eq!(h, PauseHandled::Consumed);
    assert_eq!(s, vec![SfxId::Unpause]);
    assert!(!p.paused);
}

#[test]
fn meld_guide_indicator_and_buttons() {
    let last = meld_total_pages() - 1;
    assert_eq!(page_indicator(0), format!("1 / {}", meld_total_pages()));
    assert_eq!(page_indicator(last), format!("{} / {}", last + 1, last + 1));
    assert_eq!(nav_buttons(0), vec![MELD_BACK, CLICK_NEXT]);
    assert_eq!(nav_buttons(3), vec![CLICK_PREV, MELD_BACK, CLICK_NEXT]);
    assert_eq!(nav_buttons(last), vec![CLICK_PREV, MELD_BACK]);
}

#[test]
fn hallway_play_caption_and_delete_prompt() {
    assert_eq!(play_caption(ChamberKind::Ordeal), "BOSS");
    assert_eq!(play_caption(ChamberKind::Regular), "PLAY");
    assert_eq!(delete_prompt(ConfirmDelete::Idle), None);
    let (head, warn) = delete_prompt(ConfirmDelete::Pending(2)).unwrap();
    assert_eq!(head, "Delete Profile 3?");
    assert_eq!(warn, "All progress will be lost.");
}
