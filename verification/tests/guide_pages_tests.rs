use mahjuro_scenes::guide::content::{guide_example_is_invalid, page_graffiti};
use mahjuro_scenes::guide::layout::IntroCopy;
use mahjuro_scenes::guide::pages::{page_content, PageTitle};
use mahjuro_scenes::guide::yaku_page::{meld_groups, yaku_example_specs, yaku_page, MeldSpec};
use mahjuro_scenes::guide::yaku_text::yaku_shape_text;
use mahjuro_scenes::guide::{
    PAGE_ECONOMY, PAGE_FLOWERS, PAGE_MELDS, PAGE_SCORING, PAGE_TANUKI_TIPS, PAGE_TILES, PAGE_YAKU, YAKU_PAGE_START,
};
use mahjuro_scenes::hand::{validate_selection, MeldKind};
use mahjuro_scenes::tiles::{Suit, YakuKind};

#[test]
fn fixed_pages_take_their_intro_titles() {
    let none: Vec<YakuKind> = vec![];
    assert_eq!(page_content(PAGE_TILES, &none).0, PageTitle::Copy(IntroCopy::Tiles));
    assert_eq!(page_content(PAGE_MELDS, &none).0, PageTitle::Copy(IntroCopy::Melds));
    assert_eq!(page_content(PAGE_YAKU, &none).0, PageTitle::Copy(IntroCopy::Yaku));
    assert_eq!(page_content(PAGE_FLOWERS, &none).0, PageTitle::Copy(IntroCopy::Flowers));
    assert_eq!(page_content(PAGE_SCORING, &none).0, PageTitle::Copy(IntroCopy::Scoring));
    assert_eq!(page_content(PAGE_ECONOMY, &none).0, PageTitle::Copy(IntroCopy::Economy));
    assert_eq!(page_content(PAGE_TANUKI_TIPS, &none).0, PageTitle::Copy(IntroCopy::TanukiTips));
    assert!(page_content(PAGE_ECONOMY, &none).1.is_empty());
    assert!(page_content(PAGE_TANUKI_TIPS, &none).1.is_empty());
}

#[test]
fn yaku_pages_are_titled_by_their_chunk() {
    let available = vec![YakuKind::Tanyao, YakuKind::Toitoi, YakuKind::Chiitoitsu, YakuKind::Pinfu];
    // Chunks: [Tanyao, Toitoi], [Chiitoitsu], [Pinfu].
    assert_eq!(page_content(YAKU_PAGE_START, &available).0, PageTitle::YakuReference);
    assert_eq!(page_content(YAKU_PAGE_START + 1, &available).0, PageTitle::YakuName(YakuKind::Chiitoitsu));
    assert_eq!(page_content(YAKU_PAGE_START + 2, &available).0, PageTitle::YakuName(YakuKind::Pinfu));
    assert_eq!(page_content(YAKU_PAGE_START + 3, &available).0, PageTitle::Blank);
    assert!(page_content(YAKU_PAGE_START, &available).1.is_empty());
}

#[test]
fn tiles_page_shows_every_face_once() {
    let (_, groups) = page_content(PAGE_TILES, &[]);
    let labels: Vec<&str> = groups.iter().map(|g| g.label).collect();
    assert_eq!(labels, vec!["Manzu", "Souzu", "Pinzu", "Winds", "Dragons", "Flowers"]);
    let counts: Vec<usize> = groups.iter().map(|g| g.tiles.len()).collect();
    assert_eq!(counts, vec![9, 9, 9, 4, 3, 4]);
    let ids: Vec<u32> = groups.iter().flat_map(|g| g.tiles.iter().map(|t| t.id)).collect();
    assert_eq!(ids, (0..38).collect::<Vec<u32>>());
    assert_eq!(groups[1].tiles[4].rank, 5);
    assert_eq!(groups[1].tiles[4].suit, Suit::Souzu);
    assert_eq!(groups[0].subtitle, Some("ranks 1\u{2013}9"));
    assert_eq!(groups[3].subtitle, None);
}

#[test]
fn melds_and_flowers_examples_match_the_validator() {
    for page in [PAGE_MELDS, PAGE_FLOWERS] {
        let (_, groups) = page_content(page, &[]);
        for g in &groups {
            let splits = validate_selection(&g.tiles).is_some();
            let expected = !(guide_example_is_invalid(g) || g.label == "Single");
            assert_eq!(splits, expected, "{}", g.label);
        }
    }
}

#[test]
fn framed_examples_are_the_valid_invalid_pairs() {
    let (_, groups) = page_content(PAGE_FLOWERS, &[]);
    let framed: Vec<&str> = groups.iter().filter(|g| g.framed).map(|g| g.label).collect();
    assert_eq!(framed, vec!["Valid pair", "Invalid pair", "Valid triplet", "Invalid triplet"]);
    let invalid: Vec<bool> = groups.iter().map(|g| guide_example_is_invalid(g)).collect();
    assert_eq!(invalid, vec![false, false, false, true, false, true]);
}

#[test]
fn scoring_page_shows_a_debuffed_tile() {
    let (_, groups) = page_content(PAGE_SCORING, &[]);
    assert_eq!(groups.len(), 5);
    assert!(groups[4].tiles[0].debuffed_visual);
    assert!(groups[..4].iter().all(|g| g.tiles.iter().all(|t| !t.debuffed_visual)));
    assert_eq!(groups[2].subtitle, Some("+12 Fu"));
}

#[test]
fn meld_groups_number_tile_ids_across_groups() {
    let specs = vec![
        MeldSpec { label: "Sequence", kind: MeldKind::Sequence, suit: Suit::Manzu, ranks: vec![1, 2, 3] },
        MeldSpec { label: "Pair", kind: MeldKind::Pair, suit: Suit::Wind, ranks: vec![2, 2] },
        MeldSpec { label: "Single", kind: MeldKind::Single, suit: Suit::Dragon, ranks: vec![3] },
    ];
    let groups = meld_groups(&specs);
    assert_eq!(groups.len(), 3);
    let ids: Vec<Vec<u32>> = groups.iter().map(|g| g.tiles.iter().map(|t| t.id).collect()).collect();
    assert_eq!(ids, vec![vec![0, 1, 2], vec![3, 4], vec![5]]);
    assert_eq!(groups[1].label, "Pair");
    assert_eq!(groups[2].tiles[0].suit, Suit::Dragon);
    assert_eq!(groups[2].tiles[0].rank, 3);
    assert!(groups.iter().all(|g| g.subtitle.is_none() && !g.framed));
}

#[test]
fn yaku_page_pairs_the_rule_with_the_example_hand() {
    let (rule, groups) = yaku_page(YakuKind::Chiitoitsu);
    assert_eq!(rule, yaku_shape_text(YakuKind::Chiitoitsu));
    assert_eq!(groups.len(), 7);
    assert!(groups.iter().all(|g| g.label == "Pair" && g.tiles.len() == 2));
    let (_, kokushi) = yaku_page(YakuKind::KokushiMusou);
    assert_eq!(kokushi.len(), 13);
    assert_eq!(kokushi.iter().map(|g| g.tiles.len()).sum::<usize>(), 14);
    assert_eq!(yaku_example_specs(YakuKind::Yakuhai).len(), 3);
}

#[test]
fn graffiti_only_on_melds_and_flowers_pages() {
    assert!(page_graffiti(PAGE_MELDS).unwrap().starts_with("\"What use is a single tile?"));
    assert!(page_graffiti(PAGE_FLOWERS).unwrap().contains("never weds a stranger as a pair"));
    assert_eq!(page_graffiti(PAGE_TILES), None);
    assert_eq!(page_graffiti(PAGE_SCORING), None);
}
