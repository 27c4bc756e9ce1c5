use mahjuro_scenes::hand::{validate_selection, MeldKind};
use mahjuro_scenes::meld_guide::pages::{page_content, yaku_page, yaku_shape_text, MeldGuideTitle};
use mahjuro_scenes::meld_guide::{total_pages, PAGE_FLOWERS, PAGE_KONG, PAGE_PAIR, YAKU_PAGE_START};
use mahjuro_scenes::tiles::{Suit, YakuKind};

#[test]
fn meld_guide_pair_page() {
    let (title, desc, groups) = page_content(PAGE_PAIR);
    assert!(matches!(title, MeldGuideTitle::Text("Pair")));
    assert_eq!(desc, "Two identical tiles. Every complete hand needs exactly one pair.");
    assert_eq!(groups.len(), 1);
    assert_eq!(groups[0].label, "Pair");
    let ranks: Vec<u8> = groups[0].tiles.iter().map(|t| t.rank).collect();
    assert_eq!(ranks, vec![5, 5]);
    assert!(groups[0].tiles.iter().all(|t| t.suit == Suit::Souzu));
}

#[test]
fn meld_guide_kong_and_flower_pages() {
    let (title, _, groups) = page_content(PAGE_KONG);
    assert!(matches!(title, MeldGuideTitle::Text("Kong")));
    assert_eq!(groups[0].tiles.len(), 4);
    let ids: Vec<u32> = groups[0].tiles.iter().map(|t| t.id).collect();
    assert_eq!(ids, vec![0, 1, 2, 3]);

    let (title, _, groups) = page_content(PAGE_FLOWERS);
    assert!(matches!(title, MeldGuideTitle::Text("Flowers (Wildcards)")));
    assert_eq!(groups.len(), 2);
    assert_eq!(groups[1].label, "Flower as Wildcard");
    assert_eq!(groups[1].tiles[1].suit, Suit::Flower);
}

#[test]
fn meld_guide_yaku_page_in_declaration_order() {
    // The first yaku page shows the first yaku kind.
    let (title, desc, groups) = page_content(YAKU_PAGE_START);
    assert!(matches!(title, MeldGuideTitle::YakuName(YakuKind::ChickenHand)));
    assert!(desc.starts_with("A valid hand that triggers no other yaku"));
    assert_eq!(groups.len(), 4);
    assert_eq!(groups[3].label, "Pair");
    // Ids run across the whole hand.
    let ids: Vec<u32> = groups.iter().flat_map(|g| g.tiles.iter().map(|t| t.id)).collect();
    assert_eq!(ids, (0..11).collect::<Vec<u32>>());
}

#[test]
fn meld_guide_yaku_without_example_is_empty() {
    assert!(yaku_page(YakuKind::Shousangen).is_none());
    let (title, desc, groups) = page_content(YAKU_PAGE_START + 3);
    assert!(matches!(title, MeldGuideTitle::YakuName(YakuKind::Shousangen)));
    assert_eq!(desc, "");
    assert!(groups.is_empty());
}

#[test]
fn meld_guide_past_the_end_is_blank() {
    let (title, desc, groups) = page_content(total_pages());
    assert!(matches!(title, MeldGuideTitle::Blank));
    assert_eq!(desc, "");
    assert!(groups.is_empty());
}

#[test]
fn meld_guide_example_hands_split_into_their_melds() {
    let (_, groups) = yaku_page(YakuKind::Tanyao).unwrap();
    for g in &groups {
        let sets = validate_selection(&g.tiles).expect("example meld splits");
        assert_eq!(sets.len(), 1);
        let kind = sets[0].kind;
        match g.label {
            "Seq" => assert_eq!(kind, MeldKind::Sequence),
            "Trip" => assert_eq!(kind, MeldKind::Triplet),
            "Pair" => assert_eq!(kind, MeldKind::Pair),
            other => panic!("unexpected label {other}"),
        }
    }
}

#[test]
fn meld_guide_shape_texts() {
    assert_eq!(
        yaku_shape_text(YakuKind::ChickenHand),
        Some("Valid hand with no yaku \u{2014} scores base chips \u{00d7} 1 mult")
    );
    assert!(yaku_shape_text(YakuKind::Tanyao).unwrap().starts_with("All tiles 2"));
    assert_eq!(yaku_shape_text(YakuKind::KokushiMusou), None);
}
