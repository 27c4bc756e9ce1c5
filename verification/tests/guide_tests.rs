use mahjuro_scenes::guide::page_panels::example_structure_yaku;
use mahjuro_scenes::guide::yaku_page::yaku_page;
use mahjuro_scenes::hand::validate_selection;
use mahjuro_scenes::tiles::{Suit, Tile, YakuKind};
use mahjuro_scenes::yaku::detect_yaku_with_wind;

/// Tablet rank of each yaku kind: declaration order.
fn declaration_rank() -> Vec<u32> {
    (0..19).collect()
}

fn tile(suit: Suit, rank: u8, id: u32) -> Tile {
    Tile::new(suit, rank, id)
}

/// Yaku intro page example hands must decompose and score at least one yaku
/// so the bone tablets under each structure are non-empty.
#[test]
fn yaku_intro_examples_score_yaku_for_tablets() {
    let shousangen = vec![
        tile(Suit::Dragon, 1, 0),
        tile(Suit::Dragon, 1, 1),
        tile(Suit::Dragon, 1, 2),
        tile(Suit::Dragon, 2, 3),
        tile(Suit::Dragon, 2, 4),
        tile(Suit::Dragon, 2, 5),
        tile(Suit::Dragon, 3, 6),
        tile(Suit::Dragon, 3, 7),
        tile(Suit::Manzu, 2, 8),
        tile(Suit::Manzu, 3, 9),
        tile(Suit::Manzu, 4, 10),
        tile(Suit::Souzu, 5, 11),
        tile(Suit::Souzu, 5, 12),
        tile(Suit::Souzu, 5, 13),
    ];
    let with_kong = vec![
        tile(Suit::Manzu, 1, 40),
        tile(Suit::Manzu, 1, 41),
        tile(Suit::Manzu, 1, 42),
        tile(Suit::Manzu, 1, 43),
        tile(Suit::Souzu, 4, 44),
        tile(Suit::Souzu, 5, 45),
        tile(Suit::Souzu, 6, 46),
        tile(Suit::Pinzu, 7, 47),
        tile(Suit::Pinzu, 8, 48),
        tile(Suit::Pinzu, 9, 49),
        tile(Suit::Dragon, 1, 50),
        tile(Suit::Dragon, 1, 51),
        tile(Suit::Dragon, 1, 52),
        tile(Suit::Wind, 2, 53),
        tile(Suit::Wind, 2, 54),
    ];
    let chinitsu = vec![
        tile(Suit::Souzu, 2, 60),
        tile(Suit::Souzu, 3, 61),
        tile(Suit::Souzu, 4, 62),
        tile(Suit::Souzu, 4, 63),
        tile(Suit::Souzu, 5, 64),
        tile(Suit::Souzu, 6, 65),
        tile(Suit::Souzu, 6, 66),
        tile(Suit::Souzu, 7, 67),
        tile(Suit::Souzu, 8, 68),
        tile(Suit::Souzu, 5, 69),
        tile(Suit::Souzu, 5, 70),
        tile(Suit::Souzu, 5, 71),
    ];
    for (name, hand) in [
        ("shousangen", &shousangen),
        ("with kong", &with_kong),
        ("chinitsu", &chinitsu),
    ] {
        assert!(
            validate_selection(hand).is_some(),
            "{name}: example hand must decompose"
        );
        let yaku = example_structure_yaku(hand, &declaration_rank());
        assert!(
            !yaku.is_empty(),
            "{name}: expected at least one yaku tablet, got none"
        );
    }
    assert!(example_structure_yaku(&shousangen, &declaration_rank()).contains(&YakuKind::Shousangen));
    assert!(example_structure_yaku(&with_kong, &declaration_rank()).contains(&YakuKind::Yakuhai));
    assert!(example_structure_yaku(&chinitsu, &declaration_rank()).contains(&YakuKind::Chinitsu));
    assert!(example_structure_yaku(&chinitsu, &declaration_rank()).contains(&YakuKind::Tanyao));
    assert!(!example_structure_yaku(&chinitsu, &declaration_rank()).contains(&YakuKind::Shousangen));
}

/// Every `yaku_page()` canonical hand must actually score as its named
/// yaku in the real detector. Chicken Hand is skipped: its canonical
/// example is a partial hand for display.
#[test]
fn every_yaku_page_hand_scores_as_its_yaku() {
    for yk in YakuKind::all() {
        if yk == YakuKind::ChickenHand {
            continue;
        }
        let (_desc, groups) = yaku_page(yk);
        let tiles: Vec<Tile> = groups
            .iter()
            .flat_map(|g| g.tiles.iter().copied())
            .collect();
        let sets = validate_selection(&tiles).unwrap_or_else(|| {
            panic!(
                "{:?}: yaku_page hand failed to decompose into sets: {:?}",
                yk, tiles
            )
        });
        // The Yakuhai example uses a dragon triplet, which counts without a
        // round wind.
        let detected = detect_yaku_with_wind(&sets, None, None);
        assert!(
            detected.contains(&yk),
            "{:?}: canonical hand did not score as {:?}. detected={:?}",
            yk,
            yk,
            detected,
        );
    }
}

#[test]
fn structure_tablets_follow_the_rank_order() {
    let chinitsu: Vec<Tile> = [2, 3, 4, 4, 5, 6, 6, 7, 8, 5, 5, 5]
        .iter()
        .enumerate()
        .map(|(i, &r)| tile(Suit::Souzu, r, 60 + i as u32))
        .collect();
    let forward = example_structure_yaku(&chinitsu, &declaration_rank());
    let tanyao_at = forward.iter().position(|&y| y == YakuKind::Tanyao).unwrap();
    let chinitsu_at = forward.iter().position(|&y| y == YakuKind::Chinitsu).unwrap();
    assert!(tanyao_at < chinitsu_at);
    let reversed: Vec<u32> = (0..19).rev().collect();
    let backward = example_structure_yaku(&chinitsu, &reversed);
    let mut expected = forward.clone();
    expected.reverse();
    assert_eq!(backward, expected);
    assert!(!backward.contains(&YakuKind::ChickenHand));
    assert!(example_structure_yaku(&chinitsu[..1], &reversed).is_empty());
}
