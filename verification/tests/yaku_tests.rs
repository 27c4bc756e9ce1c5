use mahjuro_scenes::hand::validate_selection;
use mahjuro_scenes::tiles::{Suit, Tile, YakuKind, YAKU_KIND_COUNT};
use mahjuro_scenes::yaku::detect_yaku_with_wind;

fn hand(spec: &[(Suit, u8)]) -> Vec<Tile> {
    spec.iter().enumerate().map(|(i, &(s, r))| Tile::new(s, r, i as u32)).collect()
}

fn detect(spec: &[(Suit, u8)], round: Option<u8>, bonus: Option<u8>) -> Vec<YakuKind> {
    let tiles = hand(spec);
    let sets = validate_selection(&tiles).expect("hand splits");
    detect_yaku_with_wind(&sets, round, bonus)
}

use Suit::{Dragon as D, Manzu as M, Pinzu as P, Souzu as S, Wind as W};

#[test]
fn kokushi_scores_alone() {
    let y = detect(
        &[(M, 1), (M, 9), (S, 1), (S, 9), (P, 1), (P, 9), (W, 1), (W, 2), (W, 3), (W, 4), (D, 1), (D, 2), (D, 3), (M, 1)],
        None,
        None,
    );
    assert_eq!(y, vec![YakuKind::KokushiMusou]);
}

#[test]
fn full_hand_without_yaku_is_chicken_hand() {
    let y = detect(
        &[(M, 1), (M, 2), (M, 3), (S, 4), (S, 5), (S, 6), (P, 7), (P, 8), (P, 9), (S, 2), (S, 2), (S, 2), (W, 2), (W, 2)],
        None,
        None,
    );
    assert_eq!(y, vec![YakuKind::ChickenHand]);
}

#[test]
fn partial_hand_without_yaku_scores_nothing() {
    let y = detect(&[(M, 1), (M, 2), (M, 3), (S, 4), (S, 5), (S, 6), (W, 2), (W, 2)], None, None);
    assert!(y.is_empty());
}

#[test]
fn wind_triplet_scores_yakuhai_only_for_the_round_winds() {
    let spec = [(W, 1), (W, 1), (W, 1), (M, 2), (M, 3), (M, 4), (S, 5), (S, 5)];
    assert!(!detect(&spec, None, None).contains(&YakuKind::Yakuhai));
    assert_eq!(detect(&spec, Some(1), None), vec![YakuKind::Yakuhai]);
    assert_eq!(detect(&spec, None, Some(1)), vec![YakuKind::Yakuhai]);
    assert_eq!(detect(&spec, Some(1), Some(1)), vec![YakuKind::Yakuhai]);
    assert!(!detect(&spec, Some(2), Some(3)).contains(&YakuKind::Yakuhai));
}

#[test]
fn dragon_triplets_each_score_yakuhai() {
    let y = detect(&[(D, 1), (D, 1), (D, 1), (D, 2), (D, 2), (D, 2), (S, 5), (S, 5)], None, None);
    assert_eq!(y.iter().filter(|&&k| k == YakuKind::Yakuhai).count(), 2);
}

#[test]
fn daisangen_replaces_shousangen_and_dragon_yakuhai() {
    let y = detect(
        &[(D, 1), (D, 1), (D, 1), (D, 2), (D, 2), (D, 2), (D, 3), (D, 3), (D, 3), (M, 4), (M, 5), (M, 6), (P, 8), (P, 8)],
        None,
        None,
    );
    assert!(y.contains(&YakuKind::Daisangen));
    assert!(!y.contains(&YakuKind::Shousangen));
    assert!(!y.contains(&YakuKind::Yakuhai));
}

#[test]
fn ryanpeikou_replaces_iipeikou() {
    let y = detect(
        &[(M, 2), (M, 3), (M, 4), (M, 2), (M, 3), (M, 4), (M, 5), (M, 6), (M, 7), (M, 5), (M, 6), (M, 7), (S, 8), (S, 8)],
        None,
        None,
    );
    assert!(y.contains(&YakuKind::Ryanpeikou));
    assert!(!y.contains(&YakuKind::Iipeikou));
}

#[test]
fn tanyao_pinfu_hand() {
    let y = detect(
        &[(M, 2), (M, 3), (M, 4), (M, 5), (M, 6), (M, 7), (S, 3), (S, 4), (S, 5), (P, 6), (P, 7), (P, 8), (M, 5), (M, 5)],
        None,
        None,
    );
    assert_eq!(y, vec![YakuKind::Tanyao, YakuKind::Pinfu]);
}

#[test]
fn yaku_kinds_are_listed_once_each() {
    let all = YakuKind::all();
    assert_eq!(all.len(), YAKU_KIND_COUNT);
    for (i, a) in all.iter().enumerate() {
        for b in all.iter().skip(i + 1) {
            assert_ne!(a, b);
        }
    }
    assert_eq!(all[0], YakuKind::ChickenHand);
    assert_eq!(all[YAKU_KIND_COUNT - 1], YakuKind::Pinfu);
}
