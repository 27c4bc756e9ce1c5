use mahjuro_scenes::hand::{validate_selection, MeldKind};
use mahjuro_scenes::tiles::{Suit, Tile};

fn t(suit: Suit, rank: u8, id: u32) -> Tile {
    Tile::new(suit, rank, id)
}

fn kinds(tiles: &[Tile]) -> Option<Vec<MeldKind>> {
    validate_selection(tiles).map(|sets| sets.iter().map(|s| s.kind).collect())
}

#[test]
fn empty_selection_is_rejected() {
    assert!(validate_selection(&[]).is_none());
}

#[test]
fn single_tile_never_splits() {
    assert!(validate_selection(&[t(Suit::Manzu, 5, 0)]).is_none());
    assert!(validate_selection(&[t(Suit::Flower, 1, 0)]).is_none());
}

#[test]
fn pair_sequence_triplet_and_kong_split() {
    assert_eq!(kinds(&[t(Suit::Souzu, 5, 0), t(Suit::Souzu, 5, 1)]), Some(vec![MeldKind::Pair]));
    assert_eq!(
        kinds(&[t(Suit::Manzu, 6, 0), t(Suit::Manzu, 4, 1), t(Suit::Manzu, 5, 2)]),
        Some(vec![MeldKind::Sequence])
    );
    assert_eq!(
        kinds(&[t(Suit::Pinzu, 7, 0), t(Suit::Pinzu, 7, 1), t(Suit::Pinzu, 7, 2)]),
        Some(vec![MeldKind::Triplet])
    );
    assert_eq!(
        kinds(&[t(Suit::Wind, 1, 0), t(Suit::Wind, 1, 1), t(Suit::Wind, 1, 2), t(Suit::Wind, 1, 3)]),
        Some(vec![MeldKind::Kong])
    );
}

#[test]
fn honors_never_form_sequences() {
    assert!(validate_selection(&[t(Suit::Wind, 1, 0), t(Suit::Wind, 2, 1), t(Suit::Wind, 3, 2)]).is_none());
    assert!(validate_selection(&[t(Suit::Manzu, 3, 0), t(Suit::Souzu, 4, 1), t(Suit::Pinzu, 5, 2)]).is_none());
}

#[test]
fn flower_never_pairs_with_a_natural_tile() {
    assert!(validate_selection(&[t(Suit::Pinzu, 7, 0), t(Suit::Flower, 1, 1)]).is_none());
    assert!(validate_selection(&[t(Suit::Flower, 1, 0), t(Suit::Pinzu, 7, 1)]).is_none());
}

#[test]
fn flowers_pair_and_triple_among_themselves() {
    assert_eq!(kinds(&[t(Suit::Flower, 1, 0), t(Suit::Flower, 2, 1)]), Some(vec![MeldKind::Pair]));
    assert_eq!(
        kinds(&[t(Suit::Flower, 1, 0), t(Suit::Flower, 3, 1), t(Suit::Flower, 4, 2)]),
        Some(vec![MeldKind::Triplet])
    );
}

#[test]
fn flower_mends_a_triplet_or_a_sequence_gap() {
    assert_eq!(
        kinds(&[t(Suit::Pinzu, 7, 0), t(Suit::Pinzu, 7, 1), t(Suit::Flower, 2, 2)]),
        Some(vec![MeldKind::Triplet])
    );
    assert_eq!(
        kinds(&[t(Suit::Manzu, 4, 0), t(Suit::Flower, 3, 1), t(Suit::Manzu, 6, 2)]),
        Some(vec![MeldKind::Sequence])
    );
    assert_eq!(
        kinds(&[t(Suit::Manzu, 4, 0), t(Suit::Manzu, 5, 1), t(Suit::Flower, 3, 2)]),
        Some(vec![MeldKind::Sequence])
    );
    // Ranks three apart are too far for one flower.
    assert!(validate_selection(&[t(Suit::Manzu, 3, 0), t(Suit::Flower, 1, 1), t(Suit::Manzu, 6, 2)]).is_none());
    // Two flowers do not complete a lone natural tile.
    assert!(validate_selection(&[t(Suit::Manzu, 4, 0), t(Suit::Flower, 2, 1), t(Suit::Flower, 3, 2)]).is_none());
}

#[test]
fn split_covers_every_tile_once_with_matching_ids() {
    let hand = vec![
        t(Suit::Manzu, 2, 10),
        t(Suit::Manzu, 3, 11),
        t(Suit::Manzu, 4, 12),
        t(Suit::Pinzu, 8, 13),
        t(Suit::Pinzu, 8, 14),
        t(Suit::Pinzu, 8, 15),
        t(Suit::Wind, 2, 16),
        t(Suit::Wind, 2, 17),
    ];
    let sets = validate_selection(&hand).expect("hand splits");
    let mut ids: Vec<u32> = sets.iter().flat_map(|s| s.tile_ids.iter().copied()).collect();
    ids.sort();
    assert_eq!(ids, (10..18).collect::<Vec<u32>>());
    for s in &sets {
        let from_tiles: Vec<u32> = s.tiles.iter().map(|x| x.id).collect();
        assert_eq!(from_tiles, s.tile_ids);
    }
    assert_eq!(sets.len(), 3);
}

#[test]
fn a_leftover_tile_rejects_the_whole_selection() {
    let hand = vec![
        t(Suit::Manzu, 2, 0),
        t(Suit::Manzu, 3, 1),
        t(Suit::Manzu, 4, 2),
        t(Suit::Souzu, 9, 3),
    ];
    assert!(validate_selection(&hand).is_none());
}

fn kokushi_hand() -> Vec<Tile> {
    vec![
        t(Suit::Manzu, 1, 0),
        t(Suit::Manzu, 9, 1),
        t(Suit::Souzu, 1, 2),
        t(Suit::Souzu, 9, 3),
        t(Suit::Pinzu, 1, 4),
        t(Suit::Pinzu, 9, 5),
        t(Suit::Wind, 1, 6),
        t(Suit::Wind, 2, 7),
        t(Suit::Wind, 3, 8),
        t(Suit::Wind, 4, 9),
        t(Suit::Dragon, 1, 10),
        t(Suit::Dragon, 2, 11),
        t(Suit::Dragon, 3, 12),
        t(Suit::Dragon, 2, 13),
    ]
}

#[test]
fn kokushi_reads_as_one_pair_and_twelve_singles() {
    let sets = validate_selection(&kokushi_hand()).expect("kokushi splits");
    assert_eq!(sets.len(), 13);
    let pairs: Vec<_> = sets.iter().filter(|s| s.kind == MeldKind::Pair).collect();
    assert_eq!(pairs.len(), 1);
    assert_eq!(pairs[0].tile_ids, vec![11, 13]);
    assert_eq!(sets.iter().filter(|s| s.kind == MeldKind::Single).count(), 12);
    // Sets come in position order: the pair sits where the doubled face first appears.
    assert_eq!(sets[11].kind, MeldKind::Pair);
    assert_eq!(sets[0].tile_ids, vec![0]);
    assert_eq!(sets[12].tile_ids, vec![12]);
}

#[test]
fn kokushi_needs_all_thirteen_faces() {
    let mut hand = kokushi_hand();
    // Replace the lone manzu 9 with a second manzu 1: one face is missing.
    hand[1] = t(Suit::Manzu, 1, 1);
    assert!(validate_selection(&hand).is_none());
    // Thirteen tiles are not enough.
    let short: Vec<Tile> = kokushi_hand().into_iter().take(13).collect();
    assert!(validate_selection(&short).is_none());
}
