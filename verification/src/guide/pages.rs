//! What each guide page shows: its title and its tile groups.

use vstd::prelude::*;
use crate::tiles::{Suit, Tile, YakuKind};
use super::content::{TileGroup, invalid_label, t, tile_group, tile_group_framed, tile_group_with_subtitle, suit_ranks};
use crate::hand::{
    lemma_flower_mends_meld, lemma_one_meld_splits, lemma_single_tile_never_splits, lemma_three_tiles_split_only_as_meld,
    lemma_two_tiles_split_only_as_pair, all_positions, selection_splits,
};
use super::layout::IntroCopy;
use super::{
    guide_chunks, yaku_chunk_for_page, PAGE_ECONOMY, PAGE_FLOWERS, PAGE_MELDS, PAGE_SCORING,
    PAGE_TANUKI_TIPS, PAGE_TILES, PAGE_YAKU, YAKU_PAGE_START,
};

verus! {

/// The title of a guide page: a page's intro copy, the name of the one yaku
/// on a solo yaku page, the shared yaku-reference title, or nothing (a page
/// past the end).
#[derive(Clone, Copy, Debug, PartialEq, Eq, Structural)]
pub enum PageTitle {
    Copy(IntroCopy),
    YakuName(YakuKind),
    YakuReference,
    Blank,
}

/// A tile group as a value: label, subtitle, framed, tiles.
pub open spec fn group_view(g: TileGroup) -> (&'static str, Option<&'static str>, bool, Seq<Tile>) {
    (g.label, g.subtitle, g.framed, g.tiles@)
}

/// The nine tiles of a number suit with ids from `base`.
pub open spec fn ranks_spec(suit: Suit, base: int) -> Seq<Tile> {
    Seq::new(9, |k: int| Tile::new_spec(suit, (k + 1) as u8, (base + k) as u32))
}

/// Title of a guide page, given the yaku the player can see.
pub open spec fn page_title_spec(page: usize, available: Seq<YakuKind>) -> PageTitle {
    if page == PAGE_TILES {
        PageTitle::Copy(IntroCopy::Tiles)
    } else if page == PAGE_MELDS {
        PageTitle::Copy(IntroCopy::Melds)
    } else if page == PAGE_YAKU {
        PageTitle::Copy(IntroCopy::Yaku)
    } else if page == PAGE_FLOWERS {
        PageTitle::Copy(IntroCopy::Flowers)
    } else if page == PAGE_ECONOMY {
        PageTitle::Copy(IntroCopy::Economy)
    } else if page == PAGE_SCORING {
        PageTitle::Copy(IntroCopy::Scoring)
    } else if page == PAGE_TANUKI_TIPS {
        PageTitle::Copy(IntroCopy::TanukiTips)
    } else if YAKU_PAGE_START <= page && page - YAKU_PAGE_START < guide_chunks(available).len() {
        let chunk = guide_chunks(available)[page - YAKU_PAGE_START];
        if chunk.len() == 1 {
            PageTitle::YakuName(chunk[0])
        } else {
            PageTitle::YakuReference
        }
    } else {
        PageTitle::Blank
    }
}

/// Tile groups of a guide page (none on the economy, tips and yaku pages).
pub open spec fn page_groups_spec(page: usize) -> Seq<(&'static str, Option<&'static str>, bool, Seq<Tile>)> {
    if page == PAGE_TILES {
        seq![
            ("Manzu", Some("ranks 1\u{2013}9"), false, ranks_spec(Suit::Manzu, 0)),
            ("Souzu", Some("ranks 1\u{2013}9"), false, ranks_spec(Suit::Souzu, 9)),
            ("Pinzu", Some("ranks 1\u{2013}9"), false, ranks_spec(Suit::Pinzu, 18)),
            ("Winds", None, false, seq![Tile::new_spec(Suit::Wind, 1, 27), Tile::new_spec(Suit::Wind, 2, 28), Tile::new_spec(Suit::Wind, 3, 29), Tile::new_spec(Suit::Wind, 4, 30)]),
            ("Dragons", None, false, seq![Tile::new_spec(Suit::Dragon, 1, 31), Tile::new_spec(Suit::Dragon, 2, 32), Tile::new_spec(Suit::Dragon, 3, 33)]),
            ("Flowers", None, false, seq![Tile::new_spec(Suit::Flower, 1, 34), Tile::new_spec(Suit::Flower, 2, 35), Tile::new_spec(Suit::Flower, 3, 36), Tile::new_spec(Suit::Flower, 4, 37)]),
        ]
    } else if page == PAGE_MELDS {
        seq![
            ("Pair", Some("Two identical tiles"), false, seq![Tile::new_spec(Suit::Souzu, 5, 0), Tile::new_spec(Suit::Souzu, 5, 1)]),
            ("Sequence", Some("One suit \u{b7} numbers only"), false, seq![Tile::new_spec(Suit::Manzu, 4, 2), Tile::new_spec(Suit::Manzu, 5, 3), Tile::new_spec(Suit::Manzu, 6, 4)]),
            ("Triplet", Some("Three of a kind"), false, seq![Tile::new_spec(Suit::Pinzu, 7, 5), Tile::new_spec(Suit::Pinzu, 7, 6), Tile::new_spec(Suit::Pinzu, 7, 7)]),
            ("Kong", Some("Four of a kind"), false, seq![Tile::new_spec(Suit::Wind, 1, 8), Tile::new_spec(Suit::Wind, 1, 9), Tile::new_spec(Suit::Wind, 1, 10), Tile::new_spec(Suit::Wind, 1, 11)]),
            ("Single", Some("One tile"), false, seq![Tile::new_spec(Suit::Manzu, 5, 12)]),
            ("Valid sequence", Some("3-4-5 Manzu"), true, seq![Tile::new_spec(Suit::Manzu, 3, 16), Tile::new_spec(Suit::Manzu, 4, 17), Tile::new_spec(Suit::Manzu, 5, 18)]),
            ("Invalid sequence", Some("3 Manzu / 4 Souzu / 5 Pinzu"), true, seq![Tile::new_spec(Suit::Manzu, 3, 19), Tile::new_spec(Suit::Souzu, 4, 20), Tile::new_spec(Suit::Pinzu, 5, 21)]),
        ]
    } else if page == PAGE_YAKU {
        seq![
            ("4 melds + 1 pair", Some("a high-scoring structure"), false, seq![Tile::new_spec(Suit::Manzu, 2, 20), Tile::new_spec(Suit::Manzu, 3, 21), Tile::new_spec(Suit::Manzu, 4, 22), Tile::new_spec(Suit::Souzu, 5, 23), Tile::new_spec(Suit::Souzu, 6, 24), Tile::new_spec(Suit::Souzu, 7, 25), Tile::new_spec(Suit::Pinzu, 8, 26), Tile::new_spec(Suit::Pinzu, 8, 27), Tile::new_spec(Suit::Pinzu, 8, 28), Tile::new_spec(Suit::Pinzu, 3, 29), Tile::new_spec(Suit::Pinzu, 3, 30), Tile::new_spec(Suit::Pinzu, 3, 31), Tile::new_spec(Suit::Wind, 2, 32), Tile::new_spec(Suit::Wind, 2, 33)]),
            ("With a kong", Some("Kongs fill one meld slot"), false, seq![Tile::new_spec(Suit::Manzu, 1, 40), Tile::new_spec(Suit::Manzu, 1, 41), Tile::new_spec(Suit::Manzu, 1, 42), Tile::new_spec(Suit::Manzu, 1, 43), Tile::new_spec(Suit::Souzu, 4, 44), Tile::new_spec(Suit::Souzu, 5, 45), Tile::new_spec(Suit::Souzu, 6, 46), Tile::new_spec(Suit::Pinzu, 7, 47), Tile::new_spec(Suit::Pinzu, 8, 48), Tile::new_spec(Suit::Pinzu, 9, 49), Tile::new_spec(Suit::Dragon, 1, 50), Tile::new_spec(Suit::Dragon, 1, 51), Tile::new_spec(Suit::Dragon, 1, 52), Tile::new_spec(Suit::Wind, 2, 53), Tile::new_spec(Suit::Wind, 2, 54)]),
            ("Tanyao \u{b7} Chinitsu", Some("one suit, ranks 2\u{2013}8 only"), false, seq![Tile::new_spec(Suit::Souzu, 2, 60), Tile::new_spec(Suit::Souzu, 3, 61), Tile::new_spec(Suit::Souzu, 4, 62), Tile::new_spec(Suit::Souzu, 4, 63), Tile::new_spec(Suit::Souzu, 5, 64), Tile::new_spec(Suit::Souzu, 6, 65), Tile::new_spec(Suit::Souzu, 6, 66), Tile::new_spec(Suit::Souzu, 7, 67), Tile::new_spec(Suit::Souzu, 8, 68), Tile::new_spec(Suit::Souzu, 5, 69), Tile::new_spec(Suit::Souzu, 5, 70), Tile::new_spec(Suit::Souzu, 5, 71)]),
        ]
    } else if page == PAGE_FLOWERS {
        seq![
            ("Sequence", Some("4 \u{b7} Flower \u{b7} 6 Manzu"), false, seq![Tile::new_spec(Suit::Manzu, 4, 3), Tile::new_spec(Suit::Flower, 3, 4), Tile::new_spec(Suit::Manzu, 6, 5)]),
            ("Triplet", Some("Three Flowers"), false, seq![Tile::new_spec(Suit::Flower, 1, 8), Tile::new_spec(Suit::Flower, 3, 9), Tile::new_spec(Suit::Flower, 4, 10)]),
            ("Valid pair", Some("Two Flowers"), true, seq![Tile::new_spec(Suit::Flower, 1, 16), Tile::new_spec(Suit::Flower, 2, 17)]),
            ("Invalid pair", Some("7 Pinzu / Flower"), true, seq![Tile::new_spec(Suit::Pinzu, 7, 11), Tile::new_spec(Suit::Flower, 1, 12)]),
            ("Valid triplet", Some("7 \u{b7} 7 \u{b7} Flower"), true, seq![Tile::new_spec(Suit::Pinzu, 7, 18), Tile::new_spec(Suit::Pinzu, 7, 19), Tile::new_spec(Suit::Flower, 2, 20)]),
            ("Invalid triplet", Some("4 Manzu / Flower / Flower"), true, seq![Tile::new_spec(Suit::Manzu, 4, 13), Tile::new_spec(Suit::Flower, 2, 14), Tile::new_spec(Suit::Flower, 3, 15)]),
        ]
    } else if page == PAGE_SCORING {
        seq![
            ("5-6-7 Pinzu", Some("Selected meld"), false, seq![Tile::new_spec(Suit::Pinzu, 5, 0), Tile::new_spec(Suit::Pinzu, 6, 1), Tile::new_spec(Suit::Pinzu, 7, 2)]),
            ("5 Pinzu", Some("+5 Fu"), false, seq![Tile::new_spec(Suit::Pinzu, 5, 9)]),
            ("Red Dragon", Some("+12 Fu"), false, seq![Tile::new_spec(Suit::Dragon, 1, 10)]),
            ("Flower", Some("+0 Fu"), false, seq![Tile::new_spec(Suit::Flower, 1, 11)]),
            ("Debuffed tile", Some("+0 Fu"), false, seq![Tile { suit: Suit::Pinzu, rank: 1, id: 12, debuffed_visual: true }]),
        ]
    } else {
        seq![]
    }
}

/// A one-tile group's tiles.
fn one(tile: Tile) -> (r: Vec<Tile>)
    ensures
        r@ == seq![tile],
{
    let mut v: Vec<Tile> = Vec::new();
    v.push(tile);
    assert(v@ =~= seq![tile]);
    v
}

fn suit_group(label: &'static str, suit: Suit, base: u32) -> (r: TileGroup)
    requires
        base + 8 <= u32::MAX,
    ensures
        group_view(r) == (label, Some("ranks 1\u{2013}9"), false, ranks_spec(suit, base as int)),
{
    let tiles = suit_ranks(suit, base);
    assert(tiles@ =~= ranks_spec(suit, base as int));
    tile_group_with_subtitle(label, "ranks 1\u{2013}9", tiles)
}

fn page_tiles_groups() -> (r: Vec<TileGroup>)
    ensures
        r@.map_values(|g: TileGroup| group_view(g)) == page_groups_spec(PAGE_TILES),
{
    let r = vec![
        suit_group("Manzu", Suit::Manzu, 0),
        suit_group("Souzu", Suit::Souzu, 9),
        suit_group("Pinzu", Suit::Pinzu, 18),
        tile_group("Winds", vec![t(Suit::Wind, 1, 27), t(Suit::Wind, 2, 28), t(Suit::Wind, 3, 29), t(Suit::Wind, 4, 30)]),
        tile_group("Dragons", vec![t(Suit::Dragon, 1, 31), t(Suit::Dragon, 2, 32), t(Suit::Dragon, 3, 33)]),
        tile_group("Flowers", vec![t(Suit::Flower, 1, 34), t(Suit::Flower, 2, 35), t(Suit::Flower, 3, 36), t(Suit::Flower, 4, 37)]),
    ];
    assert(r@.map_values(|g: TileGroup| group_view(g)) =~= page_groups_spec(PAGE_TILES));
    r
}

fn page_melds_groups() -> (r: Vec<TileGroup>)
    ensures
        r@.map_values(|g: TileGroup| group_view(g)) == page_groups_spec(PAGE_MELDS),
{
    let r = vec![
        tile_group_with_subtitle("Pair", "Two identical tiles", vec![t(Suit::Souzu, 5, 0), t(Suit::Souzu, 5, 1)]),
        tile_group_with_subtitle("Sequence", "One suit \u{b7} numbers only", vec![t(Suit::Manzu, 4, 2), t(Suit::Manzu, 5, 3), t(Suit::Manzu, 6, 4)]),
        tile_group_with_subtitle("Triplet", "Three of a kind", vec![t(Suit::Pinzu, 7, 5), t(Suit::Pinzu, 7, 6), t(Suit::Pinzu, 7, 7)]),
        tile_group_with_subtitle("Kong", "Four of a kind", vec![t(Suit::Wind, 1, 8), t(Suit::Wind, 1, 9), t(Suit::Wind, 1, 10), t(Suit::Wind, 1, 11)]),
        tile_group_with_subtitle("Single", "One tile", one(t(Suit::Manzu, 5, 12))),
        tile_group_framed("Valid sequence", "3-4-5 Manzu", vec![t(Suit::Manzu, 3, 16), t(Suit::Manzu, 4, 17), t(Suit::Manzu, 5, 18)]),
        tile_group_framed("Invalid sequence", "3 Manzu / 4 Souzu / 5 Pinzu", vec![t(Suit::Manzu, 3, 19), t(Suit::Souzu, 4, 20), t(Suit::Pinzu, 5, 21)]),
    ];
    assert(r@.map_values(|g: TileGroup| group_view(g)) =~= page_groups_spec(PAGE_MELDS));
    r
}

fn page_yaku_groups() -> (r: Vec<TileGroup>)
    ensures
        r@.map_values(|g: TileGroup| group_view(g)) == page_groups_spec(PAGE_YAKU),
{
    let r = vec![
        tile_group_with_subtitle("4 melds + 1 pair", "a high-scoring structure", vec![t(Suit::Manzu, 2, 20), t(Suit::Manzu, 3, 21), t(Suit::Manzu, 4, 22), t(Suit::Souzu, 5, 23), t(Suit::Souzu, 6, 24), t(Suit::Souzu, 7, 25), t(Suit::Pinzu, 8, 26), t(Suit::Pinzu, 8, 27), t(Suit::Pinzu, 8, 28), t(Suit::Pinzu, 3, 29), t(Suit::Pinzu, 3, 30), t(Suit::Pinzu, 3, 31), t(Suit::Wind, 2, 32), t(Suit::Wind, 2, 33)]),
        tile_group_with_subtitle("With a kong", "Kongs fill one meld slot", vec![t(Suit::Manzu, 1, 40), t(Suit::Manzu, 1, 41), t(Suit::Manzu, 1, 42), t(Suit::Manzu, 1, 43), t(Suit::Souzu, 4, 44), t(Suit::Souzu, 5, 45), t(Suit::Souzu, 6, 46), t(Suit::Pinzu, 7, 47), t(Suit::Pinzu, 8, 48), t(Suit::Pinzu, 9, 49), t(Suit::Dragon, 1, 50), t(Suit::Dragon, 1, 51), t(Suit::Dragon, 1, 52), t(Suit::Wind, 2, 53), t(Suit::Wind, 2, 54)]),
        tile_group_with_subtitle("Tanyao \u{b7} Chinitsu", "one suit, ranks 2\u{2013}8 only", vec![t(Suit::Souzu, 2, 60), t(Suit::Souzu, 3, 61), t(Suit::Souzu, 4, 62), t(Suit::Souzu, 4, 63), t(Suit::Souzu, 5, 64), t(Suit::Souzu, 6, 65), t(Suit::Souzu, 6, 66), t(Suit::Souzu, 7, 67), t(Suit::Souzu, 8, 68), t(Suit::Souzu, 5, 69), t(Suit::Souzu, 5, 70), t(Suit::Souzu, 5, 71)]),
    ];
    assert(r@.map_values(|g: TileGroup| group_view(g)) =~= page_groups_spec(PAGE_YAKU));
    r
}

fn page_flowers_groups() -> (r: Vec<TileGroup>)
    ensures
        r@.map_values(|g: TileGroup| group_view(g)) == page_groups_spec(PAGE_FLOWERS),
{
    let r = vec![
        tile_group_with_subtitle("Sequence", "4 \u{b7} Flower \u{b7} 6 Manzu", vec![t(Suit::Manzu, 4, 3), t(Suit::Flower, 3, 4), t(Suit::Manzu, 6, 5)]),
        tile_group_with_subtitle("Triplet", "Three Flowers", vec![t(Suit::Flower, 1, 8), t(Suit::Flower, 3, 9), t(Suit::Flower, 4, 10)]),
        tile_group_framed("Valid pair", "Two Flowers", vec![t(Suit::Flower, 1, 16), t(Suit::Flower, 2, 17)]),
        tile_group_framed("Invalid pair", "7 Pinzu / Flower", vec![t(Suit::Pinzu, 7, 11), t(Suit::Flower, 1, 12)]),
        tile_group_framed("Valid triplet", "7 \u{b7} 7 \u{b7} Flower", vec![t(Suit::Pinzu, 7, 18), t(Suit::Pinzu, 7, 19), t(Suit::Flower, 2, 20)]),
        tile_group_framed("Invalid triplet", "4 Manzu / Flower / Flower", vec![t(Suit::Manzu, 4, 13), t(Suit::Flower, 2, 14), t(Suit::Flower, 3, 15)]),
    ];
    assert(r@.map_values(|g: TileGroup| group_view(g)) =~= page_groups_spec(PAGE_FLOWERS));
    r
}

fn page_scoring_groups() -> (r: Vec<TileGroup>)
    ensures
        r@.map_values(|g: TileGroup| group_view(g)) == page_groups_spec(PAGE_SCORING),
{
    let r = vec![
        tile_group_with_subtitle("5-6-7 Pinzu", "Selected meld", vec![t(Suit::Pinzu, 5, 0), t(Suit::Pinzu, 6, 1), t(Suit::Pinzu, 7, 2)]),
        tile_group_with_subtitle("5 Pinzu", "+5 Fu", one(t(Suit::Pinzu, 5, 9))),
        tile_group_with_subtitle("Red Dragon", "+12 Fu", one(t(Suit::Dragon, 1, 10))),
        tile_group_with_subtitle("Flower", "+0 Fu", one(t(Suit::Flower, 1, 11))),
        tile_group_with_subtitle("Debuffed tile", "+0 Fu", one(Tile { suit: Suit::Pinzu, rank: 1, id: 12, debuffed_visual: true })),
    ];
    assert(r@.map_values(|g: TileGroup| group_view(g)) =~= page_groups_spec(PAGE_SCORING));
    r
}

/// Title and tile groups of a guide page, given the yaku the player can see.
pub fn page_content(page: usize, available: &[YakuKind]) -> (r: (PageTitle, Vec<TileGroup>))
    ensures
        r.0 == page_title_spec(page, available@),
        r.1@.map_values(|g: TileGroup| group_view(g)) == page_groups_spec(page),
{
    let groups: Vec<TileGroup> = match page {
        PAGE_TILES => page_tiles_groups(),
        PAGE_MELDS => page_melds_groups(),
        PAGE_YAKU => page_yaku_groups(),
        PAGE_FLOWERS => page_flowers_groups(),
        PAGE_SCORING => page_scoring_groups(),
        _ => Vec::new(),
    };
    assert(groups@.map_values(|g: TileGroup| group_view(g)) =~= page_groups_spec(page));
    let title = match page {
        PAGE_TILES => PageTitle::Copy(IntroCopy::Tiles),
        PAGE_MELDS => PageTitle::Copy(IntroCopy::Melds),
        PAGE_YAKU => PageTitle::Copy(IntroCopy::Yaku),
        PAGE_FLOWERS => PageTitle::Copy(IntroCopy::Flowers),
        PAGE_ECONOMY => PageTitle::Copy(IntroCopy::Economy),
        PAGE_SCORING => PageTitle::Copy(IntroCopy::Scoring),
        PAGE_TANUKI_TIPS => PageTitle::Copy(IntroCopy::TanukiTips),
        _ => match yaku_chunk_for_page(page, available) {
            Some(chunk) => if chunk.len() == 1 {
                PageTitle::YakuName(chunk[0])
            } else {
                PageTitle::YakuReference
            },
            None => PageTitle::Blank,
        },
    };
    (title, groups)
}

proof fn lemma_not_invalid(label: &'static str)
    requires
        label@.len() < 7 || label@[0] != 'I',
    ensures
        !invalid_label(label),
{
    reveal_strlit("Invalid");
    if label@.len() >= 7 {
        assert(label@.subrange(0, 7)[0] != "Invalid"@[0]);
    }
}

/// The melds and flowers pages teach what the validator does: each of
/// their examples splits unless it is the lone tile or an example labelled
/// invalid.
pub proof fn lemma_page_examples_match_validation(page: usize, i: int)
    requires
        page == PAGE_MELDS || page == PAGE_FLOWERS,
        0 <= i < page_groups_spec(page).len(),
    ensures
        selection_splits(page_groups_spec(page)[i].3) <==> !(invalid_label(page_groups_spec(page)[i].0)
            || page_groups_spec(page)[i].0@ == "Single"@),
{
    let g = page_groups_spec(page)[i];
    let ts = g.3;
    reveal_strlit("Invalid");
    reveal_strlit("Single");
    if page == PAGE_MELDS {
        if i == 0 {
            reveal_strlit("Pair");
            lemma_two_tiles_split_only_as_pair(ts);
            lemma_not_invalid(g.0);
        } else if i == 1 {
            reveal_strlit("Sequence");
            lemma_three_tiles_split_only_as_meld(ts);
            lemma_not_invalid(g.0);
        } else if i == 2 {
            reveal_strlit("Triplet");
            lemma_three_tiles_split_only_as_meld(ts);
            lemma_not_invalid(g.0);
        } else if i == 3 {
            reveal_strlit("Kong");
            let q = seq![0int, 1, 2, 3];
            assert(q.to_set() =~= all_positions(4)) by {
                assert(q[0] == 0 && q[1] == 1 && q[2] == 2 && q[3] == 3);
            }
            lemma_one_meld_splits(ts, q);
            lemma_not_invalid(g.0);
        } else if i == 4 {
            reveal_strlit("Single");
            assert(ts =~= seq![ts[0]]);
            lemma_single_tile_never_splits(ts[0]);
            lemma_not_invalid(g.0);
        } else if i == 5 {
            reveal_strlit("Valid sequence");
            lemma_three_tiles_split_only_as_meld(ts);
            lemma_not_invalid(g.0);
        } else {
            reveal_strlit("Invalid sequence");
            lemma_three_tiles_split_only_as_meld(ts);
            assert(g.0@.subrange(0, 7) =~= "Invalid"@);
        }
    } else {
        if i == 0 {
            reveal_strlit("Sequence");
            lemma_three_tiles_split_only_as_meld(ts);
            lemma_not_invalid(g.0);
        } else if i == 1 {
            reveal_strlit("Triplet");
            lemma_three_tiles_split_only_as_meld(ts);
            lemma_not_invalid(g.0);
        } else if i == 2 {
            reveal_strlit("Valid pair");
            lemma_two_tiles_split_only_as_pair(ts);
            lemma_not_invalid(g.0);
        } else if i == 3 {
            reveal_strlit("Invalid pair");
            lemma_two_tiles_split_only_as_pair(ts);
            assert(g.0@.subrange(0, 7) =~= "Invalid"@);
        } else if i == 4 {
            reveal_strlit("Valid triplet");
            assert(ts =~= seq![ts[0], ts[1], ts[2]]);
            lemma_flower_mends_meld(ts[0], ts[1], ts[2]);
            lemma_not_invalid(g.0);
        } else {
            reveal_strlit("Invalid triplet");
            lemma_three_tiles_split_only_as_meld(ts);
            assert(g.0@.subrange(0, 7) =~= "Invalid"@);
        }
    }
}

} // verus!
