//! What each meld-guide page shows: title, description and tile groups —
//! the meld and tile-category pages, then one page per yaku with an example
//! hand where the guide has one.

use vstd::prelude::*;
use crate::guide::content::{TileGroup, t, tile_group};
use crate::guide::pages::group_view;
use crate::guide::yaku_page::{groups_of_rows, meld_groups, row_view, rows_offset, MeldSpec};
use crate::hand::MeldKind;
use crate::tiles::{Suit, Tile, YakuKind};
use super::{PAGE_CATEGORIES, PAGE_FLOWERS, PAGE_KONG, PAGE_PAIR, PAGE_SEQUENCE, PAGE_TRIPLET, YAKU_PAGE_START};

verus! {

/// Title of a meld-guide page: its own text, the name of the yaku it shows,
/// or nothing (a page past the end).
#[derive(Clone, Copy, Debug)]
pub enum MeldGuideTitle {
    Text(&'static str),
    YakuName(YakuKind),
    Blank,
}

pub open spec fn mg_sequence_row(suit: Suit, lo: u8) -> (&'static str, MeldKind, Suit, Seq<u8>) {
    ("Seq", MeldKind::Sequence, suit, seq![lo, (lo + 1) as u8, (lo + 2) as u8])
}

pub open spec fn mg_triplet_row(suit: Suit, rank: u8) -> (&'static str, MeldKind, Suit, Seq<u8>) {
    ("Trip", MeldKind::Triplet, suit, seq![rank, rank, rank])
}

pub open spec fn mg_pair_row(suit: Suit, rank: u8) -> (&'static str, MeldKind, Suit, Seq<u8>) {
    ("Pair", MeldKind::Pair, suit, seq![rank, rank])
}

/// Description and example rows of the yaku the meld guide illustrates.
pub open spec fn mg_yaku_spec(yk: YakuKind) -> Option<(&'static str, Seq<(&'static str, MeldKind, Suit, Seq<u8>)>)> {
    match yk {
        YakuKind::Tanyao => Some(("All tiles ranked 2\u{2013}8 \u{2014} no terminals (1/9) or honors.", seq![mg_sequence_row(Suit::Manzu, 2), mg_sequence_row(Suit::Souzu, 5), mg_triplet_row(Suit::Pinzu, 8), mg_pair_row(Suit::Manzu, 5)])),
        YakuKind::Toitoi => Some(("All melds are triplets or kongs \u{2014} no sequences allowed.", seq![mg_triplet_row(Suit::Manzu, 1), mg_triplet_row(Suit::Souzu, 5), mg_triplet_row(Suit::Pinzu, 9), mg_pair_row(Suit::Wind, 1)])),
        YakuKind::Honroutou => Some(("Every tile is a terminal (1 or 9) or an honor (wind/dragon).", seq![mg_triplet_row(Suit::Manzu, 1), mg_triplet_row(Suit::Souzu, 9), mg_triplet_row(Suit::Wind, 1), mg_pair_row(Suit::Pinzu, 1)])),
        YakuKind::Iipeikou => Some(("Two identical sequences in the same suit.", seq![mg_sequence_row(Suit::Souzu, 1), mg_sequence_row(Suit::Souzu, 1), mg_triplet_row(Suit::Pinzu, 4), mg_pair_row(Suit::Manzu, 9)])),
        YakuKind::Chinitsu => Some(("All tiles from a single number suit, no honors.", seq![mg_sequence_row(Suit::Souzu, 1), mg_sequence_row(Suit::Souzu, 4), mg_triplet_row(Suit::Souzu, 7), mg_pair_row(Suit::Souzu, 9)])),
        YakuKind::SanshokuDoujun => Some(("Same numerical sequence in all three number suits.", seq![mg_sequence_row(Suit::Manzu, 4), mg_sequence_row(Suit::Souzu, 4), mg_sequence_row(Suit::Pinzu, 4), mg_pair_row(Suit::Wind, 1)])),
        YakuKind::Junchan => Some(("Every meld contains a terminal (rank 1 or 9). Pair is also terminal.", seq![mg_sequence_row(Suit::Manzu, 1), mg_sequence_row(Suit::Souzu, 7), mg_triplet_row(Suit::Pinzu, 1), mg_pair_row(Suit::Manzu, 9)])),
        YakuKind::Ittsu => Some(("1\u{2013}9 straight in one suit: three sequences covering 1-2-3, 4-5-6, 7-8-9.", seq![mg_sequence_row(Suit::Souzu, 1), mg_sequence_row(Suit::Souzu, 4), mg_sequence_row(Suit::Souzu, 7), mg_pair_row(Suit::Manzu, 5)])),
        YakuKind::Honitsu => Some(("One number suit plus honors only \u{2014} no other number suits.", seq![mg_sequence_row(Suit::Souzu, 2), mg_sequence_row(Suit::Souzu, 6), mg_triplet_row(Suit::Wind, 1), mg_pair_row(Suit::Souzu, 9)])),
        YakuKind::Yakuhai => Some(("Triplet (or kong) of any dragon, or of the current round wind.", seq![mg_triplet_row(Suit::Dragon, 1), mg_sequence_row(Suit::Manzu, 2), mg_pair_row(Suit::Souzu, 5)])),
        YakuKind::Chiitoitsu => Some(("Seven distinct pairs \u{2014} an alternate hand shape (no melds).", seq![mg_pair_row(Suit::Manzu, 1), mg_pair_row(Suit::Manzu, 3), mg_pair_row(Suit::Souzu, 5), mg_pair_row(Suit::Souzu, 7), mg_pair_row(Suit::Pinzu, 2), mg_pair_row(Suit::Pinzu, 4), mg_pair_row(Suit::Wind, 1)])),
        YakuKind::ChickenHand => Some(("A valid hand that triggers no other yaku \u{2014} scores base chips \u{00d7} 1 mult.", seq![mg_sequence_row(Suit::Manzu, 1), mg_sequence_row(Suit::Souzu, 4), mg_triplet_row(Suit::Pinzu, 3), mg_pair_row(Suit::Wind, 2)])),
        _ => None,
    }
}

fn mg_sequence_row_exec(suit: Suit, lo: u8) -> (r: MeldSpec)
    requires
        lo <= 7,
    ensures
        row_view(r) == mg_sequence_row(suit, lo),
{
    let r = MeldSpec { label: "Seq", kind: MeldKind::Sequence, suit, ranks: vec![lo, lo + 1, lo + 2] };
    assert(r.ranks@ =~= seq![lo, (lo + 1) as u8, (lo + 2) as u8]);
    r
}

fn mg_triplet_row_exec(suit: Suit, rank: u8) -> (r: MeldSpec)
    ensures
        row_view(r) == mg_triplet_row(suit, rank),
{
    let r = MeldSpec { label: "Trip", kind: MeldKind::Triplet, suit, ranks: vec![rank, rank, rank] };
    assert(r.ranks@ =~= seq![rank, rank, rank]);
    r
}

fn mg_pair_row_exec(suit: Suit, rank: u8) -> (r: MeldSpec)
    ensures
        row_view(r) == mg_pair_row(suit, rank),
{
    let r = MeldSpec { label: "Pair", kind: MeldKind::Pair, suit, ranks: vec![rank, rank] };
    assert(r.ranks@ =~= seq![rank, rank]);
    r
}

fn mg_yaku_rows(yk: YakuKind) -> (r: Option<(&'static str, Vec<MeldSpec>)>)
    ensures
        r is Some <==> mg_yaku_spec(yk) is Some,
        r matches Some((d, rows)) ==> mg_yaku_spec(yk) == Some((d, rows@.map_values(|m: MeldSpec| row_view(m)))),
{
    let r = match yk {
        YakuKind::Tanyao => Some(("All tiles ranked 2\u{2013}8 \u{2014} no terminals (1/9) or honors.", vec![mg_sequence_row_exec(Suit::Manzu, 2), mg_sequence_row_exec(Suit::Souzu, 5), mg_triplet_row_exec(Suit::Pinzu, 8), mg_pair_row_exec(Suit::Manzu, 5)])),
        YakuKind::Toitoi => Some(("All melds are triplets or kongs \u{2014} no sequences allowed.", vec![mg_triplet_row_exec(Suit::Manzu, 1), mg_triplet_row_exec(Suit::Souzu, 5), mg_triplet_row_exec(Suit::Pinzu, 9), mg_pair_row_exec(Suit::Wind, 1)])),
        YakuKind::Honroutou => Some(("Every tile is a terminal (1 or 9) or an honor (wind/dragon).", vec![mg_triplet_row_exec(Suit::Manzu, 1), mg_triplet_row_exec(Suit::Souzu, 9), mg_triplet_row_exec(Suit::Wind, 1), mg_pair_row_exec(Suit::Pinzu, 1)])),
        YakuKind::Iipeikou => Some(("Two identical sequences in the same suit.", vec![mg_sequence_row_exec(Suit::Souzu, 1), mg_sequence_row_exec(Suit::Souzu, 1), mg_triplet_row_exec(Suit::Pinzu, 4), mg_pair_row_exec(Suit::Manzu, 9)])),
        YakuKind::Chinitsu => Some(("All tiles from a single number suit, no honors.", vec![mg_sequence_row_exec(Suit::Souzu, 1), mg_sequence_row_exec(Suit::Souzu, 4), mg_triplet_row_exec(Suit::Souzu, 7), mg_pair_row_exec(Suit::Souzu, 9)])),
        YakuKind::SanshokuDoujun => Some(("Same numerical sequence in all three number suits.", vec![mg_sequence_row_exec(Suit::Manzu, 4), mg_sequence_row_exec(Suit::Souzu, 4), mg_sequence_row_exec(Suit::Pinzu, 4), mg_pair_row_exec(Suit::Wind, 1)])),
        YakuKind::Junchan => Some(("Every meld contains a terminal (rank 1 or 9). Pair is also terminal.", vec![mg_sequence_row_exec(Suit::Manzu, 1), mg_sequence_row_exec(Suit::Souzu, 7), mg_triplet_row_exec(Suit::Pinzu, 1), mg_pair_row_exec(Suit::Manzu, 9)])),
        YakuKind::Ittsu => Some(("1\u{2013}9 straight in one suit: three sequences covering 1-2-3, 4-5-6, 7-8-9.", vec![mg_sequence_row_exec(Suit::Souzu, 1), mg_sequence_row_exec(Suit::Souzu, 4), mg_sequence_row_exec(Suit::Souzu, 7), mg_pair_row_exec(Suit::Manzu, 5)])),
        YakuKind::Honitsu => Some(("One number suit plus honors only \u{2014} no other number suits.", vec![mg_sequence_row_exec(Suit::Souzu, 2), mg_sequence_row_exec(Suit::Souzu, 6), mg_triplet_row_exec(Suit::Wind, 1), mg_pair_row_exec(Suit::Souzu, 9)])),
        YakuKind::Yakuhai => Some(("Triplet (or kong) of any dragon, or of the current round wind.", vec![mg_triplet_row_exec(Suit::Dragon, 1), mg_sequence_row_exec(Suit::Manzu, 2), mg_pair_row_exec(Suit::Souzu, 5)])),
        YakuKind::Chiitoitsu => Some(("Seven distinct pairs \u{2014} an alternate hand shape (no melds).", vec![mg_pair_row_exec(Suit::Manzu, 1), mg_pair_row_exec(Suit::Manzu, 3), mg_pair_row_exec(Suit::Souzu, 5), mg_pair_row_exec(Suit::Souzu, 7), mg_pair_row_exec(Suit::Pinzu, 2), mg_pair_row_exec(Suit::Pinzu, 4), mg_pair_row_exec(Suit::Wind, 1)])),
        YakuKind::ChickenHand => Some(("A valid hand that triggers no other yaku \u{2014} scores base chips \u{00d7} 1 mult.", vec![mg_sequence_row_exec(Suit::Manzu, 1), mg_sequence_row_exec(Suit::Souzu, 4), mg_triplet_row_exec(Suit::Pinzu, 3), mg_pair_row_exec(Suit::Wind, 2)])),
        _ => None,
    };
    proof {
        if r is Some {
            assert((r->0).1@.map_values(|m: MeldSpec| row_view(m)) =~= (mg_yaku_spec(yk)->0).1);
        }
    }
    r
}

/// The description and example hand the meld guide shows for a yaku, with
/// tile ids numbered across the hand; `None` for a yaku it has no example
/// for.
pub fn yaku_page(yk: YakuKind) -> (r: Option<(&'static str, Vec<TileGroup>)>)
    ensures
        r is Some <==> mg_yaku_spec(yk) is Some,
        r matches Some((d, groups)) ==> (mg_yaku_spec(yk)->0).0 == d && groups_of_rows((mg_yaku_spec(yk)->0).1, groups@),
{
    match mg_yaku_rows(yk) {
        Some((d, rows)) => {
            proof {
                let rs = rows@.map_values(|m: MeldSpec| row_view(m));
                reveal_with_fuel(rows_offset, 14);
                assert(rows_offset(rs, rs.len() as int) <= 14);
            }
            let groups = meld_groups(rows.as_slice());
            Some((d, groups))
        },
        None => None,
    }
}

/// Short hand-shape text with an example, for the yaku the glossary lists.
pub open spec fn glossary_shape_spec(yk: YakuKind) -> Option<&'static str> {
    match yk {
        YakuKind::Tanyao => Some("All tiles 2\u{2013}8, no honors/terminals (e.g. \u{1f3b4}234 \u{1f38b}567 \u{1f534}88)"),
        YakuKind::Toitoi => Some("All triplets/kongs, no sequences (e.g. \u{1f3b4}222 \u{1f38b}555 \u{1f534}999)"),
        YakuKind::Yakuhai => Some("Triplet of any dragon or round wind (e.g. \u{1f409}\u{1f409}\u{1f409})"),
        YakuKind::Iipeikou => Some("Two identical sequences in one suit (e.g. \u{1f38b}123 \u{1f38b}123)"),
        YakuKind::SanshokuDoujun => Some("Same sequence in all 3 suits (e.g. \u{1f3b4}456 \u{1f38b}456 \u{1f534}456)"),
        YakuKind::Ittsu => Some("1\u{2013}9 straight in one suit (e.g. \u{1f38b}123 \u{1f38b}456 \u{1f38b}789)"),
        YakuKind::Honitsu => Some("One number suit + honors only (e.g. \u{1f38b}234 \u{1f38b}678 \u{1f32c}\u{1f32c}\u{1f32c})"),
        YakuKind::Chinitsu => Some("All one number suit, no honors (e.g. \u{1f38b}123 \u{1f38b}456 \u{1f38b}789 \u{1f38b}11)"),
        YakuKind::Junchan => Some("Every meld has a 1 or 9 (e.g. \u{1f38b}123 \u{1f3b4}789 \u{1f534}111 \u{1f38b}99)"),
        YakuKind::Honroutou => Some("Only 1s, 9s, and honors (e.g. \u{1f38b}111 \u{1f3b4}999 \u{1f32c}\u{1f32c}\u{1f32c})"),
        YakuKind::Chiitoitsu => Some("Seven distinct pairs (e.g. \u{1f3b4}11 \u{1f3b4}33 \u{1f38b}55 \u{1f38b}77 \u{1f534}22 \u{1f534}44 \u{1f32c}\u{1f32c})"),
        YakuKind::ChickenHand => Some("Valid hand with no yaku \u{2014} scores base chips \u{00d7} 1 mult"),
        _ => None,
    }
}

/// Short hand-shape text with an example, for the yaku the glossary lists.
pub fn yaku_shape_text(yk: YakuKind) -> (r: Option<&'static str>)
    ensures
        r == glossary_shape_spec(yk),
{
    match yk {
        YakuKind::Tanyao => Some("All tiles 2\u{2013}8, no honors/terminals (e.g. \u{1f3b4}234 \u{1f38b}567 \u{1f534}88)"),
        YakuKind::Toitoi => Some("All triplets/kongs, no sequences (e.g. \u{1f3b4}222 \u{1f38b}555 \u{1f534}999)"),
        YakuKind::Yakuhai => Some("Triplet of any dragon or round wind (e.g. \u{1f409}\u{1f409}\u{1f409})"),
        YakuKind::Iipeikou => Some("Two identical sequences in one suit (e.g. \u{1f38b}123 \u{1f38b}123)"),
        YakuKind::SanshokuDoujun => Some("Same sequence in all 3 suits (e.g. \u{1f3b4}456 \u{1f38b}456 \u{1f534}456)"),
        YakuKind::Ittsu => Some("1\u{2013}9 straight in one suit (e.g. \u{1f38b}123 \u{1f38b}456 \u{1f38b}789)"),
        YakuKind::Honitsu => Some("One number suit + honors only (e.g. \u{1f38b}234 \u{1f38b}678 \u{1f32c}\u{1f32c}\u{1f32c})"),
        YakuKind::Chinitsu => Some("All one number suit, no honors (e.g. \u{1f38b}123 \u{1f38b}456 \u{1f38b}789 \u{1f38b}11)"),
        YakuKind::Junchan => Some("Every meld has a 1 or 9 (e.g. \u{1f38b}123 \u{1f3b4}789 \u{1f534}111 \u{1f38b}99)"),
        YakuKind::Honroutou => Some("Only 1s, 9s, and honors (e.g. \u{1f38b}111 \u{1f3b4}999 \u{1f32c}\u{1f32c}\u{1f32c})"),
        YakuKind::Chiitoitsu => Some("Seven distinct pairs (e.g. \u{1f3b4}11 \u{1f3b4}33 \u{1f38b}55 \u{1f38b}77 \u{1f534}22 \u{1f534}44 \u{1f32c}\u{1f32c})"),
        YakuKind::ChickenHand => Some("Valid hand with no yaku \u{2014} scores base chips \u{00d7} 1 mult"),
        _ => None,
    }
}

/// Title, description and tile groups of the fixed pages.
pub open spec fn fixed_page_spec(page: usize) -> Option<(&'static str, &'static str, Seq<(&'static str, Option<&'static str>, bool, Seq<Tile>)>)> {
    if page == PAGE_PAIR {
        Some(("Pair", "Two identical tiles. Every complete hand needs exactly one pair.", seq![("Pair", None, false, seq![Tile::new_spec(Suit::Souzu, 5, 0), Tile::new_spec(Suit::Souzu, 5, 1)])]))
    } else if page == PAGE_SEQUENCE {
        Some(("Sequence", "Three consecutive tiles of the same number suit (e.g. 4-5-6). Honors and flowers cannot form sequences.", seq![("Sequence", None, false, seq![Tile::new_spec(Suit::Manzu, 4, 0), Tile::new_spec(Suit::Manzu, 5, 1), Tile::new_spec(Suit::Manzu, 6, 2)])]))
    } else if page == PAGE_TRIPLET {
        Some(("Triplet", "Three identical tiles. Scores 50 chips \u{2014} almost double a sequence's 28.", seq![("Triplet", None, false, seq![Tile::new_spec(Suit::Pinzu, 7, 0), Tile::new_spec(Suit::Pinzu, 7, 1), Tile::new_spec(Suit::Pinzu, 7, 2)])]))
    } else if page == PAGE_KONG {
        Some(("Kong", "Four identical tiles. Counts as a triplet for yaku detection but scores 80 chips.", seq![("Kong", None, false, seq![Tile::new_spec(Suit::Wind, 1, 0), Tile::new_spec(Suit::Wind, 1, 1), Tile::new_spec(Suit::Wind, 1, 2), Tile::new_spec(Suit::Wind, 1, 3)])]))
    } else if page == PAGE_CATEGORIES {
        Some(("Tile Categories", "Number suits have ranks 1\u{2013}9. Rank 1 and 9 are 'terminals.' Winds and Dragons are 'honors.' Many yaku care about these categories.", seq![("Number Suits", None, false, seq![Tile::new_spec(Suit::Manzu, 3, 0), Tile::new_spec(Suit::Souzu, 6, 1), Tile::new_spec(Suit::Pinzu, 8, 2)]), ("Terminals (1 & 9)", None, false, seq![Tile::new_spec(Suit::Manzu, 1, 3), Tile::new_spec(Suit::Souzu, 9, 4)]), ("Honors", None, false, seq![Tile::new_spec(Suit::Wind, 1, 5), Tile::new_spec(Suit::Wind, 3, 6), Tile::new_spec(Suit::Dragon, 1, 7)])]))
    } else if page == PAGE_FLOWERS {
        Some(("Flowers (Wildcards)", "Flower tiles are wildcards. They can form their own melds (any 2 = pair, any 3 = triplet) or substitute for one missing tile in a sequence or triplet.", seq![("Flower Pair", None, false, seq![Tile::new_spec(Suit::Flower, 1, 0), Tile::new_spec(Suit::Flower, 2, 1)]), ("Flower as Wildcard", None, false, seq![Tile::new_spec(Suit::Manzu, 4, 2), Tile::new_spec(Suit::Flower, 3, 3), Tile::new_spec(Suit::Manzu, 6, 4)])]))
    } else {
        None
    }
}

/// A one-tile group's tiles.
fn one(tile: Tile) -> (r: Vec<Tile>)
    ensures
        r@ == seq![tile],
{
    let mut v: Vec<Tile> = Vec::new();
    v.push(tile);
    assert(v@ =~= seq![tile]);
    v
}

fn page_pair_content() -> (r: Vec<TileGroup>)
    ensures
        Some(("Pair", "Two identical tiles. Every complete hand needs exactly one pair.", r@.map_values(|g: TileGroup| group_view(g)))) == fixed_page_spec(PAGE_PAIR),
{
    let r = vec![tile_group("Pair", vec![t(Suit::Souzu, 5, 0), t(Suit::Souzu, 5, 1)])];
    assert(r@.map_values(|g: TileGroup| group_view(g)) =~= (fixed_page_spec(PAGE_PAIR)->0).2);
    r
}

fn page_sequence_content() -> (r: Vec<TileGroup>)
    ensures
        Some(("Sequence", "Three consecutive tiles of the same number suit (e.g. 4-5-6). Honors and flowers cannot form sequences.", r@.map_values(|g: TileGroup| group_view(g)))) == fixed_page_spec(PAGE_SEQUENCE),
{
    let r = vec![tile_group("Sequence", vec![t(Suit::Manzu, 4, 0), t(Suit::Manzu, 5, 1), t(Suit::Manzu, 6, 2)])];
    assert(r@.map_values(|g: TileGroup| group_view(g)) =~= (fixed_page_spec(PAGE_SEQUENCE)->0).2);
    r
}

fn page_triplet_content() -> (r: Vec<TileGroup>)
    ensures
        Some(("Triplet", "Three identical tiles. Scores 50 chips \u{2014} almost double a sequence's 28.", r@.map_values(|g: TileGroup| group_view(g)))) == fixed_page_spec(PAGE_TRIPLET),
{
    let r = vec![tile_group("Triplet", vec![t(Suit::Pinzu, 7, 0), t(Suit::Pinzu, 7, 1), t(Suit::Pinzu, 7, 2)])];
    assert(r@.map_values(|g: TileGroup| group_view(g)) =~= (fixed_page_spec(PAGE_TRIPLET)->0).2);
    r
}

fn page_kong_content() -> (r: Vec<TileGroup>)
    ensures
        Some(("Kong", "Four identical tiles. Counts as a triplet for yaku detection but scores 80 chips.", r@.map_values(|g: TileGroup| group_view(g)))) == fixed_page_spec(PAGE_KONG),
{
    let r = vec![tile_group("Kong", vec![t(Suit::Wind, 1, 0), t(Suit::Wind, 1, 1), t(Suit::Wind, 1, 2), t(Suit::Wind, 1, 3)])];
    assert(r@.map_values(|g: TileGroup| group_view(g)) =~= (fixed_page_spec(PAGE_KONG)->0).2);
    r
}

fn page_categories_content() -> (r: Vec<TileGroup>)
    ensures
        Some(("Tile Categories", "Number suits have ranks 1\u{2013}9. Rank 1 and 9 are 'terminals.' Winds and Dragons are 'honors.' Many yaku care about these categories.", r@.map_values(|g: TileGroup| group_view(g)))) == fixed_page_spec(PAGE_CATEGORIES),
{
    let r = vec![tile_group("Number Suits", vec![t(Suit::Manzu, 3, 0), t(Suit::Souzu, 6, 1), t(Suit::Pinzu, 8, 2)]), tile_group("Terminals (1 & 9)", vec![t(Suit::Manzu, 1, 3), t(Suit::Souzu, 9, 4)]), tile_group("Honors", vec![t(Suit::Wind, 1, 5), t(Suit::Wind, 3, 6), t(Suit::Dragon, 1, 7)])];
    assert(r@.map_values(|g: TileGroup| group_view(g)) =~= (fixed_page_spec(PAGE_CATEGORIES)->0).2);
    r
}

fn page_flowers_content() -> (r: Vec<TileGroup>)
    ensures
        Some(("Flowers (Wildcards)", "Flower tiles are wildcards. They can form their own melds (any 2 = pair, any 3 = triplet) or substitute for one missing tile in a sequence or triplet.", r@.map_values(|g: TileGroup| group_view(g)))) == fixed_page_spec(PAGE_FLOWERS),
{
    let r = vec![tile_group("Flower Pair", vec![t(Suit::Flower, 1, 0), t(Suit::Flower, 2, 1)]), tile_group("Flower as Wildcard", vec![t(Suit::Manzu, 4, 2), t(Suit::Flower, 3, 3), t(Suit::Manzu, 6, 4)])];
    assert(r@.map_values(|g: TileGroup| group_view(g)) =~= (fixed_page_spec(PAGE_FLOWERS)->0).2);
    r
}

/// What a meld-guide page shows: the fixed pages' own content; on a yaku
/// page (one per yaku, in declaration order) the yaku's name with its
/// description and example hand, or no description and no tiles when the
/// guide has no example for it; nothing past the last page.
pub open spec fn page_content_spec(page: usize, title: MeldGuideTitle, desc: &'static str, groups: Seq<TileGroup>) -> bool {
    match fixed_page_spec(page) {
        Some((t0, d0, g0)) => title == MeldGuideTitle::Text(t0) && desc == d0 && groups.map_values(|g: TileGroup| group_view(g)) == g0,
        None => if YAKU_PAGE_START <= page && page - YAKU_PAGE_START < YakuKind::all_spec().len() {
            let yk = YakuKind::all_spec()[page - YAKU_PAGE_START];
            &&& title == MeldGuideTitle::YakuName(yk)
            &&& match mg_yaku_spec(yk) {
                Some((d, rows)) => desc == d && groups_of_rows(rows, groups),
                None => desc@ == ""@ && groups.len() == 0,
            }
        } else {
            title == MeldGuideTitle::Blank && desc@ == ""@ && groups.len() == 0
        },
    }
}

/// Title, description and tile groups of a meld-guide page.
pub fn page_content(page: usize) -> (r: (MeldGuideTitle, &'static str, Vec<TileGroup>))
    ensures
        page_content_spec(page, r.0, r.1, r.2@),
{
    match page {
        PAGE_PAIR => {
            let g = page_pair_content();
            (MeldGuideTitle::Text("Pair"), "Two identical tiles. Every complete hand needs exactly one pair.", g)
        },
        PAGE_SEQUENCE => {
            let g = page_sequence_content();
            (MeldGuideTitle::Text("Sequence"), "Three consecutive tiles of the same number suit (e.g. 4-5-6). Honors and flowers cannot form sequences.", g)
        },
        PAGE_TRIPLET => {
            let g = page_triplet_content();
            (MeldGuideTitle::Text("Triplet"), "Three identical tiles. Scores 50 chips \u{2014} almost double a sequence's 28.", g)
        },
        PAGE_KONG => {
            let g = page_kong_content();
            (MeldGuideTitle::Text("Kong"), "Four identical tiles. Counts as a triplet for yaku detection but scores 80 chips.", g)
        },
        PAGE_CATEGORIES => {
            let g = page_categories_content();
            (MeldGuideTitle::Text("Tile Categories"), "Number suits have ranks 1\u{2013}9. Rank 1 and 9 are 'terminals.' Winds and Dragons are 'honors.' Many yaku care about these categories.", g)
        },
        PAGE_FLOWERS => {
            let g = page_flowers_content();
            (MeldGuideTitle::Text("Flowers (Wildcards)"), "Flower tiles are wildcards. They can form their own melds (any 2 = pair, any 3 = triplet) or substitute for one missing tile in a sequence or triplet.", g)
        },
        _ => {
            let all = YakuKind::all();
            if page >= YAKU_PAGE_START && page - YAKU_PAGE_START < all.len() {
                let yk = all[page - YAKU_PAGE_START];
                match yaku_page(yk) {
                    Some((d, groups)) => (MeldGuideTitle::YakuName(yk), d, groups),
                    None => {
                        let empty = "";
                        proof {
                            reveal_strlit("");
                        }
                        (MeldGuideTitle::YakuName(yk), empty, Vec::new())
                    },
                }
            } else {
                proof {
                    reveal_strlit("");
                }
                (MeldGuideTitle::Blank, "", Vec::new())
            }
        },
    }
}

} // verus!
