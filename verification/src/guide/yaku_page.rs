//! The yaku pages' example hands: one meld row per line, turned into tile
//! groups with tile ids numbered across the whole hand.

use vstd::prelude::*;
use crate::hand::MeldKind;
use crate::tiles::{Suit, Tile, YakuKind};
use super::content::{TileGroup, t};
use super::yaku_text::{yaku_shape_spec, yaku_shape_text};

verus! {

/// One meld row of an example hand: label, kind, suit and tile ranks.
pub struct MeldSpec {
    pub label: &'static str,
    pub kind: MeldKind,
    pub suit: Suit,
    pub ranks: Vec<u8>,
}

/// A meld row as a value: label, kind, suit, ranks.
pub open spec fn row_view(m: MeldSpec) -> (&'static str, MeldKind, Suit, Seq<u8>) {
    (m.label, m.kind, m.suit, m.ranks@)
}

pub open spec fn sequence_row(suit: Suit, lo: u8) -> (&'static str, MeldKind, Suit, Seq<u8>) {
    ("Sequence", MeldKind::Sequence, suit, seq![lo, (lo + 1) as u8, (lo + 2) as u8])
}

pub open spec fn triplet_row(suit: Suit, rank: u8) -> (&'static str, MeldKind, Suit, Seq<u8>) {
    ("Triplet", MeldKind::Triplet, suit, seq![rank, rank, rank])
}

pub open spec fn pair_row(suit: Suit, rank: u8) -> (&'static str, MeldKind, Suit, Seq<u8>) {
    ("Pair", MeldKind::Pair, suit, seq![rank, rank])
}

pub open spec fn single_row(suit: Suit, rank: u8) -> (&'static str, MeldKind, Suit, Seq<u8>) {
    ("Single", MeldKind::Single, suit, seq![rank])
}

/// The meld rows of each yaku's example hand.
pub open spec fn yaku_example_rows(yk: YakuKind) -> Seq<(&'static str, MeldKind, Suit, Seq<u8>)> {
    match yk {
        YakuKind::Tanyao => seq![sequence_row(Suit::Manzu, 2), sequence_row(Suit::Souzu, 5), triplet_row(Suit::Pinzu, 8), pair_row(Suit::Manzu, 5)],
        YakuKind::Toitoi => seq![triplet_row(Suit::Manzu, 1), triplet_row(Suit::Souzu, 5), triplet_row(Suit::Pinzu, 9), pair_row(Suit::Wind, 1)],
        YakuKind::Honroutou => seq![triplet_row(Suit::Manzu, 1), triplet_row(Suit::Souzu, 9), triplet_row(Suit::Wind, 1), pair_row(Suit::Pinzu, 1)],
        YakuKind::Iipeikou => seq![sequence_row(Suit::Souzu, 1), sequence_row(Suit::Souzu, 1), triplet_row(Suit::Pinzu, 4), triplet_row(Suit::Manzu, 5), pair_row(Suit::Wind, 1)],
        YakuKind::Shousangen => seq![triplet_row(Suit::Dragon, 1), triplet_row(Suit::Dragon, 2), sequence_row(Suit::Manzu, 4), triplet_row(Suit::Pinzu, 7), pair_row(Suit::Dragon, 3)],
        YakuKind::Daisangen => seq![triplet_row(Suit::Dragon, 1), triplet_row(Suit::Dragon, 2), triplet_row(Suit::Dragon, 3), sequence_row(Suit::Manzu, 4), pair_row(Suit::Pinzu, 8)],
        YakuKind::Chinitsu => seq![sequence_row(Suit::Souzu, 1), sequence_row(Suit::Souzu, 4), triplet_row(Suit::Souzu, 7), pair_row(Suit::Souzu, 9)],
        YakuKind::SanshokuDoujun => seq![sequence_row(Suit::Manzu, 4), sequence_row(Suit::Souzu, 4), sequence_row(Suit::Pinzu, 4), pair_row(Suit::Wind, 1)],
        YakuKind::Junchan => seq![sequence_row(Suit::Manzu, 1), triplet_row(Suit::Manzu, 9), triplet_row(Suit::Pinzu, 1), sequence_row(Suit::Souzu, 7), pair_row(Suit::Pinzu, 9)],
        YakuKind::Ittsu => seq![sequence_row(Suit::Souzu, 1), sequence_row(Suit::Souzu, 4), sequence_row(Suit::Souzu, 7), pair_row(Suit::Manzu, 5)],
        YakuKind::Honitsu => seq![sequence_row(Suit::Souzu, 2), sequence_row(Suit::Souzu, 6), triplet_row(Suit::Wind, 1), pair_row(Suit::Souzu, 9)],
        YakuKind::Yakuhai => seq![triplet_row(Suit::Dragon, 1), sequence_row(Suit::Manzu, 2), pair_row(Suit::Souzu, 5)],
        YakuKind::Chiitoitsu => seq![pair_row(Suit::Manzu, 1), pair_row(Suit::Manzu, 3), pair_row(Suit::Souzu, 5), pair_row(Suit::Souzu, 7), pair_row(Suit::Pinzu, 2), pair_row(Suit::Pinzu, 4), pair_row(Suit::Wind, 1)],
        YakuKind::KokushiMusou => seq![pair_row(Suit::Manzu, 1), single_row(Suit::Manzu, 9), single_row(Suit::Souzu, 1), single_row(Suit::Souzu, 9), single_row(Suit::Pinzu, 1), single_row(Suit::Pinzu, 9), single_row(Suit::Wind, 1), single_row(Suit::Wind, 2), single_row(Suit::Wind, 3), single_row(Suit::Wind, 4), single_row(Suit::Dragon, 1), single_row(Suit::Dragon, 2), single_row(Suit::Dragon, 3)],
        YakuKind::Chanta => seq![sequence_row(Suit::Manzu, 1), sequence_row(Suit::Souzu, 7), triplet_row(Suit::Wind, 1), triplet_row(Suit::Pinzu, 9), pair_row(Suit::Manzu, 1)],
        YakuKind::Ryanpeikou => seq![sequence_row(Suit::Manzu, 2), sequence_row(Suit::Manzu, 2), sequence_row(Suit::Manzu, 5), sequence_row(Suit::Manzu, 5), pair_row(Suit::Souzu, 8)],
        YakuKind::SanshokuDoukou => seq![triplet_row(Suit::Manzu, 4), triplet_row(Suit::Souzu, 4), triplet_row(Suit::Pinzu, 4), sequence_row(Suit::Manzu, 2), pair_row(Suit::Wind, 1)],
        YakuKind::Pinfu => seq![sequence_row(Suit::Manzu, 2), sequence_row(Suit::Manzu, 5), sequence_row(Suit::Souzu, 3), sequence_row(Suit::Pinzu, 6), pair_row(Suit::Manzu, 5)],
        YakuKind::ChickenHand => seq![sequence_row(Suit::Manzu, 1), sequence_row(Suit::Souzu, 4), triplet_row(Suit::Pinzu, 3), pair_row(Suit::Wind, 2)],
    }
}

fn sequence_row_exec(suit: Suit, lo: u8) -> (r: MeldSpec)
    requires
        lo <= 7,
    ensures
        row_view(r) == sequence_row(suit, lo),
{
    let r = MeldSpec { label: "Sequence", kind: MeldKind::Sequence, suit, ranks: vec![lo, lo + 1, lo + 2] };
    assert(r.ranks@ =~= seq![lo, (lo + 1) as u8, (lo + 2) as u8]);
    r
}

fn triplet_row_exec(suit: Suit, rank: u8) -> (r: MeldSpec)
    ensures
        row_view(r) == triplet_row(suit, rank),
{
    let r = MeldSpec { label: "Triplet", kind: MeldKind::Triplet, suit, ranks: vec![rank, rank, rank] };
    assert(r.ranks@ =~= seq![rank, rank, rank]);
    r
}

fn pair_row_exec(suit: Suit, rank: u8) -> (r: MeldSpec)
    ensures
        row_view(r) == pair_row(suit, rank),
{
    let r = MeldSpec { label: "Pair", kind: MeldKind::Pair, suit, ranks: vec![rank, rank] };
    assert(r.ranks@ =~= seq![rank, rank]);
    r
}

fn single_row_exec(suit: Suit, rank: u8) -> (r: MeldSpec)
    ensures
        row_view(r) == single_row(suit, rank),
{
    let r = MeldSpec { label: "Single", kind: MeldKind::Single, suit, ranks: vec![rank] };
    assert(r.ranks@ =~= seq![rank]);
    r
}

/// The meld rows of a yaku's example hand.
pub fn yaku_example_specs(yk: YakuKind) -> (r: Vec<MeldSpec>)
    ensures
        r@.map_values(|m: MeldSpec| row_view(m)) == yaku_example_rows(yk),
{
    let r = match yk {
        YakuKind::Tanyao => vec![sequence_row_exec(Suit::Manzu, 2), sequence_row_exec(Suit::Souzu, 5), triplet_row_exec(Suit::Pinzu, 8), pair_row_exec(Suit::Manzu, 5)],
        YakuKind::Toitoi => vec![triplet_row_exec(Suit::Manzu, 1), triplet_row_exec(Suit::Souzu, 5), triplet_row_exec(Suit::Pinzu, 9), pair_row_exec(Suit::Wind, 1)],
        YakuKind::Honroutou => vec![triplet_row_exec(Suit::Manzu, 1), triplet_row_exec(Suit::Souzu, 9), triplet_row_exec(Suit::Wind, 1), pair_row_exec(Suit::Pinzu, 1)],
        YakuKind::Iipeikou => vec![sequence_row_exec(Suit::Souzu, 1), sequence_row_exec(Suit::Souzu, 1), triplet_row_exec(Suit::Pinzu, 4), triplet_row_exec(Suit::Manzu, 5), pair_row_exec(Suit::Wind, 1)],
        YakuKind::Shousangen => vec![triplet_row_exec(Suit::Dragon, 1), triplet_row_exec(Suit::Dragon, 2), sequence_row_exec(Suit::Manzu, 4), triplet_row_exec(Suit::Pinzu, 7), pair_row_exec(Suit::Dragon, 3)],
        YakuKind::Daisangen => vec![triplet_row_exec(Suit::Dragon, 1), triplet_row_exec(Suit::Dragon, 2), triplet_row_exec(Suit::Dragon, 3), sequence_row_exec(Suit::Manzu, 4), pair_row_exec(Suit::Pinzu, 8)],
        YakuKind::Chinitsu => vec![sequence_row_exec(Suit::Souzu, 1), sequence_row_exec(Suit::Souzu, 4), triplet_row_exec(Suit::Souzu, 7), pair_row_exec(Suit::Souzu, 9)],
        YakuKind::SanshokuDoujun => vec![sequence_row_exec(Suit::Manzu, 4), sequence_row_exec(Suit::Souzu, 4), sequence_row_exec(Suit::Pinzu, 4), pair_row_exec(Suit::Wind, 1)],
        YakuKind::Junchan => vec![sequence_row_exec(Suit::Manzu, 1), triplet_row_exec(Suit::Manzu, 9), triplet_row_exec(Suit::Pinzu, 1), sequence_row_exec(Suit::Souzu, 7), pair_row_exec(Suit::Pinzu, 9)],
        YakuKind::Ittsu => vec![sequence_row_exec(Suit::Souzu, 1), sequence_row_exec(Suit::Souzu, 4), sequence_row_exec(Suit::Souzu, 7), pair_row_exec(Suit::Manzu, 5)],
        YakuKind::Honitsu => vec![sequence_row_exec(Suit::Souzu, 2), sequence_row_exec(Suit::Souzu, 6), triplet_row_exec(Suit::Wind, 1), pair_row_exec(Suit::Souzu, 9)],
        YakuKind::Yakuhai => vec![triplet_row_exec(Suit::Dragon, 1), sequence_row_exec(Suit::Manzu, 2), pair_row_exec(Suit::Souzu, 5)],
        YakuKind::Chiitoitsu => vec![pair_row_exec(Suit::Manzu, 1), pair_row_exec(Suit::Manzu, 3), pair_row_exec(Suit::Souzu, 5), pair_row_exec(Suit::Souzu, 7), pair_row_exec(Suit::Pinzu, 2), pair_row_exec(Suit::Pinzu, 4), pair_row_exec(Suit::Wind, 1)],
        YakuKind::KokushiMusou => vec![pair_row_exec(Suit::Manzu, 1), single_row_exec(Suit::Manzu, 9), single_row_exec(Suit::Souzu, 1), single_row_exec(Suit::Souzu, 9), single_row_exec(Suit::Pinzu, 1), single_row_exec(Suit::Pinzu, 9), single_row_exec(Suit::Wind, 1), single_row_exec(Suit::Wind, 2), single_row_exec(Suit::Wind, 3), single_row_exec(Suit::Wind, 4), single_row_exec(Suit::Dragon, 1), single_row_exec(Suit::Dragon, 2), single_row_exec(Suit::Dragon, 3)],
        YakuKind::Chanta => vec![sequence_row_exec(Suit::Manzu, 1), sequence_row_exec(Suit::Souzu, 7), triplet_row_exec(Suit::Wind, 1), triplet_row_exec(Suit::Pinzu, 9), pair_row_exec(Suit::Manzu, 1)],
        YakuKind::Ryanpeikou => vec![sequence_row_exec(Suit::Manzu, 2), sequence_row_exec(Suit::Manzu, 2), sequence_row_exec(Suit::Manzu, 5), sequence_row_exec(Suit::Manzu, 5), pair_row_exec(Suit::Souzu, 8)],
        YakuKind::SanshokuDoukou => vec![triplet_row_exec(Suit::Manzu, 4), triplet_row_exec(Suit::Souzu, 4), triplet_row_exec(Suit::Pinzu, 4), sequence_row_exec(Suit::Manzu, 2), pair_row_exec(Suit::Wind, 1)],
        YakuKind::Pinfu => vec![sequence_row_exec(Suit::Manzu, 2), sequence_row_exec(Suit::Manzu, 5), sequence_row_exec(Suit::Souzu, 3), sequence_row_exec(Suit::Pinzu, 6), pair_row_exec(Suit::Manzu, 5)],
        YakuKind::ChickenHand => vec![sequence_row_exec(Suit::Manzu, 1), sequence_row_exec(Suit::Souzu, 4), triplet_row_exec(Suit::Pinzu, 3), pair_row_exec(Suit::Wind, 2)],
    };
    assert(r@.map_values(|m: MeldSpec| row_view(m)) =~= yaku_example_rows(yk));
    r
}

/// Number of tiles in the first `g` rows.
pub open spec fn rows_offset(rows: Seq<(&'static str, MeldKind, Suit, Seq<u8>)>, g: int) -> int
    decreases g,
{
    if g <= 0 {
        0
    } else {
        rows_offset(rows, g - 1) + rows[g - 1].3.len()
    }
}

/// The tiles of one row: its suit and ranks, with ids from `base` up.
pub open spec fn row_tiles(suit: Suit, ranks: Seq<u8>, base: int) -> Seq<Tile> {
    Seq::new(ranks.len(), |k: int| Tile::new_spec(suit, ranks[k], (base + k) as u32))
}

/// `groups` shows the rows in order: each group has its row's label, no
/// subtitle, no frame, and its row's tiles with ids numbered on from the
/// rows before it.
pub open spec fn groups_of_rows(rows: Seq<(&'static str, MeldKind, Suit, Seq<u8>)>, groups: Seq<TileGroup>) -> bool {
    &&& groups.len() == rows.len()
    &&& forall|g: int| 0 <= g < rows.len() ==> {
        &&& (#[trigger] groups[g]).label == rows[g].0
        &&& groups[g].subtitle is None
        &&& !groups[g].framed
        &&& groups[g].tiles@ == row_tiles(rows[g].2, rows[g].3, rows_offset(rows, g))
    }
}

proof fn lemma_rows_offset_mono(rows: Seq<(&'static str, MeldKind, Suit, Seq<u8>)>, a: int, b: int)
    requires
        0 <= a <= b,
    ensures
        rows_offset(rows, a) <= rows_offset(rows, b),
        a < b ==> rows_offset(rows, a) + rows[a].3.len() <= rows_offset(rows, b),
    decreases b - a,
{
    if a < b {
        lemma_rows_offset_mono(rows, a, b - 1);
    }
}

/// Build tile groups from meld rows, numbering tile ids 0, 1, 2, … across
/// all groups so the renderer treats each tile as unique.
pub fn meld_groups(specs: &[MeldSpec]) -> (r: Vec<TileGroup>)
    requires
        rows_offset(specs@.map_values(|m: MeldSpec| row_view(m)), specs@.len() as int) <= u32::MAX,
    ensures
        groups_of_rows(specs@.map_values(|m: MeldSpec| row_view(m)), r@),
{
    let ghost rows = specs@.map_values(|m: MeldSpec| row_view(m));
    let mut out: Vec<TileGroup> = Vec::new();
    let mut id_counter: u32 = 0;
    let mut g: usize = 0;
    while g < specs.len()
        invariant
            g <= specs.len(),
            rows == specs@.map_values(|m: MeldSpec| row_view(m)),
            rows_offset(rows, specs@.len() as int) <= u32::MAX,
            id_counter == rows_offset(rows, g as int),
            out@.len() == g,
            forall|h: int| 0 <= h < g ==> {
                &&& (#[trigger] out@[h]).label == rows[h].0
                &&& out@[h].subtitle is None
                &&& !out@[h].framed
                &&& out@[h].tiles@ == row_tiles(rows[h].2, rows[h].3, rows_offset(rows, h))
            },
        decreases specs.len() - g,
    {
        let spec = &specs[g];
        let ghost base = id_counter as int;
        proof {
            lemma_rows_offset_mono(rows, g as int + 1, specs@.len() as int);
            assert(rows[g as int] == row_view(*spec));
        }
        let mut tiles: Vec<Tile> = Vec::new();
        let mut k: usize = 0;
        while k < spec.ranks.len()
            invariant
                k <= spec.ranks.len(),
                id_counter == base + k,
                base + spec.ranks@.len() <= u32::MAX,
                tiles@ == row_tiles(spec.suit, spec.ranks@, base).take(k as int),
            decreases spec.ranks.len() - k,
        {
            tiles.push(t(spec.suit, spec.ranks[k], id_counter));
            id_counter += 1;
            assert(tiles@ =~= row_tiles(spec.suit, spec.ranks@, base).take(k + 1));
            k += 1;
        }
        assert(tiles@ =~= row_tiles(spec.suit, spec.ranks@, base));
        out.push(TileGroup { label: spec.label, tiles, subtitle: None, framed: false });
        g += 1;
    }
    out
}

/// Distinct tiles of the built groups carry distinct ids.
pub proof fn lemma_meld_groups_ids_unique(
    rows: Seq<(&'static str, MeldKind, Suit, Seq<u8>)>,
    groups: Seq<TileGroup>,
    g1: int,
    k1: int,
    g2: int,
    k2: int,
)
    requires
        groups_of_rows(rows, groups),
        rows_offset(rows, rows.len() as int) <= u32::MAX,
        0 <= g1 < groups.len(),
        0 <= g2 < groups.len(),
        0 <= k1 < groups[g1].tiles@.len(),
        0 <= k2 < groups[g2].tiles@.len(),
        g1 != g2 || k1 != k2,
    ensures
        groups[g1].tiles@[k1].id != groups[g2].tiles@[k2].id,
{
    let _ = groups[g1];
    let _ = groups[g2];
    let o1 = rows_offset(rows, g1);
    let o2 = rows_offset(rows, g2);
    lemma_rows_offset_mono(rows, 0, g1);
    lemma_rows_offset_mono(rows, 0, g2);
    assert(rows_offset(rows, g1 + 1) == o1 + rows[g1].3.len());
    assert(rows_offset(rows, g2 + 1) == o2 + rows[g2].3.len());
    assert(groups[g1].tiles@[k1].id == (o1 + k1) as u32);
    assert(groups[g2].tiles@[k2].id == (o2 + k2) as u32);
    lemma_rows_offset_mono(rows, g1 + 1, rows.len() as int);
    lemma_rows_offset_mono(rows, g2 + 1, rows.len() as int);
    if g1 < g2 {
        lemma_rows_offset_mono(rows, g1, g2);
    } else if g2 < g1 {
        lemma_rows_offset_mono(rows, g2, g1);
    }
}

/// The example hand of a yaku, with its rule text ([`yaku_shape_text`]).
pub fn yaku_page(yk: YakuKind) -> (r: (&'static str, Vec<TileGroup>))
    ensures
        r.0 == yaku_shape_spec(yk),
        groups_of_rows(yaku_example_rows(yk), r.1@),
{
    let rule = yaku_shape_text(yk);
    let specs = yaku_example_specs(yk);
    proof {
        let rows = yaku_example_rows(yk);
        reveal_with_fuel(rows_offset, 14);
        assert(rows_offset(rows, rows.len() as int) <= 14);
    }
    let groups = meld_groups(specs.as_slice());
    (rule, groups)
}

} // verus!
