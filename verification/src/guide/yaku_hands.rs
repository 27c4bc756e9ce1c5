//! The yaku pages' example hands split into their rows and score their
//! yaku: the search takes each row as a meld in turn, and the rows' faces
//! meet the yaku's condition.

use vstd::prelude::*;
use crate::hand::{
    clear_spec, duo, duos_from, first_set, group_kind, in_mask, quad, quads_from, search_spec, tri, tris_from,
    try_spec, is_flower, is_number_suit, same_face,
};
use crate::hand::{
    decomposable, increasing, is_meld_partition, lemma_partition_exact, lemma_partition_groups_ok, all_positions, full_mask, is_kokushi, kokushi_pair, lemma_orphan_index_face, lemma_search_sound, mask_set,
    kokushi_groups, orphan_index, selection_groups, shows_face, MeldKind,
};
use crate::kokushi::{lemma_kokushi_not_melds, lemma_kokushi_reading_groups};
use super::content::TileGroup;
use crate::tiles::{Suit, Tile, YakuKind};
use crate::yaku::{detected_spec, group_faces, MeldFace};
use super::yaku_page::{groups_of_rows, row_tiles, rows_offset, yaku_example_rows};

verus! {

/// Positions from `f` on still to place.
pub open spec fn suffix_mask(n: nat, f: int) -> Seq<bool> {
    Seq::new(n, |p: int| p >= f)
}

/// The `len` consecutive positions from `f`.
pub open spec fn run(f: int, len: int) -> Seq<int> {
    Seq::new(len as nat, |i: int| f + i)
}

/// Consecutive runs of the given lengths from `f` on.
pub open spec fn runs_from(f: int, lens: Seq<int>) -> Seq<Seq<int>>
    decreases lens.len(),
{
    if lens.len() == 0 {
        Seq::empty()
    } else {
        seq![run(f, lens[0])] + runs_from(f + lens[0], lens.drop_first())
    }
}

/// No kong starts at `f`.
pub open spec fn no_quad_from(tiles: Seq<Tile>, f: int) -> bool {
    forall|j: int, k: int, l: int|
        f < j < k < l < tiles.len() ==> #[trigger] group_kind(tiles, quad(f, j, k, l)) is None
}

/// No kong from `f` leaves a rest that splits.
pub open spec fn quads_fail(tiles: Seq<Tile>, f: int) -> bool {
    forall|j: int, k: int, l: int|
        f < j < k < l < tiles.len() ==> #[trigger] try_spec(tiles, suffix_mask(tiles.len(), f), quad(f, j, k, l)) is None
}

/// No triplet or sequence starts at `f`.
pub open spec fn no_tri_from(tiles: Seq<Tile>, f: int) -> bool {
    forall|j: int, k: int| f < j < k < tiles.len() ==> #[trigger] group_kind(tiles, tri(f, j, k)) is None
}

/// The rows of lengths `lens` from `f` on are melds the search takes in
/// turn: a three-tile row where no kong starts, a pair where neither a
/// kong nor a three-tile meld starts.
pub open spec fn greedy_rows(tiles: Seq<Tile>, f: int, lens: Seq<int>) -> bool
    decreases lens.len(),
{
    if lens.len() == 0 {
        f == tiles.len()
    } else {
        let len = lens[0];
        &&& len == 2 || len == 3
        &&& f + len <= tiles.len()
        &&& group_kind(tiles, run(f, len)) is Some
        &&& quads_fail(tiles, f)
        &&& (len == 2 ==> no_tri_from(tiles, f))
        &&& greedy_rows(tiles, f + len, lens.drop_first())
    }
}

proof fn lemma_first_of_suffix(n: nat, f: int, i: int)
    requires
        0 <= i <= f,
    ensures
        first_set(suffix_mask(n, f), i) == if f < n { f } else { n as int },
    decreases f - i,
{
    if i < f && i < n {
        lemma_first_of_suffix(n, f, i + 1);
    }
}

proof fn lemma_quads_fail(tiles: Seq<Tile>, mask: Seq<bool>, f: int, j: int, k: int, l: int)
    requires
        mask == suffix_mask(tiles.len(), f),
        f < j < k < l,
        quads_fail(tiles, f),
    ensures
        quads_from(tiles, mask, f, j, k, l) == tris_from(tiles, mask, f, f + 1, f + 2),
    decreases mask.len() - j, mask.len() - k, mask.len() - l,
{
    let n = mask.len() as int;
    if j >= n {
    } else if k >= n {
        lemma_quads_fail(tiles, mask, f, j + 1, j + 2, j + 3);
    } else if l >= n {
        lemma_quads_fail(tiles, mask, f, j, k + 1, k + 2);
    } else {
        assert(try_spec(tiles, mask, quad(f, j, k, l)) is None);
        lemma_quads_fail(tiles, mask, f, j, k, l + 1);
    }
}

proof fn lemma_tris_fail(tiles: Seq<Tile>, mask: Seq<bool>, f: int, j: int, k: int)
    requires
        mask.len() == tiles.len(),
        f < j < k,
        no_tri_from(tiles, f),
    ensures
        tris_from(tiles, mask, f, j, k) == duos_from(tiles, mask, f, f + 1),
    decreases mask.len() - j, mask.len() - k,
{
    let n = mask.len() as int;
    if j >= n {
    } else if k >= n {
        lemma_tris_fail(tiles, mask, f, j + 1, j + 2);
    } else {
        assert(group_kind(tiles, tri(f, j, k)) is None);
        assert(try_spec(tiles, mask, tri(f, j, k)) is None);
        lemma_tris_fail(tiles, mask, f, j, k + 1);
    }
}

proof fn lemma_take_run(tiles: Seq<Tile>, f: int, len: int, rest: Seq<Seq<int>>)
    requires
        0 <= f,
        len == 2 || len == 3,
        f + len <= tiles.len(),
        group_kind(tiles, run(f, len)) is Some,
        search_spec(tiles, suffix_mask(tiles.len(), f + len)) == Some(rest),
    ensures
        try_spec(tiles, suffix_mask(tiles.len(), f), run(f, len)) == Some(seq![run(f, len)] + rest),
{
    let n = tiles.len();
    let mask = suffix_mask(n, f);
    let g = run(f, len);
    assert(in_mask(mask, g));
    assert forall|p: int| 0 <= p < n implies clear_spec(mask, g)[p] == suffix_mask(n, f + len)[p] by {
        if f <= p < f + len {
            assert(g[p - f] == p);
        }
    }
    assert(clear_spec(mask, g) =~= suffix_mask(n, f + len));
}

/// Rows the search takes in turn are the split it returns.
pub proof fn lemma_greedy_rows(tiles: Seq<Tile>, f: int, lens: Seq<int>)
    requires
        0 <= f,
        greedy_rows(tiles, f, lens),
    ensures
        search_spec(tiles, suffix_mask(tiles.len(), f)) == Some(runs_from(f, lens)),
    decreases lens.len(),
{
    let n = tiles.len();
    let mask = suffix_mask(n, f);
    lemma_first_of_suffix(n, f, 0);
    if lens.len() == 0 {
        assert(runs_from(f, lens) =~= Seq::<Seq<int>>::empty());
    } else {
        let len = lens[0];
        lemma_greedy_rows(tiles, f + len, lens.drop_first());
        let rest = runs_from(f + len, lens.drop_first());
        lemma_take_run(tiles, f, len, rest);
        lemma_quads_fail(tiles, mask, f, f + 1, f + 2, f + 3);
        if len == 3 {
            assert(run(f, 3) =~= tri(f, f + 1, f + 2));
        } else {
            lemma_tris_fail(tiles, mask, f, f + 1, f + 2);
            assert(run(f, 2) =~= duo(f, f + 1));
        }
    }
}

/// Number of tiles from position `from` on that have the property.
pub open spec fn count_from(tiles: Seq<Tile>, pred: spec_fn(Tile) -> bool, from: int) -> nat
    decreases tiles.len() - from,
{
    if from < 0 || from >= tiles.len() {
        0
    } else {
        (if pred(tiles[from]) { 1nat } else { 0nat }) + count_from(tiles, pred, from + 1)
    }
}

/// A natural tile of the face of `a`.
pub open spec fn face_of(a: Tile) -> spec_fn(Tile) -> bool {
    |t: Tile| !is_flower(t) && same_face(t, a)
}

/// A flower.
pub open spec fn flower_tile() -> spec_fn(Tile) -> bool {
    |t: Tile| is_flower(t)
}

/// A tile of the suit of `a`, one rank above or below it.
pub open spec fn neighbor_of(a: Tile) -> spec_fn(Tile) -> bool {
    |t: Tile| t.suit == a.suit && (t.rank as int == a.rank as int + 1 || t.rank as int == a.rank as int - 1)
}

proof fn lemma_count_ge(tiles: Seq<Tile>, pred: spec_fn(Tile) -> bool, from: int, ps: Seq<int>)
    requires
        0 <= from,
        forall|i: int, j: int| 0 <= i < j < ps.len() ==> ps[i] < ps[j],
        forall|i: int| 0 <= i < ps.len() ==> from <= #[trigger] ps[i] < tiles.len() && pred(tiles[ps[i]]),
    ensures
        count_from(tiles, pred, from) >= ps.len(),
    decreases tiles.len() - from,
{
    if ps.len() > 0 {
        assert(from <= ps[0] < tiles.len());
        if ps[0] == from {
            let t = ps.drop_first();
            assert forall|i: int| 0 <= i < t.len() implies from + 1 <= #[trigger] t[i] < tiles.len() && pred(tiles[t[i]]) by {
                assert(t[i] == ps[i + 1]);
                assert(ps[0] < ps[i + 1]);
            }
            lemma_count_ge(tiles, pred, from + 1, t);
        } else {
            lemma_count_ge(tiles, pred, from + 1, ps);
        }
    }
}

/// At most three natural tiles of a face from `f` on: no kong starts at `f`.
pub proof fn lemma_no_quad(tiles: Seq<Tile>, f: int)
    requires
        0 <= f < tiles.len(),
        count_from(tiles, face_of(tiles[f]), f) <= 3,
    ensures
        no_quad_from(tiles, f),
        quads_fail(tiles, f),
{
    assert forall|j: int, k: int, l: int| f < j < k < l < tiles.len() implies #[trigger] group_kind(
        tiles,
        quad(f, j, k, l),
    ) is None by {
        if group_kind(tiles, quad(f, j, k, l)) is Some {
            let ps = seq![f, j, k, l];
            lemma_count_ge(tiles, face_of(tiles[f]), f, ps);
        }
    }
    assert forall|j: int, k: int, l: int| f < j < k < l < tiles.len() implies #[trigger] try_spec(
        tiles,
        suffix_mask(tiles.len(), f),
        quad(f, j, k, l),
    ) is None by {
        assert(group_kind(tiles, quad(f, j, k, l)) is None);
    }
}

/// No flower, at most two tiles of its face and no tile one rank away from
/// `f` on: no triplet or sequence starts at `f`.
pub proof fn lemma_no_tri(tiles: Seq<Tile>, f: int)
    requires
        0 <= f < tiles.len(),
        count_from(tiles, flower_tile(), f) == 0,
        count_from(tiles, face_of(tiles[f]), f) <= 2,
        count_from(tiles, neighbor_of(tiles[f]), f) == 0,
    ensures
        no_tri_from(tiles, f),
{
    assert forall|j: int, k: int| f < j < k < tiles.len() implies #[trigger] group_kind(tiles, tri(f, j, k)) is None by {
        if group_kind(tiles, tri(f, j, k)) is Some {
            let a = tiles[f];
            let b = tiles[j];
            let c = tiles[k];
            if is_flower(a) || is_flower(b) || is_flower(c) {
                let q = if is_flower(a) { f } else if is_flower(b) { j } else { k };
                lemma_count_ge(tiles, flower_tile(), f, seq![q]);
            } else if same_face(a, b) && same_face(b, c) {
                lemma_count_ge(tiles, face_of(a), f, seq![f, j, k]);
            } else {
                let q = if neighbor_of(a)(b) { j } else { k };
                lemma_count_ge(tiles, neighbor_of(a), f, seq![q]);
            }
        }
    }
}

/// Lengths of the rows of an example hand.
pub open spec fn row_lens(rows: Seq<(&'static str, MeldKind, Suit, Seq<u8>)>) -> Seq<int> {
    rows.map_values(|r: (&'static str, MeldKind, Suit, Seq<u8>)| r.3.len() as int)
}

/// The tiles of an example hand, row after row, ids numbered across it.
pub open spec fn page_hand(rows: Seq<(&'static str, MeldKind, Suit, Seq<u8>)>) -> Seq<Tile>
    decreases rows.len(),
{
    if rows.len() == 0 {
        Seq::empty()
    } else {
        page_hand(rows.drop_last()) + row_tiles(rows.last().2, rows.last().3, rows_offset(rows, rows.len() - 1))
    }
}

/// The face of a row of natural tiles of one suit, lowest rank first (and
/// three tiles when a sequence): its kind, its suit and its first rank.
proof fn lemma_run_face(hand: Seq<Tile>, f: int, len: int)
    requires
        0 <= f,
        len == 2 || len == 3,
        f + len <= hand.len(),
        group_kind(hand, run(f, len)) is Some,
        forall|i: int| f <= i < f + len ==> !is_flower(#[trigger] hand[i]) && hand[i].suit == hand[f].suit
            && hand[i].rank >= hand[f].rank,
    ensures
        group_faces(hand, seq![run(f, len)])[0] == (MeldFace {
            kind: group_kind(hand, run(f, len))->0,
            suit: hand[f].suit,
            lo: hand[f].rank,
        }),
{
    let g = run(f, len);
    let ts = g.map_values(|p: int| hand[p]);
    assert(ts[0] == hand[f]);
    assert(ts[1] == hand[f + 1]);
    reveal_with_fuel(crate::yaku::first_natural, 4);
    reveal_with_fuel(crate::yaku::min_nat_rank, 4);
    reveal_with_fuel(crate::yaku::max_nat_rank, 4);
    reveal_with_fuel(crate::yaku::natural_count, 4);
    if len == 2 {
        assert(ts.drop_last() =~= seq![hand[f]]);
        assert(ts.drop_last().drop_last() =~= Seq::<Tile>::empty());
        assert(group_kind(hand, g) == Some(MeldKind::Pair));
    } else {
        assert(ts[2] == hand[f + 2]);
        assert(ts.drop_last() =~= seq![hand[f], hand[f + 1]]);
        assert(ts.drop_last().drop_last() =~= seq![hand[f]]);
        assert(ts.drop_last().drop_last().drop_last() =~= Seq::<Tile>::empty());
    }
}

proof fn lemma_tanyao_hand()
    ensures
        hand_scores(YakuKind::Tanyao),
{
    let rows = yaku_example_rows(YakuKind::Tanyao);
    let hand = seq![
        Tile::new_spec(Suit::Manzu, 2, 0), Tile::new_spec(Suit::Manzu, 3, 1), Tile::new_spec(Suit::Manzu, 4, 2), Tile::new_spec(Suit::Souzu, 5, 3), Tile::new_spec(Suit::Souzu, 6, 4), Tile::new_spec(Suit::Souzu, 7, 5), Tile::new_spec(Suit::Pinzu, 8, 6), Tile::new_spec(Suit::Pinzu, 8, 7), Tile::new_spec(Suit::Pinzu, 8, 8), Tile::new_spec(Suit::Manzu, 5, 9), Tile::new_spec(Suit::Manzu, 5, 10)
    ];
    reveal_with_fuel(page_hand, 5);
    reveal_with_fuel(rows_offset, 5);
    assert(rows.drop_last().drop_last().drop_last().drop_last() =~= Seq::<(&'static str, MeldKind, Suit, Seq<u8>)>::empty());
    assert(row_tiles(rows[0].2, rows[0].3, 0) =~= hand.subrange(0, 3));
    assert(row_tiles(rows[1].2, rows[1].3, 3) =~= hand.subrange(3, 6));
    assert(row_tiles(rows[2].2, rows[2].3, 6) =~= hand.subrange(6, 9));
    assert(row_tiles(rows[3].2, rows[3].3, 9) =~= hand.subrange(9, 11));
    assert(page_hand(rows) =~= hand);
    let lens = row_lens(rows);
    assert(lens =~= seq![3int, 3, 3, 2]);
    reveal_with_fuel(count_from, 13);
    lemma_no_quad(hand, 0);
    lemma_no_quad(hand, 3);
    lemma_no_quad(hand, 6);
    lemma_no_quad(hand, 9);
    reveal_with_fuel(greedy_rows, 5);
    assert(greedy_rows(hand, 0, lens));
    lemma_greedy_rows(hand, 0, lens);
    assert(full_mask(11) =~= suffix_mask(11, 0));
    reveal_with_fuel(runs_from, 5);
    let gs = runs_from(0, lens);
    assert(gs =~= seq![run(0, 3), run(3, 3), run(6, 3), run(9, 2)]);
    lemma_run_face(hand, 0, 3);
    lemma_run_face(hand, 3, 3);
    lemma_run_face(hand, 6, 3);
    lemma_run_face(hand, 9, 2);
    let fs = group_faces(hand, gs);
    assert(fs =~= seq![
        MeldFace { kind: MeldKind::Sequence, suit: Suit::Manzu, lo: 2 },
        MeldFace { kind: MeldKind::Sequence, suit: Suit::Souzu, lo: 5 },
        MeldFace { kind: MeldKind::Triplet, suit: Suit::Pinzu, lo: 8 },
        MeldFace { kind: MeldKind::Pair, suit: Suit::Manzu, lo: 5 }
    ]);
    reveal_with_fuel(crate::yaku::count_pred, 6);
    assert(crate::yaku::tanyao(fs));
    reveal(crate::yaku::yaku_flags);
    crate::yaku::lemma_yaku_list_contains(crate::yaku::yaku_flags(fs, None, None), YakuKind::Tanyao);
}

proof fn lemma_toitoi_hand()
    ensures
        hand_scores(YakuKind::Toitoi),
{
    let rows = yaku_example_rows(YakuKind::Toitoi);
    let hand = seq![
        Tile::new_spec(Suit::Manzu, 1, 0), Tile::new_spec(Suit::Manzu, 1, 1), Tile::new_spec(Suit::Manzu, 1, 2), Tile::new_spec(Suit::Souzu, 5, 3), Tile::new_spec(Suit::Souzu, 5, 4), Tile::new_spec(Suit::Souzu, 5, 5), Tile::new_spec(Suit::Pinzu, 9, 6), Tile::new_spec(Suit::Pinzu, 9, 7), Tile::new_spec(Suit::Pinzu, 9, 8), Tile::new_spec(Suit::Wind, 1, 9), Tile::new_spec(Suit::Wind, 1, 10)
    ];
    reveal_with_fuel(page_hand, 5);
    reveal_with_fuel(rows_offset, 5);
    assert(rows.drop_last().drop_last().drop_last().drop_last() =~= Seq::<(&'static str, MeldKind, Suit, Seq<u8>)>::empty());
    assert(row_tiles(rows[0].2, rows[0].3, 0) =~= hand.subrange(0, 3));
    assert(row_tiles(rows[1].2, rows[1].3, 3) =~= hand.subrange(3, 6));
    assert(row_tiles(rows[2].2, rows[2].3, 6) =~= hand.subrange(6, 9));
    assert(row_tiles(rows[3].2, rows[3].3, 9) =~= hand.subrange(9, 11));
    assert(page_hand(rows) =~= hand);
    let lens = row_lens(rows);
    assert(lens =~= seq![3int, 3, 3, 2]);
    reveal_with_fuel(count_from, 13);
    lemma_no_quad(hand, 0);
    lemma_no_quad(hand, 3);
    lemma_no_quad(hand, 6);
    lemma_no_quad(hand, 9);
    reveal_with_fuel(greedy_rows, 5);
    assert(greedy_rows(hand, 0, lens));
    lemma_greedy_rows(hand, 0, lens);
    assert(full_mask(11) =~= suffix_mask(11, 0));
    reveal_with_fuel(runs_from, 5);
    let gs = runs_from(0, lens);
    assert(gs =~= seq![run(0, 3), run(3, 3), run(6, 3), run(9, 2)]);
    lemma_run_face(hand, 0, 3);
    lemma_run_face(hand, 3, 3);
    lemma_run_face(hand, 6, 3);
    lemma_run_face(hand, 9, 2);
    let fs = group_faces(hand, gs);
    assert(fs =~= seq![
        MeldFace { kind: MeldKind::Triplet, suit: Suit::Manzu, lo: 1 },
        MeldFace { kind: MeldKind::Triplet, suit: Suit::Souzu, lo: 5 },
        MeldFace { kind: MeldKind::Triplet, suit: Suit::Pinzu, lo: 9 },
        MeldFace { kind: MeldKind::Pair, suit: Suit::Wind, lo: 1 }
    ]);
    reveal_with_fuel(crate::yaku::count_pred, 6);
    assert(crate::yaku::toitoi(fs));
    reveal(crate::yaku::yaku_flags);
    crate::yaku::lemma_yaku_list_contains(crate::yaku::yaku_flags(fs, None, None), YakuKind::Toitoi);
}

proof fn lemma_honroutou_hand()
    ensures
        hand_scores(YakuKind::Honroutou),
{
    let rows = yaku_example_rows(YakuKind::Honroutou);
    let hand = seq![
        Tile::new_spec(Suit::Manzu, 1, 0), Tile::new_spec(Suit::Manzu, 1, 1), Tile::new_spec(Suit::Manzu, 1, 2), Tile::new_spec(Suit::Souzu, 9, 3), Tile::new_spec(Suit::Souzu, 9, 4), Tile::new_spec(Suit::Souzu, 9, 5), Tile::new_spec(Suit::Wind, 1, 6), Tile::new_spec(Suit::Wind, 1, 7), Tile::new_spec(Suit::Wind, 1, 8), Tile::new_spec(Suit::Pinzu, 1, 9), Tile::new_spec(Suit::Pinzu, 1, 10)
    ];
    reveal_with_fuel(page_hand, 5);
    reveal_with_fuel(rows_offset, 5);
    assert(rows.drop_last().drop_last().drop_last().drop_last() =~= Seq::<(&'static str, MeldKind, Suit, Seq<u8>)>::empty());
    assert(row_tiles(rows[0].2, rows[0].3, 0) =~= hand.subrange(0, 3));
    assert(row_tiles(rows[1].2, rows[1].3, 3) =~= hand.subrange(3, 6));
    assert(row_tiles(rows[2].2, rows[2].3, 6) =~= hand.subrange(6, 9));
    assert(row_tiles(rows[3].2, rows[3].3, 9) =~= hand.subrange(9, 11));
    assert(page_hand(rows) =~= hand);
    let lens = row_lens(rows);
    assert(lens =~= seq![3int, 3, 3, 2]);
    reveal_with_fuel(count_from, 13);
    lemma_no_quad(hand, 0);
    lemma_no_quad(hand, 3);
    lemma_no_quad(hand, 6);
    lemma_no_quad(hand, 9);
    reveal_with_fuel(greedy_rows, 5);
    assert(greedy_rows(hand, 0, lens));
    lemma_greedy_rows(hand, 0, lens);
    assert(full_mask(11) =~= suffix_mask(11, 0));
    reveal_with_fuel(runs_from, 5);
    let gs = runs_from(0, lens);
    assert(gs =~= seq![run(0, 3), run(3, 3), run(6, 3), run(9, 2)]);
    lemma_run_face(hand, 0, 3);
    lemma_run_face(hand, 3, 3);
    lemma_run_face(hand, 6, 3);
    lemma_run_face(hand, 9, 2);
    let fs = group_faces(hand, gs);
    assert(fs =~= seq![
        MeldFace { kind: MeldKind::Triplet, suit: Suit::Manzu, lo: 1 },
        MeldFace { kind: MeldKind::Triplet, suit: Suit::Souzu, lo: 9 },
        MeldFace { kind: MeldKind::Triplet, suit: Suit::Wind, lo: 1 },
        MeldFace { kind: MeldKind::Pair, suit: Suit::Pinzu, lo: 1 }
    ]);
    reveal_with_fuel(crate::yaku::count_pred, 6);
    assert(!crate::yaku::junchan(fs));
    assert(crate::yaku::honroutou(fs));
    reveal(crate::yaku::yaku_flags);
    crate::yaku::lemma_yaku_list_contains(crate::yaku::yaku_flags(fs, None, None), YakuKind::Honroutou);
}

proof fn lemma_iipeikou_hand()
    ensures
        hand_scores(YakuKind::Iipeikou),
{
    let rows = yaku_example_rows(YakuKind::Iipeikou);
    let hand = seq![
        Tile::new_spec(Suit::Souzu, 1, 0), Tile::new_spec(Suit::Souzu, 2, 1), Tile::new_spec(Suit::Souzu, 3, 2), Tile::new_spec(Suit::Souzu, 1, 3), Tile::new_spec(Suit::Souzu, 2, 4), Tile::new_spec(Suit::Souzu, 3, 5), Tile::new_spec(Suit::Pinzu, 4, 6), Tile::new_spec(Suit::Pinzu, 4, 7), Tile::new_spec(Suit::Pinzu, 4, 8), Tile::new_spec(Suit::Manzu, 5, 9), Tile::new_spec(Suit::Manzu, 5, 10), Tile::new_spec(Suit::Manzu, 5, 11), Tile::new_spec(Suit::Wind, 1, 12), Tile::new_spec(Suit::Wind, 1, 13)
    ];
    reveal_with_fuel(page_hand, 6);
    reveal_with_fuel(rows_offset, 6);
    assert(rows.drop_last().drop_last().drop_last().drop_last().drop_last() =~= Seq::<(&'static str, MeldKind, Suit, Seq<u8>)>::empty());
    assert(row_tiles(rows[0].2, rows[0].3, 0) =~= hand.subrange(0, 3));
    assert(row_tiles(rows[1].2, rows[1].3, 3) =~= hand.subrange(3, 6));
    assert(row_tiles(rows[2].2, rows[2].3, 6) =~= hand.subrange(6, 9));
    assert(row_tiles(rows[3].2, rows[3].3, 9) =~= hand.subrange(9, 12));
    assert(row_tiles(rows[4].2, rows[4].3, 12) =~= hand.subrange(12, 14));
    assert(page_hand(rows) =~= hand);
    let lens = row_lens(rows);
    assert(lens =~= seq![3int, 3, 3, 3, 2]);
    reveal_with_fuel(count_from, 16);
    lemma_no_quad(hand, 0);
    lemma_no_quad(hand, 3);
    lemma_no_quad(hand, 6);
    lemma_no_quad(hand, 9);
    lemma_no_quad(hand, 12);
    reveal_with_fuel(greedy_rows, 6);
    assert(greedy_rows(hand, 0, lens));
    lemma_greedy_rows(hand, 0, lens);
    assert(full_mask(14) =~= suffix_mask(14, 0));
    reveal_with_fuel(runs_from, 6);
    let gs = runs_from(0, lens);
    assert(gs =~= seq![run(0, 3), run(3, 3), run(6, 3), run(9, 3), run(12, 2)]);
    lemma_run_face(hand, 0, 3);
    lemma_run_face(hand, 3, 3);
    lemma_run_face(hand, 6, 3);
    lemma_run_face(hand, 9, 3);
    lemma_run_face(hand, 12, 2);
    let fs = group_faces(hand, gs);
    assert(fs =~= seq![
        MeldFace { kind: MeldKind::Sequence, suit: Suit::Souzu, lo: 1 },
        MeldFace { kind: MeldKind::Sequence, suit: Suit::Souzu, lo: 1 },
        MeldFace { kind: MeldKind::Triplet, suit: Suit::Pinzu, lo: 4 },
        MeldFace { kind: MeldKind::Triplet, suit: Suit::Manzu, lo: 5 },
        MeldFace { kind: MeldKind::Pair, suit: Suit::Wind, lo: 1 }
    ]);
    reveal_with_fuel(crate::yaku::count_pred, 7);
    assert(!crate::yaku::ryanpeikou(fs));
    assert(crate::yaku::doubled_sequence_at(fs, 0));
    assert(crate::yaku::iipeikou(fs));
    reveal(crate::yaku::yaku_flags);
    crate::yaku::lemma_yaku_list_contains(crate::yaku::yaku_flags(fs, None, None), YakuKind::Iipeikou);
}

proof fn lemma_shousangen_hand()
    ensures
        hand_scores(YakuKind::Shousangen),
{
    let rows = yaku_example_rows(YakuKind::Shousangen);
    let hand = seq![
        Tile::new_spec(Suit::Dragon, 1, 0), Tile::new_spec(Suit::Dragon, 1, 1), Tile::new_spec(Suit::Dragon, 1, 2), Tile::new_spec(Suit::Dragon, 2, 3), Tile::new_spec(Suit::Dragon, 2, 4), Tile::new_spec(Suit::Dragon, 2, 5), Tile::new_spec(Suit::Manzu, 4, 6), Tile::new_spec(Suit::Manzu, 5, 7), Tile::new_spec(Suit::Manzu, 6, 8), Tile::new_spec(Suit::Pinzu, 7, 9), Tile::new_spec(Suit::Pinzu, 7, 10), Tile::new_spec(Suit::Pinzu, 7, 11), Tile::new_spec(Suit::Dragon, 3, 12), Tile::new_spec(Suit::Dragon, 3, 13)
    ];
    reveal_with_fuel(page_hand, 6);
    reveal_with_fuel(rows_offset, 6);
    assert(rows.drop_last().drop_last().drop_last().drop_last().drop_last() =~= Seq::<(&'static str, MeldKind, Suit, Seq<u8>)>::empty());
    assert(row_tiles(rows[0].2, rows[0].3, 0) =~= hand.subrange(0, 3));
    assert(row_tiles(rows[1].2, rows[1].3, 3) =~= hand.subrange(3, 6));
    assert(row_tiles(rows[2].2, rows[2].3, 6) =~= hand.subrange(6, 9));
    assert(row_tiles(rows[3].2, rows[3].3, 9) =~= hand.subrange(9, 12));
    assert(row_tiles(rows[4].2, rows[4].3, 12) =~= hand.subrange(12, 14));
    assert(page_hand(rows) =~= hand);
    let lens = row_lens(rows);
    assert(lens =~= seq![3int, 3, 3, 3, 2]);
    reveal_with_fuel(count_from, 16);
    lemma_no_quad(hand, 0);
    lemma_no_quad(hand, 3);
    lemma_no_quad(hand, 6);
    lemma_no_quad(hand, 9);
    lemma_no_quad(hand, 12);
    reveal_with_fuel(greedy_rows, 6);
    assert(greedy_rows(hand, 0, lens));
    lemma_greedy_rows(hand, 0, lens);
    assert(full_mask(14) =~= suffix_mask(14, 0));
    reveal_with_fuel(runs_from, 6);
    let gs = runs_from(0, lens);
    assert(gs =~= seq![run(0, 3), run(3, 3), run(6, 3), run(9, 3), run(12, 2)]);
    lemma_run_face(hand, 0, 3);
    lemma_run_face(hand, 3, 3);
    lemma_run_face(hand, 6, 3);
    lemma_run_face(hand, 9, 3);
    lemma_run_face(hand, 12, 2);
    let fs = group_faces(hand, gs);
    assert(fs =~= seq![
        MeldFace { kind: MeldKind::Triplet, suit: Suit::Dragon, lo: 1 },
        MeldFace { kind: MeldKind::Triplet, suit: Suit::Dragon, lo: 2 },
        MeldFace { kind: MeldKind::Sequence, suit: Suit::Manzu, lo: 4 },
        MeldFace { kind: MeldKind::Triplet, suit: Suit::Pinzu, lo: 7 },
        MeldFace { kind: MeldKind::Pair, suit: Suit::Dragon, lo: 3 }
    ]);
    reveal_with_fuel(crate::yaku::count_pred, 7);
    assert(!crate::yaku::daisangen(fs));
    assert(crate::yaku::shousangen(fs));
    reveal(crate::yaku::yaku_flags);
    crate::yaku::lemma_yaku_list_contains(crate::yaku::yaku_flags(fs, None, None), YakuKind::Shousangen);
}

proof fn lemma_daisangen_hand()
    ensures
        hand_scores(YakuKind::Daisangen),
{
    let rows = yaku_example_rows(YakuKind::Daisangen);
    let hand = seq![
        Tile::new_spec(Suit::Dragon, 1, 0), Tile::new_spec(Suit::Dragon, 1, 1), Tile::new_spec(Suit::Dragon, 1, 2), Tile::new_spec(Suit::Dragon, 2, 3), Tile::new_spec(Suit::Dragon, 2, 4), Tile::new_spec(Suit::Dragon, 2, 5), Tile::new_spec(Suit::Dragon, 3, 6), Tile::new_spec(Suit::Dragon, 3, 7), Tile::new_spec(Suit::Dragon, 3, 8), Tile::new_spec(Suit::Manzu, 4, 9), Tile::new_spec(Suit::Manzu, 5, 10), Tile::new_spec(Suit::Manzu, 6, 11), Tile::new_spec(Suit::Pinzu, 8, 12), Tile::new_spec(Suit::Pinzu, 8, 13)
    ];
    reveal_with_fuel(page_hand, 6);
    reveal_with_fuel(rows_offset, 6);
    assert(rows.drop_last().drop_last().drop_last().drop_last().drop_last() =~= Seq::<(&'static str, MeldKind, Suit, Seq<u8>)>::empty());
    assert(row_tiles(rows[0].2, rows[0].3, 0) =~= hand.subrange(0, 3));
    assert(row_tiles(rows[1].2, rows[1].3, 3) =~= hand.subrange(3, 6));
    assert(row_tiles(rows[2].2, rows[2].3, 6) =~= hand.subrange(6, 9));
    assert(row_tiles(rows[3].2, rows[3].3, 9) =~= hand.subrange(9, 12));
    assert(row_tiles(rows[4].2, rows[4].3, 12) =~= hand.subrange(12, 14));
    assert(page_hand(rows) =~= hand);
    let lens = row_lens(rows);
    assert(lens =~= seq![3int, 3, 3, 3, 2]);
    reveal_with_fuel(count_from, 16);
    lemma_no_quad(hand, 0);
    lemma_no_quad(hand, 3);
    lemma_no_quad(hand, 6);
    lemma_no_quad(hand, 9);
    lemma_no_quad(hand, 12);
    reveal_with_fuel(greedy_rows, 6);
    assert(greedy_rows(hand, 0, lens));
    lemma_greedy_rows(hand, 0, lens);
    assert(full_mask(14) =~= suffix_mask(14, 0));
    reveal_with_fuel(runs_from, 6);
    let gs = runs_from(0, lens);
    assert(gs =~= seq![run(0, 3), run(3, 3), run(6, 3), run(9, 3), run(12, 2)]);
    lemma_run_face(hand, 0, 3);
    lemma_run_face(hand, 3, 3);
    lemma_run_face(hand, 6, 3);
    lemma_run_face(hand, 9, 3);
    lemma_run_face(hand, 12, 2);
    let fs = group_faces(hand, gs);
    assert(fs =~= seq![
        MeldFace { kind: MeldKind::Triplet, suit: Suit::Dragon, lo: 1 },
        MeldFace { kind: MeldKind::Triplet, suit: Suit::Dragon, lo: 2 },
        MeldFace { kind: MeldKind::Triplet, suit: Suit::Dragon, lo: 3 },
        MeldFace { kind: MeldKind::Sequence, suit: Suit::Manzu, lo: 4 },
        MeldFace { kind: MeldKind::Pair, suit: Suit::Pinzu, lo: 8 }
    ]);
    reveal_with_fuel(crate::yaku::count_pred, 7);
    assert(crate::yaku::daisangen(fs));
    reveal(crate::yaku::yaku_flags);
    crate::yaku::lemma_yaku_list_contains(crate::yaku::yaku_flags(fs, None, None), YakuKind::Daisangen);
}

proof fn lemma_chinitsu_hand()
    ensures
        hand_scores(YakuKind::Chinitsu),
{
    let rows = yaku_example_rows(YakuKind::Chinitsu);
    let hand = seq![
        Tile::new_spec(Suit::Souzu, 1, 0), Tile::new_spec(Suit::Souzu, 2, 1), Tile::new_spec(Suit::Souzu, 3, 2), Tile::new_spec(Suit::Souzu, 4, 3), Tile::new_spec(Suit::Souzu, 5, 4), Tile::new_spec(Suit::Souzu, 6, 5), Tile::new_spec(Suit::Souzu, 7, 6), Tile::new_spec(Suit::Souzu, 7, 7), Tile::new_spec(Suit::Souzu, 7, 8), Tile::new_spec(Suit::Souzu, 9, 9), Tile::new_spec(Suit::Souzu, 9, 10)
    ];
    reveal_with_fuel(page_hand, 5);
    reveal_with_fuel(rows_offset, 5);
    assert(rows.drop_last().drop_last().drop_last().drop_last() =~= Seq::<(&'static str, MeldKind, Suit, Seq<u8>)>::empty());
    assert(row_tiles(rows[0].2, rows[0].3, 0) =~= hand.subrange(0, 3));
    assert(row_tiles(rows[1].2, rows[1].3, 3) =~= hand.subrange(3, 6));
    assert(row_tiles(rows[2].2, rows[2].3, 6) =~= hand.subrange(6, 9));
    assert(row_tiles(rows[3].2, rows[3].3, 9) =~= hand.subrange(9, 11));
    assert(page_hand(rows) =~= hand);
    let lens = row_lens(rows);
    assert(lens =~= seq![3int, 3, 3, 2]);
    reveal_with_fuel(count_from, 13);
    lemma_no_quad(hand, 0);
    lemma_no_quad(hand, 3);
    lemma_no_quad(hand, 6);
    lemma_no_quad(hand, 9);
    reveal_with_fuel(greedy_rows, 5);
    assert(greedy_rows(hand, 0, lens));
    lemma_greedy_rows(hand, 0, lens);
    assert(full_mask(11) =~= suffix_mask(11, 0));
    reveal_with_fuel(runs_from, 5);
    let gs = runs_from(0, lens);
    assert(gs =~= seq![run(0, 3), run(3, 3), run(6, 3), run(9, 2)]);
    lemma_run_face(hand, 0, 3);
    lemma_run_face(hand, 3, 3);
    lemma_run_face(hand, 6, 3);
    lemma_run_face(hand, 9, 2);
    let fs = group_faces(hand, gs);
    assert(fs =~= seq![
        MeldFace { kind: MeldKind::Sequence, suit: Suit::Souzu, lo: 1 },
        MeldFace { kind: MeldKind::Sequence, suit: Suit::Souzu, lo: 4 },
        MeldFace { kind: MeldKind::Triplet, suit: Suit::Souzu, lo: 7 },
        MeldFace { kind: MeldKind::Pair, suit: Suit::Souzu, lo: 9 }
    ]);
    reveal_with_fuel(crate::yaku::count_pred, 6);
    assert(crate::yaku::chinitsu_in(fs, Suit::Souzu));
    assert(crate::yaku::chinitsu(fs));
    reveal(crate::yaku::yaku_flags);
    crate::yaku::lemma_yaku_list_contains(crate::yaku::yaku_flags(fs, None, None), YakuKind::Chinitsu);
}

proof fn lemma_sanshoku_doujun_hand()
    ensures
        hand_scores(YakuKind::SanshokuDoujun),
{
    let rows = yaku_example_rows(YakuKind::SanshokuDoujun);
    let hand = seq![
        Tile::new_spec(Suit::Manzu, 4, 0), Tile::new_spec(Suit::Manzu, 5, 1), Tile::new_spec(Suit::Manzu, 6, 2), Tile::new_spec(Suit::Souzu, 4, 3), Tile::new_spec(Suit::Souzu, 5, 4), Tile::new_spec(Suit::Souzu, 6, 5), Tile::new_spec(Suit::Pinzu, 4, 6), Tile::new_spec(Suit::Pinzu, 5, 7), Tile::new_spec(Suit::Pinzu, 6, 8), Tile::new_spec(Suit::Wind, 1, 9), Tile::new_spec(Suit::Wind, 1, 10)
    ];
    reveal_with_fuel(page_hand, 5);
    reveal_with_fuel(rows_offset, 5);
    assert(rows.drop_last().drop_last().drop_last().drop_last() =~= Seq::<(&'static str, MeldKind, Suit, Seq<u8>)>::empty());
    assert(row_tiles(rows[0].2, rows[0].3, 0) =~= hand.subrange(0, 3));
    assert(row_tiles(rows[1].2, rows[1].3, 3) =~= hand.subrange(3, 6));
    assert(row_tiles(rows[2].2, rows[2].3, 6) =~= hand.subrange(6, 9));
    assert(row_tiles(rows[3].2, rows[3].3, 9) =~= hand.subrange(9, 11));
    assert(page_hand(rows) =~= hand);
    let lens = row_lens(rows);
    assert(lens =~= seq![3int, 3, 3, 2]);
    reveal_with_fuel(count_from, 13);
    lemma_no_quad(hand, 0);
    lemma_no_quad(hand, 3);
    lemma_no_quad(hand, 6);
    lemma_no_quad(hand, 9);
    reveal_with_fuel(greedy_rows, 5);
    assert(greedy_rows(hand, 0, lens));
    lemma_greedy_rows(hand, 0, lens);
    assert(full_mask(11) =~= suffix_mask(11, 0));
    reveal_with_fuel(runs_from, 5);
    let gs = runs_from(0, lens);
    assert(gs =~= seq![run(0, 3), run(3, 3), run(6, 3), run(9, 2)]);
    lemma_run_face(hand, 0, 3);
    lemma_run_face(hand, 3, 3);
    lemma_run_face(hand, 6, 3);
    lemma_run_face(hand, 9, 2);
    let fs = group_faces(hand, gs);
    assert(fs =~= seq![
        MeldFace { kind: MeldKind::Sequence, suit: Suit::Manzu, lo: 4 },
        MeldFace { kind: MeldKind::Sequence, suit: Suit::Souzu, lo: 4 },
        MeldFace { kind: MeldKind::Sequence, suit: Suit::Pinzu, lo: 4 },
        MeldFace { kind: MeldKind::Pair, suit: Suit::Wind, lo: 1 }
    ]);
    reveal_with_fuel(crate::yaku::count_pred, 6);
    assert(crate::yaku::cnt(fs, crate::yaku::FacePred::SequenceAt(Suit::Pinzu, 4)) > 0);
    assert(crate::yaku::sanshoku_doujun(fs));
    reveal(crate::yaku::yaku_flags);
    crate::yaku::lemma_yaku_list_contains(crate::yaku::yaku_flags(fs, None, None), YakuKind::SanshokuDoujun);
}

proof fn lemma_junchan_hand()
    ensures
        hand_scores(YakuKind::Junchan),
{
    let rows = yaku_example_rows(YakuKind::Junchan);
    let hand = seq![
        Tile::new_spec(Suit::Manzu, 1, 0), Tile::new_spec(Suit::Manzu, 2, 1), Tile::new_spec(Suit::Manzu, 3, 2), Tile::new_spec(Suit::Manzu, 9, 3), Tile::new_spec(Suit::Manzu, 9, 4), Tile::new_spec(Suit::Manzu, 9, 5), Tile::new_spec(Suit::Pinzu, 1, 6), Tile::new_spec(Suit::Pinzu, 1, 7), Tile::new_spec(Suit::Pinzu, 1, 8), Tile::new_spec(Suit::Souzu, 7, 9), Tile::new_spec(Suit::Souzu, 8, 10), Tile::new_spec(Suit::Souzu, 9, 11), Tile::new_spec(Suit::Pinzu, 9, 12), Tile::new_spec(Suit::Pinzu, 9, 13)
    ];
    reveal_with_fuel(page_hand, 6);
    reveal_with_fuel(rows_offset, 6);
    assert(rows.drop_last().drop_last().drop_last().drop_last().drop_last() =~= Seq::<(&'static str, MeldKind, Suit, Seq<u8>)>::empty());
    assert(row_tiles(rows[0].2, rows[0].3, 0) =~= hand.subrange(0, 3));
    assert(row_tiles(rows[1].2, rows[1].3, 3) =~= hand.subrange(3, 6));
    assert(row_tiles(rows[2].2, rows[2].3, 6) =~= hand.subrange(6, 9));
    assert(row_tiles(rows[3].2, rows[3].3, 9) =~= hand.subrange(9, 12));
    assert(row_tiles(rows[4].2, rows[4].3, 12) =~= hand.subrange(12, 14));
    assert(page_hand(rows) =~= hand);
    let lens = row_lens(rows);
    assert(lens =~= seq![3int, 3, 3, 3, 2]);
    reveal_with_fuel(count_from, 16);
    lemma_no_quad(hand, 0);
    lemma_no_quad(hand, 3);
    lemma_no_quad(hand, 6);
    lemma_no_quad(hand, 9);
    lemma_no_quad(hand, 12);
    reveal_with_fuel(greedy_rows, 6);
    assert(greedy_rows(hand, 0, lens));
    lemma_greedy_rows(hand, 0, lens);
    assert(full_mask(14) =~= suffix_mask(14, 0));
    reveal_with_fuel(runs_from, 6);
    let gs = runs_from(0, lens);
    assert(gs =~= seq![run(0, 3), run(3, 3), run(6, 3), run(9, 3), run(12, 2)]);
    lemma_run_face(hand, 0, 3);
    lemma_run_face(hand, 3, 3);
    lemma_run_face(hand, 6, 3);
    lemma_run_face(hand, 9, 3);
    lemma_run_face(hand, 12, 2);
    let fs = group_faces(hand, gs);
    assert(fs =~= seq![
        MeldFace { kind: MeldKind::Sequence, suit: Suit::Manzu, lo: 1 },
        MeldFace { kind: MeldKind::Triplet, suit: Suit::Manzu, lo: 9 },
        MeldFace { kind: MeldKind::Triplet, suit: Suit::Pinzu, lo: 1 },
        MeldFace { kind: MeldKind::Sequence, suit: Suit::Souzu, lo: 7 },
        MeldFace { kind: MeldKind::Pair, suit: Suit::Pinzu, lo: 9 }
    ]);
    reveal_with_fuel(crate::yaku::count_pred, 7);
    assert(crate::yaku::junchan(fs));
    reveal(crate::yaku::yaku_flags);
    crate::yaku::lemma_yaku_list_contains(crate::yaku::yaku_flags(fs, None, None), YakuKind::Junchan);
}

proof fn lemma_ittsu_hand()
    ensures
        hand_scores(YakuKind::Ittsu),
{
    let rows = yaku_example_rows(YakuKind::Ittsu);
    let hand = seq![
        Tile::new_spec(Suit::Souzu, 1, 0), Tile::new_spec(Suit::Souzu, 2, 1), Tile::new_spec(Suit::Souzu, 3, 2), Tile::new_spec(Suit::Souzu, 4, 3), Tile::new_spec(Suit::Souzu, 5, 4), Tile::new_spec(Suit::Souzu, 6, 5), Tile::new_spec(Suit::Souzu, 7, 6), Tile::new_spec(Suit::Souzu, 8, 7), Tile::new_spec(Suit::Souzu, 9, 8), Tile::new_spec(Suit::Manzu, 5, 9), Tile::new_spec(Suit::Manzu, 5, 10)
    ];
    reveal_with_fuel(page_hand, 5);
    reveal_with_fuel(rows_offset, 5);
    assert(rows.drop_last().drop_last().drop_last().drop_last() =~= Seq::<(&'static str, MeldKind, Suit, Seq<u8>)>::empty());
    assert(row_tiles(rows[0].2, rows[0].3, 0) =~= hand.subrange(0, 3));
    assert(row_tiles(rows[1].2, rows[1].3, 3) =~= hand.subrange(3, 6));
    assert(row_tiles(rows[2].2, rows[2].3, 6) =~= hand.subrange(6, 9));
    assert(row_tiles(rows[3].2, rows[3].3, 9) =~= hand.subrange(9, 11));
    assert(page_hand(rows) =~= hand);
    let lens = row_lens(rows);
    assert(lens =~= seq![3int, 3, 3, 2]);
    reveal_with_fuel(count_from, 13);
    lemma_no_quad(hand, 0);
    lemma_no_quad(hand, 3);
    lemma_no_quad(hand, 6);
    lemma_no_quad(hand, 9);
    reveal_with_fuel(greedy_rows, 5);
    assert(greedy_rows(hand, 0, lens));
    lemma_greedy_rows(hand, 0, lens);
    assert(full_mask(11) =~= suffix_mask(11, 0));
    reveal_with_fuel(runs_from, 5);
    let gs = runs_from(0, lens);
    assert(gs =~= seq![run(0, 3), run(3, 3), run(6, 3), run(9, 2)]);
    lemma_run_face(hand, 0, 3);
    lemma_run_face(hand, 3, 3);
    lemma_run_face(hand, 6, 3);
    lemma_run_face(hand, 9, 2);
    let fs = group_faces(hand, gs);
    assert(fs =~= seq![
        MeldFace { kind: MeldKind::Sequence, suit: Suit::Souzu, lo: 1 },
        MeldFace { kind: MeldKind::Sequence, suit: Suit::Souzu, lo: 4 },
        MeldFace { kind: MeldKind::Sequence, suit: Suit::Souzu, lo: 7 },
        MeldFace { kind: MeldKind::Pair, suit: Suit::Manzu, lo: 5 }
    ]);
    reveal_with_fuel(crate::yaku::count_pred, 6);
    assert(crate::yaku::ittsu_in(fs, Suit::Souzu));
    assert(crate::yaku::ittsu(fs));
    reveal(crate::yaku::yaku_flags);
    crate::yaku::lemma_yaku_list_contains(crate::yaku::yaku_flags(fs, None, None), YakuKind::Ittsu);
}

proof fn lemma_honitsu_hand()
    ensures
        hand_scores(YakuKind::Honitsu),
{
    let rows = yaku_example_rows(YakuKind::Honitsu);
    let hand = seq![
        Tile::new_spec(Suit::Souzu, 2, 0), Tile::new_spec(Suit::Souzu, 3, 1), Tile::new_spec(Suit::Souzu, 4, 2), Tile::new_spec(Suit::Souzu, 6, 3), Tile::new_spec(Suit::Souzu, 7, 4), Tile::new_spec(Suit::Souzu, 8, 5), Tile::new_spec(Suit::Wind, 1, 6), Tile::new_spec(Suit::Wind, 1, 7), Tile::new_spec(Suit::Wind, 1, 8), Tile::new_spec(Suit::Souzu, 9, 9), Tile::new_spec(Suit::Souzu, 9, 10)
    ];
    reveal_with_fuel(page_hand, 5);
    reveal_with_fuel(rows_offset, 5);
    assert(rows.drop_last().drop_last().drop_last().drop_last() =~= Seq::<(&'static str, MeldKind, Suit, Seq<u8>)>::empty());
    assert(row_tiles(rows[0].2, rows[0].3, 0) =~= hand.subrange(0, 3));
    assert(row_tiles(rows[1].2, rows[1].3, 3) =~= hand.subrange(3, 6));
    assert(row_tiles(rows[2].2, rows[2].3, 6) =~= hand.subrange(6, 9));
    assert(row_tiles(rows[3].2, rows[3].3, 9) =~= hand.subrange(9, 11));
    assert(page_hand(rows) =~= hand);
    let lens = row_lens(rows);
    assert(lens =~= seq![3int, 3, 3, 2]);
    reveal_with_fuel(count_from, 13);
    lemma_no_quad(hand, 0);
    lemma_no_quad(hand, 3);
    lemma_no_quad(hand, 6);
    lemma_no_quad(hand, 9);
    reveal_with_fuel(greedy_rows, 5);
    assert(greedy_rows(hand, 0, lens));
    lemma_greedy_rows(hand, 0, lens);
    assert(full_mask(11) =~= suffix_mask(11, 0));
    reveal_with_fuel(runs_from, 5);
    let gs = runs_from(0, lens);
    assert(gs =~= seq![run(0, 3), run(3, 3), run(6, 3), run(9, 2)]);
    lemma_run_face(hand, 0, 3);
    lemma_run_face(hand, 3, 3);
    lemma_run_face(hand, 6, 3);
    lemma_run_face(hand, 9, 2);
    let fs = group_faces(hand, gs);
    assert(fs =~= seq![
        MeldFace { kind: MeldKind::Sequence, suit: Suit::Souzu, lo: 2 },
        MeldFace { kind: MeldKind::Sequence, suit: Suit::Souzu, lo: 6 },
        MeldFace { kind: MeldKind::Triplet, suit: Suit::Wind, lo: 1 },
        MeldFace { kind: MeldKind::Pair, suit: Suit::Souzu, lo: 9 }
    ]);
    reveal_with_fuel(crate::yaku::count_pred, 6);
    assert(crate::yaku::honitsu_in(fs, Suit::Souzu));
    assert(crate::yaku::honitsu(fs));
    reveal(crate::yaku::yaku_flags);
    crate::yaku::lemma_yaku_list_contains(crate::yaku::yaku_flags(fs, None, None), YakuKind::Honitsu);
}

proof fn lemma_yakuhai_hand()
    ensures
        hand_scores(YakuKind::Yakuhai),
{
    let rows = yaku_example_rows(YakuKind::Yakuhai);
    let hand = seq![
        Tile::new_spec(Suit::Dragon, 1, 0), Tile::new_spec(Suit::Dragon, 1, 1), Tile::new_spec(Suit::Dragon, 1, 2), Tile::new_spec(Suit::Manzu, 2, 3), Tile::new_spec(Suit::Manzu, 3, 4), Tile::new_spec(Suit::Manzu, 4, 5), Tile::new_spec(Suit::Souzu, 5, 6), Tile::new_spec(Suit::Souzu, 5, 7)
    ];
    reveal_with_fuel(page_hand, 4);
    reveal_with_fuel(rows_offset, 4);
    assert(rows.drop_last().drop_last().drop_last() =~= Seq::<(&'static str, MeldKind, Suit, Seq<u8>)>::empty());
    assert(row_tiles(rows[0].2, rows[0].3, 0) =~= hand.subrange(0, 3));
    assert(row_tiles(rows[1].2, rows[1].3, 3) =~= hand.subrange(3, 6));
    assert(row_tiles(rows[2].2, rows[2].3, 6) =~= hand.subrange(6, 8));
    assert(page_hand(rows) =~= hand);
    let lens = row_lens(rows);
    assert(lens =~= seq![3int, 3, 2]);
    reveal_with_fuel(count_from, 10);
    lemma_no_quad(hand, 0);
    lemma_no_quad(hand, 3);
    lemma_no_quad(hand, 6);
    reveal_with_fuel(greedy_rows, 4);
    assert(greedy_rows(hand, 0, lens));
    lemma_greedy_rows(hand, 0, lens);
    assert(full_mask(8) =~= suffix_mask(8, 0));
    reveal_with_fuel(runs_from, 4);
    let gs = runs_from(0, lens);
    assert(gs =~= seq![run(0, 3), run(3, 3), run(6, 2)]);
    lemma_run_face(hand, 0, 3);
    lemma_run_face(hand, 3, 3);
    lemma_run_face(hand, 6, 2);
    let fs = group_faces(hand, gs);
    assert(fs =~= seq![
        MeldFace { kind: MeldKind::Triplet, suit: Suit::Dragon, lo: 1 },
        MeldFace { kind: MeldKind::Sequence, suit: Suit::Manzu, lo: 2 },
        MeldFace { kind: MeldKind::Pair, suit: Suit::Souzu, lo: 5 }
    ]);
    reveal_with_fuel(crate::yaku::count_pred, 5);
    assert(!crate::yaku::shousangen(fs) && !crate::yaku::daisangen(fs));
    assert(crate::yaku::yakuhai_count(fs, None, None) > 0);
    reveal(crate::yaku::yaku_flags);
    crate::yaku::lemma_yaku_list_contains(crate::yaku::yaku_flags(fs, None, None), YakuKind::Yakuhai);
}

proof fn lemma_chiitoitsu_hand()
    ensures
        hand_scores(YakuKind::Chiitoitsu),
{
    let rows = yaku_example_rows(YakuKind::Chiitoitsu);
    let hand = seq![
        Tile::new_spec(Suit::Manzu, 1, 0), Tile::new_spec(Suit::Manzu, 1, 1), Tile::new_spec(Suit::Manzu, 3, 2), Tile::new_spec(Suit::Manzu, 3, 3), Tile::new_spec(Suit::Souzu, 5, 4), Tile::new_spec(Suit::Souzu, 5, 5), Tile::new_spec(Suit::Souzu, 7, 6), Tile::new_spec(Suit::Souzu, 7, 7), Tile::new_spec(Suit::Pinzu, 2, 8), Tile::new_spec(Suit::Pinzu, 2, 9), Tile::new_spec(Suit::Pinzu, 4, 10), Tile::new_spec(Suit::Pinzu, 4, 11), Tile::new_spec(Suit::Wind, 1, 12), Tile::new_spec(Suit::Wind, 1, 13)
    ];
    reveal_with_fuel(page_hand, 8);
    reveal_with_fuel(rows_offset, 8);
    assert(rows.drop_last().drop_last().drop_last().drop_last().drop_last().drop_last().drop_last() =~= Seq::<(&'static str, MeldKind, Suit, Seq<u8>)>::empty());
    assert(row_tiles(rows[0].2, rows[0].3, 0) =~= hand.subrange(0, 2));
    assert(row_tiles(rows[1].2, rows[1].3, 2) =~= hand.subrange(2, 4));
    assert(row_tiles(rows[2].2, rows[2].3, 4) =~= hand.subrange(4, 6));
    assert(row_tiles(rows[3].2, rows[3].3, 6) =~= hand.subrange(6, 8));
    assert(row_tiles(rows[4].2, rows[4].3, 8) =~= hand.subrange(8, 10));
    assert(row_tiles(rows[5].2, rows[5].3, 10) =~= hand.subrange(10, 12));
    assert(row_tiles(rows[6].2, rows[6].3, 12) =~= hand.subrange(12, 14));
    assert(page_hand(rows) =~= hand);
    let lens = row_lens(rows);
    assert(lens =~= seq![2int, 2, 2, 2, 2, 2, 2]);
    reveal_with_fuel(count_from, 16);
    lemma_no_quad(hand, 0);
    lemma_no_tri(hand, 0);
    lemma_no_quad(hand, 2);
    lemma_no_tri(hand, 2);
    lemma_no_quad(hand, 4);
    lemma_no_tri(hand, 4);
    lemma_no_quad(hand, 6);
    lemma_no_tri(hand, 6);
    lemma_no_quad(hand, 8);
    lemma_no_tri(hand, 8);
    lemma_no_quad(hand, 10);
    lemma_no_tri(hand, 10);
    lemma_no_quad(hand, 12);
    reveal_with_fuel(greedy_rows, 8);
    assert(greedy_rows(hand, 0, lens));
    lemma_greedy_rows(hand, 0, lens);
    assert(full_mask(14) =~= suffix_mask(14, 0));
    reveal_with_fuel(runs_from, 8);
    let gs = runs_from(0, lens);
    assert(gs =~= seq![run(0, 2), run(2, 2), run(4, 2), run(6, 2), run(8, 2), run(10, 2), run(12, 2)]);
    lemma_run_face(hand, 0, 2);
    lemma_run_face(hand, 2, 2);
    lemma_run_face(hand, 4, 2);
    lemma_run_face(hand, 6, 2);
    lemma_run_face(hand, 8, 2);
    lemma_run_face(hand, 10, 2);
    lemma_run_face(hand, 12, 2);
    let fs = group_faces(hand, gs);
    assert(fs =~= seq![
        MeldFace { kind: MeldKind::Pair, suit: Suit::Manzu, lo: 1 },
        MeldFace { kind: MeldKind::Pair, suit: Suit::Manzu, lo: 3 },
        MeldFace { kind: MeldKind::Pair, suit: Suit::Souzu, lo: 5 },
        MeldFace { kind: MeldKind::Pair, suit: Suit::Souzu, lo: 7 },
        MeldFace { kind: MeldKind::Pair, suit: Suit::Pinzu, lo: 2 },
        MeldFace { kind: MeldKind::Pair, suit: Suit::Pinzu, lo: 4 },
        MeldFace { kind: MeldKind::Pair, suit: Suit::Wind, lo: 1 }
    ]);
    reveal_with_fuel(crate::yaku::count_pred, 9);
    assert forall|i: int| 0 <= i < fs.len() implies #[trigger] crate::yaku::cnt(fs, crate::yaku::FacePred::PairAt(fs[i].suit, fs[i].lo)) == 1 by {
        if i == 0 {} else if i == 1 {} else if i == 2 {} else if i == 3 {} else if i == 4 {} else if i == 5 {} else {}
    }
    assert(crate::yaku::chiitoitsu(fs));
    reveal(crate::yaku::yaku_flags);
    crate::yaku::lemma_yaku_list_contains(crate::yaku::yaku_flags(fs, None, None), YakuKind::Chiitoitsu);
}

proof fn lemma_chanta_hand()
    ensures
        hand_scores(YakuKind::Chanta),
{
    let rows = yaku_example_rows(YakuKind::Chanta);
    let hand = seq![
        Tile::new_spec(Suit::Manzu, 1, 0), Tile::new_spec(Suit::Manzu, 2, 1), Tile::new_spec(Suit::Manzu, 3, 2), Tile::new_spec(Suit::Souzu, 7, 3), Tile::new_spec(Suit::Souzu, 8, 4), Tile::new_spec(Suit::Souzu, 9, 5), Tile::new_spec(Suit::Wind, 1, 6), Tile::new_spec(Suit::Wind, 1, 7), Tile::new_spec(Suit::Wind, 1, 8), Tile::new_spec(Suit::Pinzu, 9, 9), Tile::new_spec(Suit::Pinzu, 9, 10), Tile::new_spec(Suit::Pinzu, 9, 11), Tile::new_spec(Suit::Manzu, 1, 12), Tile::new_spec(Suit::Manzu, 1, 13)
    ];
    reveal_with_fuel(page_hand, 6);
    reveal_with_fuel(rows_offset, 6);
    assert(rows.drop_last().drop_last().drop_last().drop_last().drop_last() =~= Seq::<(&'static str, MeldKind, Suit, Seq<u8>)>::empty());
    assert(row_tiles(rows[0].2, rows[0].3, 0) =~= hand.subrange(0, 3));
    assert(row_tiles(rows[1].2, rows[1].3, 3) =~= hand.subrange(3, 6));
    assert(row_tiles(rows[2].2, rows[2].3, 6) =~= hand.subrange(6, 9));
    assert(row_tiles(rows[3].2, rows[3].3, 9) =~= hand.subrange(9, 12));
    assert(row_tiles(rows[4].2, rows[4].3, 12) =~= hand.subrange(12, 14));
    assert(page_hand(rows) =~= hand);
    let lens = row_lens(rows);
    assert(lens =~= seq![3int, 3, 3, 3, 2]);
    reveal_with_fuel(count_from, 16);
    lemma_no_quad(hand, 0);
    lemma_no_quad(hand, 3);
    lemma_no_quad(hand, 6);
    lemma_no_quad(hand, 9);
    lemma_no_quad(hand, 12);
    reveal_with_fuel(greedy_rows, 6);
    assert(greedy_rows(hand, 0, lens));
    lemma_greedy_rows(hand, 0, lens);
    assert(full_mask(14) =~= suffix_mask(14, 0));
    reveal_with_fuel(runs_from, 6);
    let gs = runs_from(0, lens);
    assert(gs =~= seq![run(0, 3), run(3, 3), run(6, 3), run(9, 3), run(12, 2)]);
    lemma_run_face(hand, 0, 3);
    lemma_run_face(hand, 3, 3);
    lemma_run_face(hand, 6, 3);
    lemma_run_face(hand, 9, 3);
    lemma_run_face(hand, 12, 2);
    let fs = group_faces(hand, gs);
    assert(fs =~= seq![
        MeldFace { kind: MeldKind::Sequence, suit: Suit::Manzu, lo: 1 },
        MeldFace { kind: MeldKind::Sequence, suit: Suit::Souzu, lo: 7 },
        MeldFace { kind: MeldKind::Triplet, suit: Suit::Wind, lo: 1 },
        MeldFace { kind: MeldKind::Triplet, suit: Suit::Pinzu, lo: 9 },
        MeldFace { kind: MeldKind::Pair, suit: Suit::Manzu, lo: 1 }
    ]);
    reveal_with_fuel(crate::yaku::count_pred, 7);
    assert(!crate::yaku::junchan(fs));
    assert(!crate::yaku::honroutou(fs));
    assert(crate::yaku::chanta(fs));
    reveal(crate::yaku::yaku_flags);
    crate::yaku::lemma_yaku_list_contains(crate::yaku::yaku_flags(fs, None, None), YakuKind::Chanta);
}

proof fn lemma_ryanpeikou_hand()
    ensures
        hand_scores(YakuKind::Ryanpeikou),
{
    let rows = yaku_example_rows(YakuKind::Ryanpeikou);
    let hand = seq![
        Tile::new_spec(Suit::Manzu, 2, 0), Tile::new_spec(Suit::Manzu, 3, 1), Tile::new_spec(Suit::Manzu, 4, 2), Tile::new_spec(Suit::Manzu, 2, 3), Tile::new_spec(Suit::Manzu, 3, 4), Tile::new_spec(Suit::Manzu, 4, 5), Tile::new_spec(Suit::Manzu, 5, 6), Tile::new_spec(Suit::Manzu, 6, 7), Tile::new_spec(Suit::Manzu, 7, 8), Tile::new_spec(Suit::Manzu, 5, 9), Tile::new_spec(Suit::Manzu, 6, 10), Tile::new_spec(Suit::Manzu, 7, 11), Tile::new_spec(Suit::Souzu, 8, 12), Tile::new_spec(Suit::Souzu, 8, 13)
    ];
    reveal_with_fuel(page_hand, 6);
    reveal_with_fuel(rows_offset, 6);
    assert(rows.drop_last().drop_last().drop_last().drop_last().drop_last() =~= Seq::<(&'static str, MeldKind, Suit, Seq<u8>)>::empty());
    assert(row_tiles(rows[0].2, rows[0].3, 0) =~= hand.subrange(0, 3));
    assert(row_tiles(rows[1].2, rows[1].3, 3) =~= hand.subrange(3, 6));
    assert(row_tiles(rows[2].2, rows[2].3, 6) =~= hand.subrange(6, 9));
    assert(row_tiles(rows[3].2, rows[3].3, 9) =~= hand.subrange(9, 12));
    assert(row_tiles(rows[4].2, rows[4].3, 12) =~= hand.subrange(12, 14));
    assert(page_hand(rows) =~= hand);
    let lens = row_lens(rows);
    assert(lens =~= seq![3int, 3, 3, 3, 2]);
    reveal_with_fuel(count_from, 16);
    lemma_no_quad(hand, 0);
    lemma_no_quad(hand, 3);
    lemma_no_quad(hand, 6);
    lemma_no_quad(hand, 9);
    lemma_no_quad(hand, 12);
    reveal_with_fuel(greedy_rows, 6);
    assert(greedy_rows(hand, 0, lens));
    lemma_greedy_rows(hand, 0, lens);
    assert(full_mask(14) =~= suffix_mask(14, 0));
    reveal_with_fuel(runs_from, 6);
    let gs = runs_from(0, lens);
    assert(gs =~= seq![run(0, 3), run(3, 3), run(6, 3), run(9, 3), run(12, 2)]);
    lemma_run_face(hand, 0, 3);
    lemma_run_face(hand, 3, 3);
    lemma_run_face(hand, 6, 3);
    lemma_run_face(hand, 9, 3);
    lemma_run_face(hand, 12, 2);
    let fs = group_faces(hand, gs);
    assert(fs =~= seq![
        MeldFace { kind: MeldKind::Sequence, suit: Suit::Manzu, lo: 2 },
        MeldFace { kind: MeldKind::Sequence, suit: Suit::Manzu, lo: 2 },
        MeldFace { kind: MeldKind::Sequence, suit: Suit::Manzu, lo: 5 },
        MeldFace { kind: MeldKind::Sequence, suit: Suit::Manzu, lo: 5 },
        MeldFace { kind: MeldKind::Pair, suit: Suit::Souzu, lo: 8 }
    ]);
    reveal_with_fuel(crate::yaku::count_pred, 7);
    assert(crate::yaku::doubled_pair(fs, 0, 2));
    assert(crate::yaku::ryanpeikou(fs));
    reveal(crate::yaku::yaku_flags);
    crate::yaku::lemma_yaku_list_contains(crate::yaku::yaku_flags(fs, None, None), YakuKind::Ryanpeikou);
}

proof fn lemma_sanshoku_doukou_hand()
    ensures
        hand_scores(YakuKind::SanshokuDoukou),
{
    let rows = yaku_example_rows(YakuKind::SanshokuDoukou);
    let hand = seq![
        Tile::new_spec(Suit::Manzu, 4, 0), Tile::new_spec(Suit::Manzu, 4, 1), Tile::new_spec(Suit::Manzu, 4, 2), Tile::new_spec(Suit::Souzu, 4, 3), Tile::new_spec(Suit::Souzu, 4, 4), Tile::new_spec(Suit::Souzu, 4, 5), Tile::new_spec(Suit::Pinzu, 4, 6), Tile::new_spec(Suit::Pinzu, 4, 7), Tile::new_spec(Suit::Pinzu, 4, 8), Tile::new_spec(Suit::Manzu, 2, 9), Tile::new_spec(Suit::Manzu, 3, 10), Tile::new_spec(Suit::Manzu, 4, 11), Tile::new_spec(Suit::Wind, 1, 12), Tile::new_spec(Suit::Wind, 1, 13)
    ];
    reveal_with_fuel(page_hand, 6);
    reveal_with_fuel(rows_offset, 6);
    assert(rows.drop_last().drop_last().drop_last().drop_last().drop_last() =~= Seq::<(&'static str, MeldKind, Suit, Seq<u8>)>::empty());
    assert(row_tiles(rows[0].2, rows[0].3, 0) =~= hand.subrange(0, 3));
    assert(row_tiles(rows[1].2, rows[1].3, 3) =~= hand.subrange(3, 6));
    assert(row_tiles(rows[2].2, rows[2].3, 6) =~= hand.subrange(6, 9));
    assert(row_tiles(rows[3].2, rows[3].3, 9) =~= hand.subrange(9, 12));
    assert(row_tiles(rows[4].2, rows[4].3, 12) =~= hand.subrange(12, 14));
    assert(page_hand(rows) =~= hand);
    let lens = row_lens(rows);
    assert(lens =~= seq![3int, 3, 3, 3, 2]);
    reveal_with_fuel(count_from, 16);
    assert(hand == doukou_hand());
    lemma_doukou_quads_fail();
    lemma_no_quad(hand, 3);
    lemma_no_quad(hand, 6);
    lemma_no_quad(hand, 9);
    lemma_no_quad(hand, 12);
    reveal_with_fuel(greedy_rows, 6);
    assert(greedy_rows(hand, 0, lens));
    lemma_greedy_rows(hand, 0, lens);
    assert(full_mask(14) =~= suffix_mask(14, 0));
    reveal_with_fuel(runs_from, 6);
    let gs = runs_from(0, lens);
    assert(gs =~= seq![run(0, 3), run(3, 3), run(6, 3), run(9, 3), run(12, 2)]);
    lemma_run_face(hand, 0, 3);
    lemma_run_face(hand, 3, 3);
    lemma_run_face(hand, 6, 3);
    lemma_run_face(hand, 9, 3);
    lemma_run_face(hand, 12, 2);
    let fs = group_faces(hand, gs);
    assert(fs =~= seq![
        MeldFace { kind: MeldKind::Triplet, suit: Suit::Manzu, lo: 4 },
        MeldFace { kind: MeldKind::Triplet, suit: Suit::Souzu, lo: 4 },
        MeldFace { kind: MeldKind::Triplet, suit: Suit::Pinzu, lo: 4 },
        MeldFace { kind: MeldKind::Sequence, suit: Suit::Manzu, lo: 2 },
        MeldFace { kind: MeldKind::Pair, suit: Suit::Wind, lo: 1 }
    ]);
    reveal_with_fuel(crate::yaku::count_pred, 7);
    assert(crate::yaku::cnt(fs, crate::yaku::FacePred::TripletAt(Suit::Pinzu, 4)) > 0);
    assert(crate::yaku::sanshoku_doukou(fs));
    reveal(crate::yaku::yaku_flags);
    crate::yaku::lemma_yaku_list_contains(crate::yaku::yaku_flags(fs, None, None), YakuKind::SanshokuDoukou);
}

proof fn lemma_pinfu_hand()
    ensures
        hand_scores(YakuKind::Pinfu),
{
    let rows = yaku_example_rows(YakuKind::Pinfu);
    let hand = seq![
        Tile::new_spec(Suit::Manzu, 2, 0), Tile::new_spec(Suit::Manzu, 3, 1), Tile::new_spec(Suit::Manzu, 4, 2), Tile::new_spec(Suit::Manzu, 5, 3), Tile::new_spec(Suit::Manzu, 6, 4), Tile::new_spec(Suit::Manzu, 7, 5), Tile::new_spec(Suit::Souzu, 3, 6), Tile::new_spec(Suit::Souzu, 4, 7), Tile::new_spec(Suit::Souzu, 5, 8), Tile::new_spec(Suit::Pinzu, 6, 9), Tile::new_spec(Suit::Pinzu, 7, 10), Tile::new_spec(Suit::Pinzu, 8, 11), Tile::new_spec(Suit::Manzu, 5, 12), Tile::new_spec(Suit::Manzu, 5, 13)
    ];
    reveal_with_fuel(page_hand, 6);
    reveal_with_fuel(rows_offset, 6);
    assert(rows.drop_last().drop_last().drop_last().drop_last().drop_last() =~= Seq::<(&'static str, MeldKind, Suit, Seq<u8>)>::empty());
    assert(row_tiles(rows[0].2, rows[0].3, 0) =~= hand.subrange(0, 3));
    assert(row_tiles(rows[1].2, rows[1].3, 3) =~= hand.subrange(3, 6));
    assert(row_tiles(rows[2].2, rows[2].3, 6) =~= hand.subrange(6, 9));
    assert(row_tiles(rows[3].2, rows[3].3, 9) =~= hand.subrange(9, 12));
    assert(row_tiles(rows[4].2, rows[4].3, 12) =~= hand.subrange(12, 14));
    assert(page_hand(rows) =~= hand);
    let lens = row_lens(rows);
    assert(lens =~= seq![3int, 3, 3, 3, 2]);
    reveal_with_fuel(count_from, 16);
    lemma_no_quad(hand, 0);
    lemma_no_quad(hand, 3);
    lemma_no_quad(hand, 6);
    lemma_no_quad(hand, 9);
    lemma_no_quad(hand, 12);
    reveal_with_fuel(greedy_rows, 6);
    assert(greedy_rows(hand, 0, lens));
    lemma_greedy_rows(hand, 0, lens);
    assert(full_mask(14) =~= suffix_mask(14, 0));
    reveal_with_fuel(runs_from, 6);
    let gs = runs_from(0, lens);
    assert(gs =~= seq![run(0, 3), run(3, 3), run(6, 3), run(9, 3), run(12, 2)]);
    lemma_run_face(hand, 0, 3);
    lemma_run_face(hand, 3, 3);
    lemma_run_face(hand, 6, 3);
    lemma_run_face(hand, 9, 3);
    lemma_run_face(hand, 12, 2);
    let fs = group_faces(hand, gs);
    assert(fs =~= seq![
        MeldFace { kind: MeldKind::Sequence, suit: Suit::Manzu, lo: 2 },
        MeldFace { kind: MeldKind::Sequence, suit: Suit::Manzu, lo: 5 },
        MeldFace { kind: MeldKind::Sequence, suit: Suit::Souzu, lo: 3 },
        MeldFace { kind: MeldKind::Sequence, suit: Suit::Pinzu, lo: 6 },
        MeldFace { kind: MeldKind::Pair, suit: Suit::Manzu, lo: 5 }
    ]);
    reveal_with_fuel(crate::yaku::count_pred, 7);
    assert(crate::yaku::pinfu(fs));
    reveal(crate::yaku::yaku_flags);
    crate::yaku::lemma_yaku_list_contains(crate::yaku::yaku_flags(fs, None, None), YakuKind::Pinfu);
}

/// The Sanshoku Doukō hand: three triplets of four, a 2-3-4 sequence and a
/// wind pair.
pub open spec fn doukou_hand() -> Seq<Tile> {
    seq![
        Tile::new_spec(Suit::Manzu, 4, 0), Tile::new_spec(Suit::Manzu, 4, 1), Tile::new_spec(Suit::Manzu, 4, 2), Tile::new_spec(Suit::Souzu, 4, 3), Tile::new_spec(Suit::Souzu, 4, 4), Tile::new_spec(Suit::Souzu, 4, 5), Tile::new_spec(Suit::Pinzu, 4, 6), Tile::new_spec(Suit::Pinzu, 4, 7), Tile::new_spec(Suit::Pinzu, 4, 8), Tile::new_spec(Suit::Manzu, 2, 9), Tile::new_spec(Suit::Manzu, 3, 10), Tile::new_spec(Suit::Manzu, 4, 11), Tile::new_spec(Suit::Wind, 1, 12), Tile::new_spec(Suit::Wind, 1, 13)
    ]
}

/// The positions left after the only kong of the Sanshoku Doukō hand.
pub open spec fn doukou_rest(p: int) -> bool {
    (3 <= p <= 10) || p == 12 || p == 13
}

/// No meld of the positions left after that kong holds the lone 2.
proof fn lemma_doukou_two_alone(g: Seq<int>)
    requires
        increasing(g),
        forall|i: int| 0 <= i < g.len() ==> doukou_rest(#[trigger] g[i]),
        g.contains(9),
    ensures
        group_kind(doukou_hand(), g) is None,
{
    let hand = doukou_hand();
    assert forall|p: int| doukou_rest(p) implies !is_flower(#[trigger] hand[p]) && (p == 9 || p == 10
        || hand[p].suit != Suit::Manzu) by {
        if p == 3 {} else if p == 4 {} else if p == 5 {} else if p == 6 {} else if p == 7 {} else if p == 8 {}
        else if p == 9 {} else if p == 10 {} else if p == 12 {} else {}
    }
    assert(hand[9] == Tile::new_spec(Suit::Manzu, 2, 9));
    assert(hand[10] == Tile::new_spec(Suit::Manzu, 3, 10));
    if g.len() >= 2 {
        assert(doukou_rest(g[0]) && doukou_rest(g[1]));
    }
    if g.len() >= 3 {
        assert(doukou_rest(g[2]));
    }
    if g.len() >= 4 {
        assert(doukou_rest(g[3]));
    }
}

/// The only kong of the Sanshoku Doukō hand leaves the lone 2 without a
/// meld, so no kong starts its split.
proof fn lemma_doukou_quads_fail()
    ensures
        quads_fail(doukou_hand(), 0),
{
    let hand = doukou_hand();
    let mask = suffix_mask(14, 0);
    assert forall|p: int| 0 < p < 14 && #[trigger] same_face(hand[0], hand[p]) implies p == 1 || p == 2 || p == 11 by {
        if p == 3 {} else if p == 4 {} else if p == 5 {} else if p == 6 {} else if p == 7 {} else if p == 8 {}
        else if p == 9 {} else if p == 10 {} else if p == 12 {} else if p == 13 {}
    }
    assert forall|j: int, k: int, l: int| 0 < j < k < l < hand.len() implies #[trigger] try_spec(
        hand,
        suffix_mask(hand.len(), 0),
        quad(0, j, k, l),
    ) is None by {
        if group_kind(hand, quad(0, j, k, l)) is Some {
            assert(same_face(hand[0], hand[j]) && same_face(hand[0], hand[k]) && same_face(hand[0], hand[l]));
            assert(j == 1 && k == 2 && l == 11);
            let g = quad(0, 1, 2, 11);
            let sub = clear_spec(mask, g);
            let r = mask_set(sub);
            assert forall|x: int| r.contains(x) <==> doukou_rest(x) by {
                if 0 <= x < 14 {
                    if x == 0 || x == 1 || x == 2 || x == 11 {
                        assert(g.contains(x)) by {
                            if x == 0 { assert(g[0] == x); } else if x == 1 { assert(g[1] == x); }
                            else if x == 2 { assert(g[2] == x); } else { assert(g[3] == x); }
                        }
                    }
                }
            }
            if decomposable(hand, r) {
                let gs = choose|gs: Seq<Seq<int>>| is_meld_partition(hand, gs, r);
                lemma_partition_exact(hand, gs, r);
                lemma_partition_groups_ok(hand, gs, r);
                assert(r.contains(9));
                let m = choose|m: int| 0 <= m < gs.len() && #[trigger] gs[m].contains(9);
                assert forall|i: int| 0 <= i < gs[m].len() implies doukou_rest(#[trigger] gs[m][i]) by {
                    assert(gs[m].contains(gs[m][i]));
                }
                lemma_doukou_two_alone(gs[m]);
            }
            lemma_search_sound(hand, sub);
        }
    }
}

#[verifier::rlimit(100)]
#[verifier::spinoff_prover]
proof fn lemma_kokushi_musou_hand()
    ensures
        hand_scores(YakuKind::KokushiMusou),
{
    let rows = yaku_example_rows(YakuKind::KokushiMusou);
    let hand = seq![
        Tile::new_spec(Suit::Manzu, 1, 0), Tile::new_spec(Suit::Manzu, 1, 1), Tile::new_spec(Suit::Manzu, 9, 2),
        Tile::new_spec(Suit::Souzu, 1, 3), Tile::new_spec(Suit::Souzu, 9, 4), Tile::new_spec(Suit::Pinzu, 1, 5),
        Tile::new_spec(Suit::Pinzu, 9, 6), Tile::new_spec(Suit::Wind, 1, 7), Tile::new_spec(Suit::Wind, 2, 8),
        Tile::new_spec(Suit::Wind, 3, 9), Tile::new_spec(Suit::Wind, 4, 10), Tile::new_spec(Suit::Dragon, 1, 11),
        Tile::new_spec(Suit::Dragon, 2, 12), Tile::new_spec(Suit::Dragon, 3, 13)
    ];
    reveal_with_fuel(page_hand, 14);
    reveal_with_fuel(rows_offset, 14);
    assert(rows.drop_last().drop_last().drop_last().drop_last().drop_last().drop_last().drop_last().drop_last().drop_last().drop_last().drop_last().drop_last().drop_last() =~= Seq::<(&'static str, MeldKind, Suit, Seq<u8>)>::empty());
    assert(row_tiles(rows[0].2, rows[0].3, 0) =~= hand.subrange(0, 2));
    assert(row_tiles(rows[1].2, rows[1].3, 2) =~= hand.subrange(2, 3));
    assert(row_tiles(rows[2].2, rows[2].3, 3) =~= hand.subrange(3, 4));
    assert(row_tiles(rows[3].2, rows[3].3, 4) =~= hand.subrange(4, 5));
    assert(row_tiles(rows[4].2, rows[4].3, 5) =~= hand.subrange(5, 6));
    assert(row_tiles(rows[5].2, rows[5].3, 6) =~= hand.subrange(6, 7));
    assert(row_tiles(rows[6].2, rows[6].3, 7) =~= hand.subrange(7, 8));
    assert(row_tiles(rows[7].2, rows[7].3, 8) =~= hand.subrange(8, 9));
    assert(row_tiles(rows[8].2, rows[8].3, 9) =~= hand.subrange(9, 10));
    assert(row_tiles(rows[9].2, rows[9].3, 10) =~= hand.subrange(10, 11));
    assert(row_tiles(rows[10].2, rows[10].3, 11) =~= hand.subrange(11, 12));
    assert(row_tiles(rows[11].2, rows[11].3, 12) =~= hand.subrange(12, 13));
    assert(row_tiles(rows[12].2, rows[12].3, 13) =~= hand.subrange(13, 14));
    assert(page_hand(rows) =~= hand);
    assert forall|i: int| 0 <= i < 14 implies #[trigger] orphan_index(hand[i]) >= 0 by {
        if i == 0 {} else if i == 1 {} else if i == 2 {} else if i == 3 {} else if i == 4 {} else if i == 5 {}
        else if i == 6 {} else if i == 7 {} else if i == 8 {} else if i == 9 {} else if i == 10 {} else if i == 11 {}
        else if i == 12 {} else {}
    }
    assert forall|k: int| 0 <= k < 13 implies #[trigger] shows_face(hand, k) by {
        assert(orphan_index(hand[k + 1]) == k) by {
            if k == 0 {} else if k == 1 {} else if k == 2 {} else if k == 3 {} else if k == 4 {} else if k == 5 {}
            else if k == 6 {} else if k == 7 {} else if k == 8 {} else if k == 9 {} else if k == 10 {} else if k == 11 {}
            else {}
        }
    }
    assert(is_kokushi(hand));
    lemma_kokushi_not_melds(hand);
    lemma_search_sound(hand, full_mask(14));
    assert(mask_set(full_mask(14)) =~= all_positions(14));
    assert(search_spec(hand, full_mask(14)) is None);
    assert(orphan_index(hand[0]) == orphan_index(hand[1]));
    assert(exists|i: int, j: int| 0 <= i < j < hand.len() && orphan_index(hand[i]) == orphan_index(hand[j])) by {
        assert(0 <= 0int < 1int < hand.len() && orphan_index(hand[0]) == orphan_index(hand[1]));
    }
    let (i, j) = kokushi_pair(hand);
    assert(0 <= i < j < 14 && orphan_index(hand[i]) == orphan_index(hand[j]));
    lemma_orphan_index_face(hand[i], hand[j]);
    lemma_kokushi_reading_groups(hand, i, j);
    assert(selection_groups(hand) == Some(kokushi_groups(14, i, j)));
    let d = detected_spec(group_faces(hand, kokushi_groups(14, i, j)), None, None);
    assert(d == seq![YakuKind::KokushiMusou]);
    assert(d[0] == YakuKind::KokushiMusou);
}

/// The example hand of a yaku page splits as the validator splits it and
/// scores that yaku.
pub open spec fn hand_scores(yk: YakuKind) -> bool {
    let hand = page_hand(yaku_example_rows(yk));
    match selection_groups(hand) {
        Some(gs) => detected_spec(group_faces(hand, gs), None, None).contains(yk),
        None => false,
    }
}

/// The tiles of tile groups, group after group.
pub open spec fn groups_tiles(groups: Seq<TileGroup>) -> Seq<Tile>
    decreases groups.len(),
{
    if groups.len() == 0 {
        Seq::empty()
    } else {
        groups_tiles(groups.drop_last()) + groups.last().tiles@
    }
}

proof fn lemma_rows_offset_prefix(rows: Seq<(&'static str, MeldKind, Suit, Seq<u8>)>, g: int)
    requires
        0 <= g < rows.len(),
    ensures
        rows_offset(rows.drop_last(), g) == rows_offset(rows, g),
    decreases g,
{
    if g > 0 {
        lemma_rows_offset_prefix(rows, g - 1);
    }
}

/// Groups that show example rows hold the rows' hand.
pub proof fn lemma_groups_tiles(rows: Seq<(&'static str, MeldKind, Suit, Seq<u8>)>, groups: Seq<TileGroup>)
    requires
        groups_of_rows(rows, groups),
    ensures
        groups_tiles(groups) == page_hand(rows),
    decreases rows.len(),
{
    if rows.len() > 0 {
        let r2 = rows.drop_last();
        let g2 = groups.drop_last();
        assert forall|g: int| 0 <= g < r2.len() implies {
            &&& (#[trigger] g2[g]).label == r2[g].0
            &&& g2[g].subtitle is None
            &&& !g2[g].framed
            &&& g2[g].tiles@ == row_tiles(r2[g].2, r2[g].3, rows_offset(r2, g))
        } by {
            assert(groups[g].label == rows[g].0);
            lemma_rows_offset_prefix(rows, g);
        }
        lemma_groups_tiles(r2, g2);
        let k = rows.len() - 1;
        assert(groups[k].label == rows[k].0);
    }
}

/// Every yaku page but Chicken Hand's shows a hand that the validator
/// splits and that scores the page's yaku, with no round wind given.
pub proof fn lemma_yaku_page_hands_score(yk: YakuKind, groups: Seq<TileGroup>)
    requires
        yk != YakuKind::ChickenHand,
        groups_of_rows(yaku_example_rows(yk), groups),
    ensures
        selection_groups(groups_tiles(groups)) is Some,
        detected_spec(
            group_faces(groups_tiles(groups), selection_groups(groups_tiles(groups))->0),
            None,
            None,
        ).contains(yk),
{
    lemma_groups_tiles(yaku_example_rows(yk), groups);
    match yk {
        YakuKind::Tanyao => lemma_tanyao_hand(),
        YakuKind::Toitoi => lemma_toitoi_hand(),
        YakuKind::Honroutou => lemma_honroutou_hand(),
        YakuKind::Iipeikou => lemma_iipeikou_hand(),
        YakuKind::Shousangen => lemma_shousangen_hand(),
        YakuKind::Daisangen => lemma_daisangen_hand(),
        YakuKind::Chinitsu => lemma_chinitsu_hand(),
        YakuKind::SanshokuDoujun => lemma_sanshoku_doujun_hand(),
        YakuKind::Junchan => lemma_junchan_hand(),
        YakuKind::Ittsu => lemma_ittsu_hand(),
        YakuKind::Honitsu => lemma_honitsu_hand(),
        YakuKind::Yakuhai => lemma_yakuhai_hand(),
        YakuKind::Chiitoitsu => lemma_chiitoitsu_hand(),
        YakuKind::KokushiMusou => lemma_kokushi_musou_hand(),
        YakuKind::Chanta => lemma_chanta_hand(),
        YakuKind::Ryanpeikou => lemma_ryanpeikou_hand(),
        YakuKind::SanshokuDoukou => lemma_sanshoku_doukou_hand(),
        YakuKind::Pinfu => lemma_pinfu_hand(),
        YakuKind::ChickenHand => {},
    }
}

} // verus!
