//! Kokushi Musō end to end: a selection of the thirteen terminal and honor
//! faces with one doubled is not a meld split, is read as one pair and
//! twelve singles, and scores Kokushi Musō alone.

use vstd::prelude::*;
use vstd::set_lib::{lemma_int_range, lemma_len_subset, lemma_map_size_bound, set_int_range};
use crate::hand::{
    all_positions, decomposable, group_ok, is_flower, is_kokushi, is_meld_partition, kokushi_groups,
    is_selection_split, kokushi_split_of, lemma_kokushi_doubled, lemma_partition_exact, lemma_partition_groups_ok, same_face,
    set_kind, sets_match, orphan_index, shows_face, MeldKind, MeldSet,
};
use crate::tiles::{Tile, YakuKind};
use crate::yaku::{
    cnt, count_pred, detected_spec, first_natural, face_orphan_index, face_pred, face_spec, faces_of, group_faces,
    kokushi_hand, FacePred, MeldFace,
};

verus! {

/// No position of `s` shows face `m`.
pub open spec fn misses_face(tiles: Seq<Tile>, s: Set<int>, m: int) -> bool {
    forall|q: int| #[trigger] s.contains(q) ==> orphan_index(tiles[q]) != m
}

/// Twelve positions cannot show all thirteen terminal and honor faces.
proof fn lemma_twelve_miss_a_face(tiles: Seq<Tile>, s: Set<int>)
    requires
        is_kokushi(tiles),
        s.finite(),
        s.len() <= 12,
    ensures
        exists|m: int| 0 <= m < 13 && #[trigger] misses_face(tiles, s, m),
{
    let f = |q: int| orphan_index(tiles[q]);
    let y = s.map(f);
    lemma_map_size_bound(s, y, f);
    lemma_int_range(0, 13);
    if !(exists|m: int| 0 <= m < 13 && #[trigger] misses_face(tiles, s, m)) {
        assert(set_int_range(0, 13).subset_of(y)) by {
            assert forall|m: int| set_int_range(0, 13).contains(m) implies y.contains(m) by {
                assert(!misses_face(tiles, s, m));
                let q = choose|q: int| s.contains(q) && orphan_index(tiles[q]) == m;
                assert(f(q) == m);
            }
        }
        lemma_len_subset(set_int_range(0, 13), y);
    }
}

/// In a Kokushi Musō hand one face is doubled and no other: the only two
/// positions sharing a face are the doubled face's two.
pub proof fn lemma_kokushi_doubled_once(tiles: Seq<Tile>, i: int, j: int, a: int, b: int)
    requires
        is_kokushi(tiles),
        0 <= i < j < 14,
        orphan_index(tiles[i]) == orphan_index(tiles[j]),
        0 <= a < b < 14,
        orphan_index(tiles[a]) == orphan_index(tiles[b]),
    ensures
        a == i && b == j,
{
    if !(a == i && b == j) {
        let (x, y) = if b != j { (b, j) } else { (i, j) };
        let all = set_int_range(0, 14);
        lemma_int_range(0, 14);
        let s = all.remove(x).remove(y);
        assert(all.contains(x) && all.contains(y) && x != y);
        assert(s.len() == 12);
        lemma_twelve_miss_a_face(tiles, s);
        let m = choose|m: int| 0 <= m < 13 && #[trigger] misses_face(tiles, s, m);
        assert(shows_face(tiles, m));
        let q = choose|q: int| 0 <= q < tiles.len() && #[trigger] orphan_index(tiles[q]) == m;
        // Some position outside the two removed ones shows the face of `q`.
        let w: int = if q != x && q != y {
            q
        } else if b != j {
            if q == b {
                if a != j { a } else { i }
            } else {
                if i != b { i } else { a }
            }
        } else {
            a
        };
        assert(s.contains(w));
        assert(orphan_index(tiles[w]) == m);
    }
}

/// In a Kokushi Musō hand the only meld is the pair of the doubled face.
proof fn lemma_kokushi_only_meld(tiles: Seq<Tile>, i: int, j: int, g: Seq<int>)
    requires
        is_kokushi(tiles),
        0 <= i < j < 14,
        orphan_index(tiles[i]) == orphan_index(tiles[j]),
        group_ok(tiles, g),
        forall|q: int| 0 <= q < g.len() ==> 0 <= #[trigger] g[q] < 14,
    ensures
        g == seq![i, j],
{
    assert(orphan_index(tiles[g[0]]) >= 0);
    assert(orphan_index(tiles[g[1]]) >= 0);
    assert(!is_flower(tiles[g[0]]) && !is_flower(tiles[g[1]]));
    assert(g[0] < g[1]);
    if g.len() == 2 {
        lemma_kokushi_doubled_once(tiles, i, j, g[0], g[1]);
        assert(g =~= seq![i, j]);
    } else if g.len() == 3 {
        assert(orphan_index(tiles[g[2]]) >= 0);
        assert(g[1] < g[2]);
        if orphan_index(tiles[g[0]]) == orphan_index(tiles[g[1]]) && orphan_index(tiles[g[1]]) == orphan_index(tiles[g[2]]) {
            lemma_kokushi_doubled_once(tiles, i, j, g[0], g[1]);
            lemma_kokushi_doubled_once(tiles, i, j, g[1], g[2]);
        }
    } else {
        assert(orphan_index(tiles[g[2]]) >= 0);
        assert(g[1] < g[2]);
        lemma_kokushi_doubled_once(tiles, i, j, g[0], g[1]);
        lemma_kokushi_doubled_once(tiles, i, j, g[1], g[2]);
    }
}

/// A Kokushi Musō hand does not split into melds: its only meld is the pair
/// of the doubled face, which leaves twelve tiles over.
pub proof fn lemma_kokushi_not_melds(tiles: Seq<Tile>)
    requires
        is_kokushi(tiles),
    ensures
        !decomposable(tiles, all_positions(14)),
{
    lemma_kokushi_doubled(tiles);
    let (i, j) = choose|i: int, j: int| 0 <= i < j < 14 && orphan_index(tiles[i]) == orphan_index(tiles[j]);
    if decomposable(tiles, all_positions(14)) {
        let gs = choose|gs: Seq<Seq<int>>| is_meld_partition(tiles, gs, all_positions(14));
        lemma_partition_exact(tiles, gs, all_positions(14));
        lemma_partition_groups_ok(tiles, gs, all_positions(14));
        let x: int = if i != 0 { 0 } else if j != 1 { 1 } else { 2 };
        assert(all_positions(14).contains(x));
        let k = choose|k: int| 0 <= k < gs.len() && #[trigger] gs[k].contains(x);
        lemma_kokushi_only_meld(tiles, i, j, gs[k]);
        assert(gs[k] == seq![i, j]);
        let q = choose|q: int| 0 <= q < gs[k].len() && gs[k][q] == x;
        assert(seq![i, j][q] == x);
    }
}

/// Positions of the faces with the property.
pub open spec fn pred_positions(fs: Seq<MeldFace>, p: FacePred) -> Set<int> {
    Set::new(|k: int| 0 <= k < fs.len() && face_pred(p, fs[k]))
}

/// A count is the number of positions with the property.
proof fn lemma_count_is_positions(fs: Seq<MeldFace>, p: FacePred)
    ensures
        pred_positions(fs, p).finite(),
        count_pred(fs, p) == pred_positions(fs, p).len(),
    decreases fs.len(),
{
    if fs.len() == 0 {
        assert(pred_positions(fs, p) =~= Set::<int>::empty());
    } else {
        let init = fs.drop_last();
        lemma_count_is_positions(init, p);
        let last = fs.len() - 1;
        if face_pred(p, fs.last()) {
            assert(pred_positions(fs, p) =~= pred_positions(init, p).insert(last));
        } else {
            assert(pred_positions(fs, p) =~= pred_positions(init, p));
        }
    }
}

/// Position of the tile that the Kokushi Musō set `k` starts with.
pub open spec fn kokushi_pos(k: int, j: int) -> int {
    if k < j { k } else { k + 1 }
}

/// The faces of the Kokushi Musō sets: the pair of the doubled face where
/// it first appears, a single for every other tile.
proof fn lemma_kokushi_faces(tiles: Seq<Tile>, i: int, j: int)
    requires
        is_kokushi(tiles),
        0 <= i < j < 14,
        same_face(tiles[i], tiles[j]),
    ensures
        group_faces(tiles, kokushi_groups(14, i, j)).len() == 13,
        forall|k: int| 0 <= k < 13 ==> #[trigger] group_faces(tiles, kokushi_groups(14, i, j))[k] == (MeldFace {
            kind: if kokushi_pos(k, j) == i { MeldKind::Pair } else { MeldKind::Single },
            suit: tiles[kokushi_pos(k, j)].suit,
            lo: tiles[kokushi_pos(k, j)].rank,
        }),
{
    let gs = kokushi_groups(14, i, j);
    assert forall|k: int| 0 <= k < 13 implies #[trigger] group_faces(tiles, gs)[k] == (MeldFace {
        kind: if kokushi_pos(k, j) == i { MeldKind::Pair } else { MeldKind::Single },
        suit: tiles[kokushi_pos(k, j)].suit,
        lo: tiles[kokushi_pos(k, j)].rank,
    }) by {
        let q = kokushi_pos(k, j);
        assert(orphan_index(tiles[q]) >= 0);
        assert(!is_flower(tiles[q]));
        assert(first_natural(Seq::<Tile>::empty()) is None);
        let mk = set_kind(tiles, gs[k])->0;
        let mt = gs[k].map_values(|p: int| tiles[p]);
        if q == i {
            assert(gs[k] == seq![i, j]);
            assert(orphan_index(tiles[i]) >= 0 && orphan_index(tiles[j]) >= 0);
            assert(!is_flower(tiles[i]) && !is_flower(tiles[j]));
            assert(mt =~= seq![tiles[i], tiles[j]]);
            assert(mt.drop_last() =~= seq![tiles[i]]);
            assert(mt.drop_last().drop_last() =~= Seq::<Tile>::empty());
            assert(first_natural(mt.drop_last()) == Some(tiles[i]));
            assert(first_natural(mt) == Some(tiles[i]));
            assert(mk == MeldKind::Pair);
        } else {
            assert(gs[k] == seq![q]);
            assert(mt =~= seq![tiles[q]]);
            assert(mt.drop_last() =~= Seq::<Tile>::empty());
            assert(first_natural(mt) == Some(tiles[q]));
            assert(mk == MeldKind::Single);
        }
        assert(group_faces(tiles, gs)[k] == face_spec(mk, mt));
    }
}

/// The Kokushi Musō reading shows one pair, twelve singles, and each of the
/// thirteen terminal and honor faces once.
pub proof fn lemma_kokushi_reading(tiles: Seq<Tile>, sets: Seq<MeldSet>)
    requires
        is_kokushi(tiles),
        kokushi_split_of(tiles, sets),
    ensures
        kokushi_hand(faces_of(sets)),
{
    let (i, j) = choose|i: int, j: int|
        0 <= i < j < tiles.len() && same_face(tiles[i], tiles[j]) && #[trigger] sets_match(
            tiles,
            sets,
            kokushi_groups(tiles.len() as int, i, j),
        );
    crate::yaku::lemma_faces_of_groups(tiles, sets, kokushi_groups(14, i, j));
    lemma_kokushi_reading_groups(tiles, i, j);
}

/// The Kokushi Musō reading at the doubled face `i < j`, as positions,
/// shows one pair, twelve singles, and each of the thirteen terminal and
/// honor faces once.
pub proof fn lemma_kokushi_reading_groups(tiles: Seq<Tile>, i: int, j: int)
    requires
        is_kokushi(tiles),
        0 <= i < j < 14,
        same_face(tiles[i], tiles[j]),
    ensures
        kokushi_hand(group_faces(tiles, kokushi_groups(14, i, j))),
{
    lemma_kokushi_faces(tiles, i, j);
    let fs = group_faces(tiles, kokushi_groups(14, i, j));
    assert(orphan_index(tiles[i]) == orphan_index(tiles[j]));
    lemma_int_range(0, 13);
    lemma_count_is_positions(fs, FacePred::IsPair);
    assert(pred_positions(fs, FacePred::IsPair) =~= set![i]) by {
        assert forall|k: int| pred_positions(fs, FacePred::IsPair).contains(k) <==> k == i by {
            if 0 <= k < 13 {
                assert(fs[k] == group_faces(tiles, kokushi_groups(14, i, j))[k]);
            }
        }
    }
    assert(set![i].len() == 1);
    lemma_count_is_positions(fs, FacePred::IsSingle);
    assert(pred_positions(fs, FacePred::IsSingle) =~= set_int_range(0, 13).remove(i)) by {
        assert forall|k: int| pred_positions(fs, FacePred::IsSingle).contains(k) <==> set_int_range(0, 13).remove(i).contains(k) by {
            if 0 <= k < 13 {
                assert(fs[k] == group_faces(tiles, kokushi_groups(14, i, j))[k]);
            }
        }
    }
    assert forall|m: u8| m < 13 implies #[trigger] cnt(fs, FacePred::OrphanAt(m)) == 1 by {
        lemma_count_is_positions(fs, FacePred::OrphanAt(m));
        assert(shows_face(tiles, m as int));
        let q = choose|q: int| 0 <= q < tiles.len() && #[trigger] orphan_index(tiles[q]) == m as int;
        let km: int = if q == j { i } else if q < j { q } else { q - 1 };
        assert(kokushi_pos(km, j) == if q == j { i } else { q });
        assert forall|k: int| pred_positions(fs, FacePred::OrphanAt(m)).contains(k) <==> k == km by {
            if 0 <= k < 13 {
                assert(fs[k] == group_faces(tiles, kokushi_groups(14, i, j))[k]);
                let pk = kokushi_pos(k, j);
                assert(face_orphan_index(fs[k]) == orphan_index(tiles[pk]));
                if k != km && orphan_index(tiles[pk]) == m as int {
                    let pm = kokushi_pos(km, j);
                    assert(face_orphan_index(fs[km]) == orphan_index(tiles[pm]));
                    assert(pk != pm);
                    if pk < pm {
                        lemma_kokushi_doubled_once(tiles, i, j, pk, pm);
                    } else {
                        lemma_kokushi_doubled_once(tiles, i, j, pm, pk);
                    }
                }
            }
            if k == km {
                assert(fs[km] == group_faces(tiles, kokushi_groups(14, i, j))[km]);
                assert(face_orphan_index(fs[km]) == orphan_index(tiles[kokushi_pos(km, j)]));
            }
        }
        assert(pred_positions(fs, FacePred::OrphanAt(m)) =~= set![km]);
        assert(set![km].len() == 1);
    }
}

/// A Kokushi Musō selection does not split into melds, is read as one
/// pair and twelve singles, and that reading scores Kokushi Musō alone,
/// whatever the round winds.
pub proof fn lemma_kokushi_scores_alone(tiles: Seq<Tile>, sets: Seq<MeldSet>, round: Option<u8>, bonus: Option<u8>)
    requires
        is_kokushi(tiles),
        is_selection_split(tiles, sets),
    ensures
        !decomposable(tiles, all_positions(tiles.len() as int)),
        kokushi_split_of(tiles, sets),
        detected_spec(faces_of(sets), round, bonus) == seq![YakuKind::KokushiMusou],
{
    lemma_kokushi_not_melds(tiles);
    lemma_kokushi_reading(tiles, sets);
}

} // verus!
