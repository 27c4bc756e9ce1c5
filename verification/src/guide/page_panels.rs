//! Yaku tablets under the guide's example structures.

use vstd::prelude::*;
use crate::hand::{is_selection_split, selection_groups, validate_selection, selection_splits};
use crate::tiles::{Tile, YakuKind, YAKU_KIND_COUNT};
use crate::yaku::{detect_yaku_with_wind, detected_spec, faces_of, group_faces};

verus! {

/// The yaku of a split, without Chicken Hand.
pub open spec fn structure_yaku_spec(y: Seq<YakuKind>) -> Seq<YakuKind> {
    y.filter(|k: YakuKind| k != YakuKind::ChickenHand)
}

/// Position of a yaku kind in declaration order.
pub open spec fn yaku_ordinal(k: YakuKind) -> int {
    match k {
        YakuKind::ChickenHand => 0,
        YakuKind::Tanyao => 1,
        YakuKind::Toitoi => 2,
        YakuKind::Shousangen => 3,
        YakuKind::Daisangen => 4,
        YakuKind::Yakuhai => 5,
        YakuKind::Iipeikou => 6,
        YakuKind::Ryanpeikou => 7,
        YakuKind::SanshokuDoujun => 8,
        YakuKind::SanshokuDoukou => 9,
        YakuKind::Ittsu => 10,
        YakuKind::Honitsu => 11,
        YakuKind::Chinitsu => 12,
        YakuKind::Junchan => 13,
        YakuKind::Honroutou => 14,
        YakuKind::Chanta => 15,
        YakuKind::Chiitoitsu => 16,
        YakuKind::KokushiMusou => 17,
        YakuKind::Pinfu => 18,
    }
}

fn yaku_ordinal_exec(k: YakuKind) -> (r: usize)
    ensures
        r == yaku_ordinal(k),
        r < YAKU_KIND_COUNT,
{
    match k {
        YakuKind::ChickenHand => 0,
        YakuKind::Tanyao => 1,
        YakuKind::Toitoi => 2,
        YakuKind::Shousangen => 3,
        YakuKind::Daisangen => 4,
        YakuKind::Yakuhai => 5,
        YakuKind::Iipeikou => 6,
        YakuKind::Ryanpeikou => 7,
        YakuKind::SanshokuDoujun => 8,
        YakuKind::SanshokuDoukou => 9,
        YakuKind::Ittsu => 10,
        YakuKind::Honitsu => 11,
        YakuKind::Chinitsu => 12,
        YakuKind::Junchan => 13,
        YakuKind::Honroutou => 14,
        YakuKind::Chanta => 15,
        YakuKind::Chiitoitsu => 16,
        YakuKind::KokushiMusou => 17,
        YakuKind::Pinfu => 18,
    }
}

/// Sort key of a yaku kind: its entry in `rank` (indexed by declaration order).
pub open spec fn rank_of(rank: Seq<u32>, k: YakuKind) -> u32 {
    rank[yaku_ordinal(k)]
}

/// `x` inserted after every leading entry whose key is not above its own.
pub open spec fn insert_by_rank(s: Seq<YakuKind>, x: YakuKind, rank: Seq<u32>) -> Seq<YakuKind>
    decreases s.len(),
{
    if s.len() == 0 {
        seq![x]
    } else if rank_of(rank, s[0]) > rank_of(rank, x) {
        seq![x] + s
    } else {
        seq![s[0]] + insert_by_rank(s.drop_first(), x, rank)
    }
}

/// Stable sort by rank: lowest rank first, equal ranks in their given order.
pub open spec fn sort_by_rank(s: Seq<YakuKind>, rank: Seq<u32>) -> Seq<YakuKind>
    decreases s.len(),
{
    if s.len() == 0 {
        Seq::empty()
    } else {
        insert_by_rank(sort_by_rank(s.drop_last(), rank), s.last(), rank)
    }
}

/// Ordered by rank, lowest first.
pub open spec fn rank_sorted(s: Seq<YakuKind>, rank: Seq<u32>) -> bool {
    forall|i: int, j: int| 0 <= i < j < s.len() ==> rank_of(rank, s[i]) <= rank_of(rank, s[j])
}

proof fn lemma_insert_at(s: Seq<YakuKind>, x: YakuKind, rank: Seq<u32>, p: int)
    requires
        0 <= p <= s.len(),
        forall|i: int| 0 <= i < p ==> rank_of(rank, #[trigger] s[i]) <= rank_of(rank, x),
        p < s.len() ==> rank_of(rank, s[p]) > rank_of(rank, x),
    ensures
        insert_by_rank(s, x, rank) == s.insert(p, x),
    decreases s.len(),
{
    if s.len() == 0 {
        assert(s.insert(p, x) =~= seq![x]);
    } else if p == 0 {
        assert(s.insert(0, x) =~= seq![x] + s);
    } else {
        let t = s.drop_first();
        assert forall|i: int| 0 <= i < p - 1 implies rank_of(rank, #[trigger] t[i]) <= rank_of(rank, x) by {
            assert(t[i] == s[i + 1]);
        }
        lemma_insert_at(t, x, rank, p - 1);
        assert(s.insert(p, x) =~= seq![s[0]] + t.insert(p - 1, x));
    }
}

proof fn lemma_insert_keeps(s: Seq<YakuKind>, x: YakuKind, rank: Seq<u32>)
    requires
        rank_sorted(s, rank),
    ensures
        rank_sorted(insert_by_rank(s, x, rank), rank),
        insert_by_rank(s, x, rank).to_multiset() == s.to_multiset().insert(x),
    decreases s.len(),
{
    broadcast use vstd::seq_lib::group_to_multiset_ensures;
    if s.len() == 0 {
        assert(seq![x] =~= Seq::<YakuKind>::empty().push(x));
    } else if rank_of(rank, s[0]) > rank_of(rank, x) {
        let r = seq![x] + s;
        assert forall|i: int, j: int| 0 <= i < j < r.len() implies rank_of(rank, r[i]) <= rank_of(rank, r[j]) by {
            if i > 0 {
                assert(r[i] == s[i - 1] && r[j] == s[j - 1]);
            } else {
                assert(r[j] == s[j - 1]);
                assert(rank_of(rank, s[0]) <= rank_of(rank, s[j - 1]));
            }
        }
        vstd::seq_lib::lemma_multiset_commutative(seq![x], s);
        assert(seq![x] =~= Seq::<YakuKind>::empty().push(x));
    } else {
        let t = s.drop_first();
        assert(rank_sorted(t, rank)) by {
            assert forall|i: int, j: int| 0 <= i < j < t.len() implies rank_of(rank, t[i]) <= rank_of(rank, t[j]) by {
                assert(t[i] == s[i + 1] && t[j] == s[j + 1]);
            }
        }
        lemma_insert_keeps(t, x, rank);
        let u = insert_by_rank(t, x, rank);
        let r = seq![s[0]] + u;
        assert forall|i: int, j: int| 0 <= i < j < r.len() implies rank_of(rank, r[i]) <= rank_of(rank, r[j]) by {
            if i > 0 {
                assert(r[i] == u[i - 1] && r[j] == u[j - 1]);
            } else {
                assert(r[j] == u[j - 1]);
                assert(u.to_multiset().count(u[j - 1]) > 0);
                assert(s.to_multiset().insert(x).count(u[j - 1]) > 0);
                if u[j - 1] != x {
                    assert(t.to_multiset().count(u[j - 1]) > 0);
                    assert(t.contains(u[j - 1]));
                    let m = choose|m: int| 0 <= m < t.len() && t[m] == u[j - 1];
                    assert(t[m] == s[m + 1]);
                }
            }
        }
        vstd::seq_lib::lemma_multiset_commutative(seq![s[0]], u);
        vstd::seq_lib::lemma_multiset_commutative(seq![s[0]], t);
        assert(s =~= seq![s[0]] + t);
    }
}

/// The rank sort orders by rank and keeps every entry as often as it came.
pub proof fn lemma_sort_by_rank(s: Seq<YakuKind>, rank: Seq<u32>)
    ensures
        rank_sorted(sort_by_rank(s, rank), rank),
        sort_by_rank(s, rank).to_multiset() == s.to_multiset(),
    decreases s.len(),
{
    broadcast use vstd::seq_lib::group_to_multiset_ensures;
    if s.len() > 0 {
        lemma_sort_by_rank(s.drop_last(), rank);
        lemma_insert_keeps(sort_by_rank(s.drop_last(), rank), s.last(), rank);
        assert(s =~= s.drop_last().push(s.last()));
    }
}

/// Yaku scored by a complete example structure (excluding chicken hand),
/// ordered as the tablets show them: by each kind's rank in the base-score
/// order (`base_score_rank`, indexed by declaration order; lowest first),
/// equal ranks in detection order. Empty when the tiles do not split.
pub fn example_structure_yaku(tiles: &[Tile], base_score_rank: &[u32]) -> (r: Vec<YakuKind>)
    requires
        base_score_rank@.len() == YAKU_KIND_COUNT,
    ensures
        selection_groups(tiles@) is None ==> r@.len() == 0,
        selection_groups(tiles@) matches Some(gs) ==> r@ == sort_by_rank(
            structure_yaku_spec(detected_spec(group_faces(tiles@, gs), None, None)),
            base_score_rank@,
        ),
        !(tiles@.len() > 0 && selection_splits(tiles@)) ==> r@.len() == 0,
        tiles@.len() > 0 && selection_splits(tiles@) ==> exists|sets: Seq<crate::hand::MeldSet>|
            #[trigger] is_selection_split(tiles@, sets) && r@ == sort_by_rank(
                structure_yaku_spec(detected_spec(faces_of(sets), None, None)),
                base_score_rank@,
            ),
{
    let sets = match validate_selection(tiles) {
        Some(s) => s,
        None => {
            return Vec::new();
        },
    };
    let detected = detect_yaku_with_wind(sets.as_slice(), None, None);
    let mut kept: Vec<YakuKind> = Vec::new();
    let mut i: usize = 0;
    while i < detected.len()
        invariant
            i <= detected.len(),
            kept@ == structure_yaku_spec(detected@.take(i as int)),
        decreases detected.len() - i,
    {
        proof {
            let t = detected@.take(i + 1);
            assert(t.drop_last() =~= detected@.take(i as int));
            reveal_with_fuel(Seq::filter, 1);
        }
        if detected[i] != YakuKind::ChickenHand {
            kept.push(detected[i]);
        }
        i += 1;
    }
    assert(detected@.take(detected@.len() as int) =~= detected@);
    let mut out: Vec<YakuKind> = Vec::new();
    let mut k: usize = 0;
    while k < kept.len()
        invariant
            k <= kept.len(),
            base_score_rank@.len() == YAKU_KIND_COUNT,
            out@ == sort_by_rank(kept@.take(k as int), base_score_rank@),
        decreases kept.len() - k,
    {
        let x = kept[k];
        let kx = base_score_rank[yaku_ordinal_exec(x)];
        let mut p: usize = 0;
        while p < out.len() && base_score_rank[yaku_ordinal_exec(out[p])] <= kx
            invariant
                p <= out.len(),
                base_score_rank@.len() == YAKU_KIND_COUNT,
                kx == rank_of(base_score_rank@, x),
                forall|q: int| 0 <= q < p ==> rank_of(base_score_rank@, #[trigger] out@[q]) <= kx,
            decreases out.len() - p,
        {
            p += 1;
        }
        proof {
            lemma_insert_at(out@, x, base_score_rank@, p as int);
            let t = kept@.take(k + 1);
            assert(t.drop_last() =~= kept@.take(k as int));
            assert(t.last() == x);
        }
        out.insert(p, x);
        k += 1;
    }
    assert(kept@.take(kept@.len() as int) =~= kept@);
    proof {
        crate::yaku::lemma_faces_of_groups(tiles@, sets@, selection_groups(tiles@)->0);
    }
    assert(is_selection_split(tiles@, sets@));
    out
}

/// The tablets under an example structure never show Chicken Hand, and
/// show every other yaku the structure scores.
pub proof fn lemma_structure_yaku_tablets(y: Seq<YakuKind>, k: YakuKind)
    ensures
        !structure_yaku_spec(y).contains(YakuKind::ChickenHand),
        k != YakuKind::ChickenHand ==> (structure_yaku_spec(y).contains(k) <==> y.contains(k)),
{
    broadcast use vstd::seq_lib::group_filter_ensures;
    let pred = |x: YakuKind| x != YakuKind::ChickenHand;
    let f = y.filter(pred);
    if f.contains(YakuKind::ChickenHand) {
        let i = choose|i: int| 0 <= i < f.len() && f[i] == YakuKind::ChickenHand;
        assert(pred(f[i]));
    }
    if k != YakuKind::ChickenHand {
        if f.contains(k) {
            y.lemma_filter_contains_rev(pred, k);
        }
        if y.contains(k) {
            let i = choose|i: int| 0 <= i < y.len() && y[i] == k;
            y.lemma_filter_contains(pred, i);
        }
    }
}

} // verus!
