//! Melds page: where extra gaps go between the melds of an example hand.

use vstd::prelude::*;
use crate::hand::{MeldSet, is_selection_split, selection_groups, sets_match, validate_selection, selection_splits};
use crate::tiles::Tile;

verus! {

/// Index of the last meld holding a tile id.
pub open spec fn meld_of_id(sets: Seq<MeldSet>, id: u32) -> Option<int>
    decreases sets.len(),
{
    if sets.len() == 0 {
        None
    } else if sets.last().tile_ids@.contains(id) {
        Some(sets.len() - 1)
    } else {
        meld_of_id(sets.drop_last(), id)
    }
}

/// Does a new meld start after position `i`?
pub open spec fn break_after(sets: Seq<MeldSet>, tiles: Seq<Tile>, i: int) -> bool {
    match (meld_of_id(sets, tiles[i].id), meld_of_id(sets, tiles[i + 1].id)) {
        (Some(a), Some(b)) => a != b,
        _ => false,
    }
}

/// Index of the last meld of the positions `gs` holding a tile id.
pub open spec fn group_of_id(tiles: Seq<Tile>, gs: Seq<Seq<int>>, id: u32) -> Option<int>
    decreases gs.len(),
{
    if gs.len() == 0 {
        None
    } else if gs.last().map_values(|p: int| tiles[p].id).contains(id) {
        Some(gs.len() - 1)
    } else {
        group_of_id(tiles, gs.drop_last(), id)
    }
}

/// Does a new meld of the split `gs` start after position `i`?
pub open spec fn group_break_after(tiles: Seq<Tile>, gs: Seq<Seq<int>>, i: int) -> bool {
    match (group_of_id(tiles, gs, tiles[i].id), group_of_id(tiles, gs, tiles[i + 1].id)) {
        (Some(a), Some(b)) => a != b,
        _ => false,
    }
}

proof fn lemma_meld_of_id_groups(tiles: Seq<Tile>, sets: Seq<MeldSet>, gs: Seq<Seq<int>>, id: u32)
    requires
        sets_match(tiles, sets, gs),
    ensures
        meld_of_id(sets, id) == group_of_id(tiles, gs, id),
    decreases sets.len(),
{
    if sets.len() > 0 {
        let k = sets.len() - 1;
        assert(Some(sets[k].kind) == crate::hand::set_kind(tiles, gs[k]));
        assert(sets[k].tile_ids@ == gs[k].map_values(|p: int| tiles[p].id));
        assert(sets_match(tiles, sets.drop_last(), gs.drop_last())) by {
            assert forall|m: int| 0 <= m < sets.drop_last().len() implies {
                &&& Some(#[trigger] sets.drop_last()[m].kind) == crate::hand::set_kind(tiles, gs.drop_last()[m])
                &&& sets.drop_last()[m].tile_ids@ == gs.drop_last()[m].map_values(|p: int| tiles[p].id)
                &&& sets.drop_last()[m].tiles@ == gs.drop_last()[m].map_values(|p: int| tiles[p])
            } by {
                assert(sets.drop_last()[m] == sets[m]);
                assert(Some(sets[m].kind) == crate::hand::set_kind(tiles, gs[m]));
            }
        }
        lemma_meld_of_id_groups(tiles, sets.drop_last(), gs.drop_last(), id);
    }
}

fn find_meld(sets: &Vec<MeldSet>, id: u32) -> (r: Option<usize>)
    ensures
        r matches Some(m) ==> meld_of_id(sets@, id) == Some(m as int),
        r is None ==> meld_of_id(sets@, id) is None,
{
    let mut k: usize = sets.len();
    assert(sets@.take(k as int) =~= sets@);
    while k > 0
        invariant
            k <= sets.len(),
            meld_of_id(sets@, id) == meld_of_id(sets@.take(k as int), id),
        decreases k,
    {
        let ghost pre = sets@.take(k as int);
        assert(pre.drop_last() =~= sets@.take(k - 1));
        assert(pre.last() == sets@[k - 1]);
        let ids = &sets[k - 1].tile_ids;
        let mut j: usize = 0;
        while j < ids.len()
            invariant
                j <= ids.len(),
                0 < k <= sets.len(),
                ids@ == sets@[k - 1].tile_ids@,
                pre == sets@.take(k as int),
                pre.last() == sets@[k - 1],
                meld_of_id(sets@, id) == meld_of_id(pre, id),
                forall|q: int| 0 <= q < j ==> ids@[q] != id,
            decreases ids.len() - j,
        {
            if ids[j] == id {
                assert(ids@.contains(id));
                return Some(k - 1);
            }
            j += 1;
        }
        assert(!ids@.contains(id));
        k -= 1;
    }
    assert(sets@.take(0) =~= Seq::<MeldSet>::empty());
    None
}

/// After tile *i*, insert extra horizontal gap before the next meld begins.
/// No gaps for fewer than two tiles or a hand that does not split.
pub fn guide_example_meld_breaks_after(tiles: &[Tile]) -> (r: Vec<bool>)
    ensures
        r@.len() == tiles@.len(),
        (tiles@.len() < 2 || !selection_splits(tiles@)) ==> forall|i: int|
            0 <= i < r@.len() ==> !r@[i],
        tiles@.len() >= 2 && selection_splits(tiles@) ==> exists|sets: Seq<MeldSet>|
            #[trigger] is_selection_split(tiles@, sets) && forall|i: int| 0 <= i < tiles@.len() ==> r@[i] == (i + 1 < tiles@.len()
                && break_after(sets, tiles@, i)),
        tiles@.len() >= 2 ==> match selection_groups(tiles@) {
            Some(gs) => forall|i: int| 0 <= i < tiles@.len() ==> r@[i] == (i + 1 < tiles@.len()
                && group_break_after(tiles@, gs, i)),
            None => forall|i: int| 0 <= i < r@.len() ==> !r@[i],
        },
{
    let n = tiles.len();
    let mut breaks: Vec<bool> = Vec::new();
    let mut i: usize = 0;
    while i < n
        invariant
            i <= n,
            n == tiles@.len(),
            breaks@.len() == i,
            forall|k: int| 0 <= k < i ==> !breaks@[k],
        decreases n - i,
    {
        breaks.push(false);
        i += 1;
    }
    if n < 2 {
        return breaks;
    }
    let sets = match validate_selection(tiles) {
        Some(s) => s,
        None => {
            return breaks;
        },
    };
    let mut i: usize = 0;
    while i < n - 1
        invariant
            i <= n - 1,
            n == tiles@.len(),
            n >= 2,
            breaks@.len() == n,
            forall|k: int| 0 <= k < i ==> breaks@[k] == break_after(sets@, tiles@, k),
            forall|k: int| i <= k < n ==> !breaks@[k],
        decreases n - 1 - i,
    {
        let a = find_meld(&sets, tiles[i].id);
        let b = find_meld(&sets, tiles[i + 1].id);
        match (a, b) {
            (Some(x), Some(y)) => {
                breaks.set(i, x != y);
            },
            _ => {},
        }
        i += 1;
    }
    assert(is_selection_split(tiles@, sets@));
    proof {
        let gs = selection_groups(tiles@)->0;
        assert forall|k: int| 0 <= k < n - 1 implies break_after(sets@, tiles@, k) == group_break_after(tiles@, gs, k) by {
            lemma_meld_of_id_groups(tiles@, sets@, gs, tiles@[k].id);
            lemma_meld_of_id_groups(tiles@, sets@, gs, tiles@[k + 1].id);
        }
    }
    breaks
}

/// Number of `true` entries.
pub open spec fn count_breaks(b: Seq<bool>) -> nat
    decreases b.len(),
{
    if b.len() == 0 {
        0
    } else {
        count_breaks(b.drop_last()) + if b.last() { 1nat } else { 0nat }
    }
}

/// How many extra meld gaps an example hand gets: one per meld break.
pub fn guide_example_meld_gap_count(tiles: &[Tile]) -> (r: usize)
    ensures
        exists|b: Seq<bool>| #[trigger] count_breaks(b) == r && b.len() == tiles@.len() && ((tiles@.len() < 2
            || !selection_splits(tiles@)) ==> forall|i: int|
            0 <= i < b.len() ==> !b[i]) && (tiles@.len() >= 2 && selection_splits(tiles@)
            ==> exists|sets: Seq<MeldSet>| #[trigger] is_selection_split(tiles@, sets) && forall|i: int| 0 <= i < b.len() ==> b[i] == (i + 1
            < b.len() && break_after(sets, tiles@, i))) && (tiles@.len() >= 2 ==> match selection_groups(tiles@) {
            Some(gs) => forall|i: int| 0 <= i < b.len() ==> b[i] == (i + 1 < b.len() && group_break_after(tiles@, gs, i)),
            None => forall|i: int| 0 <= i < b.len() ==> !b[i],
        }),
{
    let breaks = guide_example_meld_breaks_after(tiles);
    let mut c: usize = 0;
    let mut i: usize = 0;
    while i < breaks.len()
        invariant
            i <= breaks.len(),
            c == count_breaks(breaks@.take(i as int)),
            c <= i,
        decreases breaks.len() - i,
    {
        assert(breaks@.take(i + 1).drop_last() =~= breaks@.take(i as int));
        if breaks[i] {
            c += 1;
        }
        i += 1;
    }
    assert(breaks@.take(breaks@.len() as int) =~= breaks@);
    c
}

} // verus!
