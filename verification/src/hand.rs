//! Meld decomposition of a tile selection: pairs, sequences, triplets and
//! kongs, with flowers as wildcards.
//!
//! Flowers form melds of their own (any two a pair, any three a triplet) or
//! stand in for one missing tile of a sequence or triplet; a flower never
//! pairs with a natural tile, and a single tile is never a meld.
//!
//! The one selection that splits otherwise is Kokushi Musō: fourteen
//! terminal and honor tiles showing all thirteen such faces, read as the
//! doubled face's pair and twelve singles.

use vstd::prelude::*;
use crate::tiles::{Suit, Tile};

verus! {

/// The kind of a meld.
#[derive(Clone, Copy, Debug, PartialEq, Eq, Structural)]
pub enum MeldKind {
    Pair,
    Sequence,
    Triplet,
    Kong,
    /// A lone tile of a Kokushi Musō hand.
    Single,
}

/// One meld of a decomposed selection: its kind, the ids of its tiles, and
/// the tiles themselves.
pub struct MeldSet {
    pub kind: MeldKind,
    pub tile_ids: Vec<u32>,
    pub tiles: Vec<Tile>,
}

pub open spec fn is_flower(t: Tile) -> bool {
    t.suit == Suit::Flower
}

pub open spec fn is_number_suit(s: Suit) -> bool {
    s == Suit::Manzu || s == Suit::Souzu || s == Suit::Pinzu
}

/// Same face: suit and rank.
pub open spec fn same_face(a: Tile, b: Tile) -> bool {
    a.suit == b.suit && a.rank == b.rank
}

/// Two natural tiles that a flower completes into a sequence: same number
/// suit, ranks one or two apart.
pub open spec fn sequence_with_gap(x: Tile, y: Tile) -> bool {
    &&& is_number_suit(x.suit)
    &&& x.suit == y.suit
    &&& (x.rank as int - y.rank as int == 1 || y.rank as int - x.rank as int == 1
        || x.rank as int - y.rank as int == 2 || y.rank as int - x.rank as int == 2)
}

/// Three natural tiles of one number suit with consecutive ranks (any order).
pub open spec fn consecutive3(a: Tile, b: Tile, c: Tile) -> bool {
    let (x, y, z) = (a.rank as int, b.rank as int, c.rank as int);
    let lo = if x <= y && x <= z { x } else if y <= z { y } else { z };
    let hi = if x >= y && x >= z { x } else if y >= z { y } else { z };
    &&& is_number_suit(a.suit)
    &&& a.suit == b.suit && b.suit == c.suit
    &&& x != y && y != z && x != z
    &&& hi - lo == 2
}

/// Kind of a two-tile meld.
pub open spec fn kind2(a: Tile, b: Tile) -> Option<MeldKind> {
    if (is_flower(a) && is_flower(b)) || (!is_flower(a) && !is_flower(b) && same_face(a, b)) {
        Some(MeldKind::Pair)
    } else {
        None
    }
}

/// Kind of a three-tile meld.
pub open spec fn kind3(a: Tile, b: Tile, c: Tile) -> Option<MeldKind> {
    let nf = (if is_flower(a) { 1int } else { 0 }) + (if is_flower(b) { 1int } else { 0 }) + (
    if is_flower(c) { 1int } else { 0 });
    if nf == 3 {
        Some(MeldKind::Triplet)
    } else if nf == 2 {
        None
    } else if nf == 1 {
        let (x, y) = if is_flower(a) { (b, c) } else if is_flower(b) { (a, c) } else { (a, b) };
        if same_face(x, y) {
            Some(MeldKind::Triplet)
        } else if sequence_with_gap(x, y) {
            Some(MeldKind::Sequence)
        } else {
            None
        }
    } else if same_face(a, b) && same_face(b, c) {
        Some(MeldKind::Triplet)
    } else if consecutive3(a, b, c) {
        Some(MeldKind::Sequence)
    } else {
        None
    }
}

/// Kind of a four-tile meld: four natural tiles of one face.
pub open spec fn kind4(a: Tile, b: Tile, c: Tile, d: Tile) -> Option<MeldKind> {
    if !is_flower(a) && same_face(a, b) && same_face(b, c) && same_face(c, d) {
        Some(MeldKind::Kong)
    } else {
        None
    }
}

/// Kind of the meld formed by the tiles at the given positions.
pub open spec fn group_kind(tiles: Seq<Tile>, g: Seq<int>) -> Option<MeldKind> {
    if g.len() == 2 {
        kind2(tiles[g[0]], tiles[g[1]])
    } else if g.len() == 3 {
        kind3(tiles[g[0]], tiles[g[1]], tiles[g[2]])
    } else if g.len() == 4 {
        kind4(tiles[g[0]], tiles[g[1]], tiles[g[2]], tiles[g[3]])
    } else {
        None
    }
}

/// Positions listed in increasing order.
pub open spec fn increasing(g: Seq<int>) -> bool {
    forall|i: int, j: int| 0 <= i < j < g.len() ==> g[i] < g[j]
}

/// A meld: increasing positions whose tiles form a valid meld.
pub open spec fn group_ok(tiles: Seq<Tile>, g: Seq<int>) -> bool {
    increasing(g) && group_kind(tiles, g) is Some
}

/// `gs` splits the positions in `r` into melds: the first meld's positions
/// lie in `r`, and the other melds split the rest.
pub open spec fn is_meld_partition(tiles: Seq<Tile>, gs: Seq<Seq<int>>, r: Set<int>) -> bool
    decreases gs.len(),
{
    if gs.len() == 0 {
        r =~= Set::<int>::empty()
    } else {
        &&& group_ok(tiles, gs[0])
        &&& gs[0].to_set().subset_of(r)
        &&& is_meld_partition(tiles, gs.drop_first(), r.difference(gs[0].to_set()))
    }
}

/// Can the tiles at the positions in `r` be split into melds?
pub open spec fn decomposable(tiles: Seq<Tile>, r: Set<int>) -> bool {
    exists|gs: Seq<Seq<int>>| is_meld_partition(tiles, gs, r)
}

/// Positions `0..n`.
pub open spec fn all_positions(n: int) -> Set<int> {
    Set::new(|i: int| 0 <= i < n)
}

/// Positions still to place: those whose mask entry is set.
pub open spec fn mask_set(mask: Seq<bool>) -> Set<int> {
    Set::new(|i: int| 0 <= i < mask.len() && mask[i])
}

/// A candidate meld for the search: valid, inside `r`, and the rest of `r` still splits.
pub open spec fn cand_ok(tiles: Seq<Tile>, r: Set<int>, g: Seq<int>) -> bool {
    group_ok(tiles, g) && g.to_set().subset_of(r) && decomposable(tiles, r.difference(g.to_set()))
}

/// Prepending a meld to a split of the remaining positions splits them all.
proof fn lemma_prepend(tiles: Seq<Tile>, g: Seq<int>, gs: Seq<Seq<int>>, r: Set<int>)
    requires
        group_ok(tiles, g),
        g.to_set().subset_of(r),
        is_meld_partition(tiles, gs, r.difference(g.to_set())),
    ensures
        is_meld_partition(tiles, seq![g] + gs, r),
{
    let all = seq![g] + gs;
    assert(all[0] == g);
    assert(all.drop_first() =~= gs);
}

/// In any split of `r`, the smallest position `f` starts a meld whose
/// removal leaves a splittable rest.
proof fn lemma_first_meld(tiles: Seq<Tile>, gs: Seq<Seq<int>>, r: Set<int>, f: int)
    requires
        is_meld_partition(tiles, gs, r),
        r.contains(f),
        forall|x: int| r.contains(x) ==> f <= x,
    ensures
        exists|g: Seq<int>| #[trigger] cand_ok(tiles, r, g) && g.len() >= 1 && g[0] == f,
    decreases gs.len(),
{
    if gs.len() == 0 {
        assert(r.contains(f));
        assert(false);
    } else {
        let g0 = gs[0];
        let rest = gs.drop_first();
        if g0.to_set().contains(f) {
            let k = choose|k: int| 0 <= k < g0.len() && g0[k] == f;
            assert(g0.len() >= 1);
            if k > 0 {
                assert(g0[0] < g0[k]);
                assert(g0.to_set().contains(g0[0]));
                assert(r.contains(g0[0]));
                assert(false);
            }
            assert(is_meld_partition(tiles, rest, r.difference(g0.to_set())));
            assert(cand_ok(tiles, r, g0));
        } else {
            let r2 = r.difference(g0.to_set());
            assert(r2.contains(f));
            lemma_first_meld(tiles, rest, r2, f);
            let g = choose|g: Seq<int>| #[trigger] cand_ok(tiles, r2, g) && g.len() >= 1 && g[0] == f;
            let gs2 = choose|gs2: Seq<Seq<int>>| is_meld_partition(tiles, gs2, r2.difference(g.to_set()));
            let r3 = r.difference(g.to_set());
            assert(g0.to_set().subset_of(r3));
            assert(r3.difference(g0.to_set()) =~= r2.difference(g.to_set()));
            lemma_prepend(tiles, g0, gs2, r3);
            assert(g.to_set().subset_of(r));
            assert(cand_ok(tiles, r, g));
        }
    }
}


/// Number of set entries of a mask.
pub open spec fn count_true(s: Seq<bool>) -> nat
    decreases s.len(),
{
    if s.len() == 0 {
        0
    } else {
        count_true(s.drop_last()) + if s.last() { 1nat } else { 0nat }
    }
}

proof fn lemma_count_update_false(s: Seq<bool>, i: int)
    requires
        0 <= i < s.len(),
        s[i],
    ensures
        count_true(s.update(i, false)) + 1 == count_true(s),
    decreases s.len(),
{
    let u = s.update(i, false);
    if i == s.len() - 1 {
        assert(u.drop_last() =~= s.drop_last());
    } else {
        assert(u.drop_last() =~= s.drop_last().update(i, false));
        lemma_count_update_false(s.drop_last(), i);
    }
}

proof fn lemma_count_zero(s: Seq<bool>)
    ensures
        count_true(s) == 0 ==> forall|i: int| 0 <= i < s.len() ==> !s[i],
    decreases s.len(),
{
    if s.len() > 0 {
        lemma_count_zero(s.drop_last());
        if count_true(s) == 0 {
            assert forall|i: int| 0 <= i < s.len() implies !s[i] by {
                if i < s.len() - 1 {
                    assert(s[i] == s.drop_last()[i]);
                }
            }
        }
    }
}

/// Positions of a candidate as integers.
pub open spec fn int_group(g: Seq<usize>) -> Seq<int> {
    g.map_values(|x: usize| x as int)
}

/// Melds of positions as integers.
pub open spec fn int_groups(gs: Seq<Vec<usize>>) -> Seq<Seq<int>> {
    gs.map_values(|g: Vec<usize>| int_group(g@))
}

pub fn is_flower_tile(t: &Tile) -> (r: bool)
    ensures
        r == is_flower(*t),
{
    t.suit == Suit::Flower
}

fn is_number(s: Suit) -> (r: bool)
    ensures
        r == is_number_suit(s),
{
    matches!(s, Suit::Manzu | Suit::Souzu | Suit::Pinzu)
}

fn same(a: &Tile, b: &Tile) -> (r: bool)
    ensures
        r == same_face(*a, *b),
{
    a.suit == b.suit && a.rank == b.rank
}

fn exec_kind2(a: &Tile, b: &Tile) -> (r: Option<MeldKind>)
    ensures
        r == kind2(*a, *b),
{
    let fa = is_flower_tile(a);
    let fb = is_flower_tile(b);
    if (fa && fb) || (!fa && !fb && same(a, b)) {
        Some(MeldKind::Pair)
    } else {
        None
    }
}

fn exec_gap(x: &Tile, y: &Tile) -> (r: bool)
    ensures
        r == sequence_with_gap(*x, *y),
{
    let d: i16 = x.rank as i16 - y.rank as i16;
    is_number(x.suit) && x.suit == y.suit && (d == 1 || d == -1 || d == 2 || d == -2)
}

fn exec_kind3(a: &Tile, b: &Tile, c: &Tile) -> (r: Option<MeldKind>)
    ensures
        r == kind3(*a, *b, *c),
{
    let fa = is_flower_tile(a);
    let fb = is_flower_tile(b);
    let fc = is_flower_tile(c);
    let nf: u8 = (if fa { 1u8 } else { 0u8 }) + (if fb { 1u8 } else { 0u8 }) + (if fc { 1u8 } else { 0u8 });
    if nf == 3 {
        Some(MeldKind::Triplet)
    } else if nf == 2 {
        None
    } else if nf == 1 {
        let (x, y) = if fa { (b, c) } else if fb { (a, c) } else { (a, b) };
        if same(x, y) {
            Some(MeldKind::Triplet)
        } else if exec_gap(x, y) {
            Some(MeldKind::Sequence)
        } else {
            None
        }
    } else if same(a, b) && same(b, c) {
        Some(MeldKind::Triplet)
    } else {
        let (x, y, z) = (a.rank, b.rank, c.rank);
        let lo = if x <= y && x <= z { x } else if y <= z { y } else { z };
        let hi = if x >= y && x >= z { x } else if y >= z { y } else { z };
        if is_number(a.suit) && a.suit == b.suit && b.suit == c.suit && x != y && y != z && x != z
            && hi - lo == 2 {
            Some(MeldKind::Sequence)
        } else {
            None
        }
    }
}

fn exec_kind4(a: &Tile, b: &Tile, c: &Tile, d: &Tile) -> (r: Option<MeldKind>)
    ensures
        r == kind4(*a, *b, *c, *d),
{
    if !is_flower_tile(a) && same(a, b) && same(b, c) && same(c, d) {
        Some(MeldKind::Kong)
    } else {
        None
    }
}

/// Kind of the meld at the given positions.
pub fn meld_kind(tiles: &[Tile], g: &Vec<usize>) -> (r: Option<MeldKind>)
    requires
        forall|i: int| 0 <= i < g@.len() ==> g@[i] < tiles@.len(),
    ensures
        r == group_kind(tiles@, int_group(g@)),
{
    if g.len() == 2 {
        exec_kind2(&tiles[g[0]], &tiles[g[1]])
    } else if g.len() == 3 {
        exec_kind3(&tiles[g[0]], &tiles[g[1]], &tiles[g[2]])
    } else if g.len() == 4 {
        exec_kind4(&tiles[g[0]], &tiles[g[1]], &tiles[g[2]], &tiles[g[3]])
    } else {
        None
    }
}

/// Copy of `mask` with the positions of `g` cleared.
fn clear_positions(mask: &Vec<bool>, g: &Vec<usize>) -> (r: Vec<bool>)
    requires
        forall|i: int| 0 <= i < g@.len() ==> g@[i] < mask@.len() && mask@[g@[i] as int],
        increasing(int_group(g@)),
    ensures
        r@.len() == mask@.len(),
        mask_set(r@) == mask_set(mask@).difference(int_group(g@).to_set()),
        count_true(r@) + g@.len() == count_true(mask@),
        r@ == clear_spec(mask@, int_group(g@)),
{
    let mut r: Vec<bool> = Vec::new();
    let mut i: usize = 0;
    while i < mask.len()
        invariant
            i <= mask.len(),
            r@ == mask@.take(i as int),
        decreases mask.len() - i,
    {
        r.push(mask[i]);
        assert(r@ =~= mask@.take(i + 1));
        i += 1;
    }
    assert(r@ =~= mask@);
    let mut k: usize = 0;
    while k < g.len()
        invariant
            k <= g.len(),
            r@.len() == mask@.len(),
            forall|i: int| 0 <= i < g@.len() ==> g@[i] < mask@.len() && mask@[g@[i] as int],
            increasing(int_group(g@)),
            forall|p: int| 0 <= p < r@.len() ==> r@[p] == (mask@[p] && !(exists|m: int|
                0 <= m < k && g@[m] == p)),
            count_true(r@) + k == count_true(mask@),
        decreases g.len() - k,
    {
        let p = g[k];
        proof {
            assert forall|m: int| 0 <= m < k implies g@[m] != p by {
                assert(int_group(g@)[m] < int_group(g@)[k as int]);
            }
            assert(r@[p as int]);
            lemma_count_update_false(r@, p as int);
        }
        r.set(p, false);
        proof {
            assert forall|q: int| 0 <= q < r@.len() implies r@[q] == (mask@[q] && !(exists|m: int|
                0 <= m < k + 1 && g@[m] == q)) by {
                if q != p as int {
                    if exists|m: int| 0 <= m < k + 1 && g@[m] == q {
                        let m = choose|m: int| 0 <= m < k + 1 && g@[m] == q;
                        assert(m < k);
                    }
                }
            }
        }
        k += 1;
    }
    proof {
        assert forall|q: int| #[trigger] mask_set(r@).contains(q) <==> mask_set(mask@).difference(
            int_group(g@).to_set(),
        ).contains(q) by {
            if 0 <= q < r@.len() {
                if exists|m: int| 0 <= m < g@.len() && g@[m] == q {
                    let m = choose|m: int| 0 <= m < g@.len() && g@[m] == q;
                    assert(int_group(g@)[m] == q);
                    assert(int_group(g@).to_set().contains(q));
                }
                if int_group(g@).to_set().contains(q) {
                    let m = choose|m: int| 0 <= m < int_group(g@).len() && int_group(g@)[m] == q;
                    assert(g@[m] == q);
                }
            }
        }
        assert(mask_set(r@) =~= mask_set(mask@).difference(int_group(g@).to_set()));
        assert forall|q: int| 0 <= q < r@.len() implies r@[q] == clear_spec(mask@, int_group(g@))[q] by {
            if exists|m: int| 0 <= m < g@.len() && g@[m] == q {
                let m = choose|m: int| 0 <= m < g@.len() && g@[m] == q;
                assert(int_group(g@)[m] == q);
            }
            if int_group(g@).contains(q) {
                let m = choose|m: int| 0 <= m < int_group(g@).len() && int_group(g@)[m] == q;
                assert(g@[m] == q);
            }
        }
        assert(r@ =~= clear_spec(mask@, int_group(g@)));
    }
    r
}


/// The mask with the positions of `g` cleared.
pub open spec fn clear_spec(mask: Seq<bool>, g: Seq<int>) -> Seq<bool> {
    Seq::new(mask.len(), |p: int| mask[p] && !g.contains(p))
}

/// Every position of `g` is still to place.
pub open spec fn in_mask(mask: Seq<bool>, g: Seq<int>) -> bool {
    forall|i: int| 0 <= i < g.len() ==> 0 <= #[trigger] g[i] < mask.len() && mask[g[i]]
}

/// First set position of the mask at or after `i` (its length when none).
pub open spec fn first_set(mask: Seq<bool>, i: int) -> int
    decreases mask.len() - i,
{
    if i >= mask.len() || i < 0 {
        mask.len() as int
    } else if mask[i] {
        i
    } else {
        first_set(mask, i + 1)
    }
}

proof fn lemma_count_pointwise(a: Seq<bool>, b: Seq<bool>)
    requires
        a.len() == b.len(),
        forall|p: int| 0 <= p < a.len() && #[trigger] a[p] ==> b[p],
    ensures
        count_true(a) <= count_true(b),
    decreases a.len(),
{
    if a.len() > 0 {
        lemma_count_pointwise(a.drop_last(), b.drop_last());
    }
}

/// Placing a candidate leaves fewer positions to place.
pub proof fn lemma_clear_decreases(mask: Seq<bool>, g: Seq<int>)
    requires
        g.len() > 0,
        in_mask(mask, g),
    ensures
        count_true(clear_spec(mask, g)) < count_true(mask),
{
    let p = g[0];
    assert(0 <= p < mask.len() && mask[p]);
    let u = mask.update(p, false);
    lemma_count_update_false(mask, p);
    let c = clear_spec(mask, g);
    assert forall|q: int| 0 <= q < c.len() && #[trigger] c[q] implies u[q] by {
        if q == p {
            assert(g.contains(p));
        }
    }
    lemma_count_pointwise(c, u);
}

/// The search's split of the positions still set in `mask`: the first of
/// them starts a kong, then a triplet or sequence, then a pair, tried with
/// partners in increasing position order; the first candidate whose rest
/// splits wins.
pub open spec fn search_spec(tiles: Seq<Tile>, mask: Seq<bool>) -> Option<Seq<Seq<int>>>
    decreases count_true(mask), 4int, 0int, 0int, 0int,
{
    let f = first_set(mask, 0);
    if f >= mask.len() {
        Some(Seq::empty())
    } else {
        quads_from(tiles, mask, f, f + 1, f + 2, f + 3)
    }
}

/// The search from the kong candidate `(f, j, k, l)` on.
pub open spec fn quads_from(tiles: Seq<Tile>, mask: Seq<bool>, f: int, j: int, k: int, l: int) -> Option<
    Seq<Seq<int>>,
>
    decreases count_true(mask), 3int, mask.len() - j, mask.len() - k, mask.len() - l,
{
    let n = mask.len() as int;
    if j >= n {
        tris_from(tiles, mask, f, f + 1, f + 2)
    } else if k >= n {
        quads_from(tiles, mask, f, j + 1, j + 2, j + 3)
    } else if l >= n {
        quads_from(tiles, mask, f, j, k + 1, k + 2)
    } else {
        match try_spec(tiles, mask, quad(f, j, k, l)) {
            Some(gs) => Some(gs),
            None => quads_from(tiles, mask, f, j, k, l + 1),
        }
    }
}

/// The search from the triplet or sequence candidate `(f, j, k)` on.
pub open spec fn tris_from(tiles: Seq<Tile>, mask: Seq<bool>, f: int, j: int, k: int) -> Option<Seq<Seq<int>>>
    decreases count_true(mask), 2int, mask.len() - j, mask.len() - k, 0int,
{
    let n = mask.len() as int;
    if j >= n {
        duos_from(tiles, mask, f, f + 1)
    } else if k >= n {
        tris_from(tiles, mask, f, j + 1, j + 2)
    } else {
        match try_spec(tiles, mask, tri(f, j, k)) {
            Some(gs) => Some(gs),
            None => tris_from(tiles, mask, f, j, k + 1),
        }
    }
}

/// The search from the pair candidate `(f, j)` on.
pub open spec fn duos_from(tiles: Seq<Tile>, mask: Seq<bool>, f: int, j: int) -> Option<Seq<Seq<int>>>
    decreases count_true(mask), 1int, mask.len() - j, 0int, 0int,
{
    if j >= mask.len() {
        None
    } else {
        match try_spec(tiles, mask, duo(f, j)) {
            Some(gs) => Some(gs),
            None => duos_from(tiles, mask, f, j + 1),
        }
    }
}

/// One candidate: kept when its positions are still to place, it is a
/// meld, and the rest splits.
pub open spec fn try_spec(tiles: Seq<Tile>, mask: Seq<bool>, g: Seq<int>) -> Option<Seq<Seq<int>>>
    decreases count_true(mask), 0int, 0int, 0int, 0int,
{
    if g.len() > 0 && in_mask(mask, g) && group_kind(tiles, g) is Some {
        proof {
            lemma_clear_decreases(mask, g);
        }
        match search_spec(tiles, clear_spec(mask, g)) {
            Some(rest) => Some(seq![g] + rest),
            None => None,
        }
    } else {
        None
    }
}

proof fn lemma_first_set_bounds(mask: Seq<bool>, i: int)
    requires
        0 <= i,
    ensures
        i <= first_set(mask, i) <= mask.len() || first_set(mask, i) == mask.len(),
        0 <= first_set(mask, i),
    decreases mask.len() - i,
{
    if i < mask.len() && !mask[i] {
        lemma_first_set_bounds(mask, i + 1);
    }
}

proof fn lemma_clear_set(mask: Seq<bool>, g: Seq<int>)
    ensures
        mask_set(clear_spec(mask, g)) == mask_set(mask).difference(g.to_set()),
{
    assert(mask_set(clear_spec(mask, g)) =~= mask_set(mask).difference(g.to_set()));
}

proof fn lemma_try_sound(tiles: Seq<Tile>, mask: Seq<bool>, g: Seq<int>)
    requires
        increasing(g),
    ensures
        try_spec(tiles, mask, g) matches Some(gs) ==> is_meld_partition(tiles, gs, mask_set(mask)),
    decreases count_true(mask), 0int, 0int, 0int, 0int,
{
    if g.len() > 0 && in_mask(mask, g) && group_kind(tiles, g) is Some {
        lemma_clear_decreases(mask, g);
        let sub = clear_spec(mask, g);
        lemma_search_sound(tiles, sub);
        if let Some(rest) = search_spec(tiles, sub) {
            lemma_clear_set(mask, g);
            assert forall|x: int| g.to_set().contains(x) implies mask_set(mask).contains(x) by {
                let m = choose|m: int| 0 <= m < g.len() && g[m] == x;
                assert(0 <= g[m] < mask.len() && mask[g[m]]);
            }
            lemma_prepend(tiles, g, rest, mask_set(mask));
        }
    }
}

/// A split the search returns is a split of the positions still to place.
pub proof fn lemma_search_sound(tiles: Seq<Tile>, mask: Seq<bool>)
    ensures
        search_spec(tiles, mask) matches Some(gs) ==> is_meld_partition(tiles, gs, mask_set(mask)),
    decreases count_true(mask), 4int, 0int, 0int, 0int,
{
    let f = first_set(mask, 0);
    lemma_first_set_bounds(mask, 0);
    if f >= mask.len() {
        assert forall|x: int| !mask_set(mask).contains(x) by {
            if 0 <= x < mask.len() && mask[x] {
                lemma_first_set_le(mask, 0, x);
            }
        }
        assert(mask_set(mask) =~= Set::<int>::empty());
    } else {
        lemma_quads_sound(tiles, mask, f, f + 1, f + 2, f + 3);
    }
}

proof fn lemma_first_set_le(mask: Seq<bool>, i: int, x: int)
    requires
        0 <= i <= x < mask.len(),
        mask[x],
    ensures
        first_set(mask, i) <= x,
    decreases x - i,
{
    if !mask[i] {
        lemma_first_set_le(mask, i + 1, x);
    }
}

proof fn lemma_quads_sound(tiles: Seq<Tile>, mask: Seq<bool>, f: int, j: int, k: int, l: int)
    requires
        0 <= f < j < k < l,
    ensures
        quads_from(tiles, mask, f, j, k, l) matches Some(gs) ==> is_meld_partition(tiles, gs, mask_set(mask)),
    decreases count_true(mask), 3int, mask.len() - j, mask.len() - k, mask.len() - l,
{
    let n = mask.len() as int;
    if j >= n {
        lemma_tris_sound(tiles, mask, f, f + 1, f + 2);
    } else if k >= n {
        lemma_quads_sound(tiles, mask, f, j + 1, j + 2, j + 3);
    } else if l >= n {
        lemma_quads_sound(tiles, mask, f, j, k + 1, k + 2);
    } else {
        lemma_try_sound(tiles, mask, quad(f, j, k, l));
        lemma_quads_sound(tiles, mask, f, j, k, l + 1);
    }
}

proof fn lemma_tris_sound(tiles: Seq<Tile>, mask: Seq<bool>, f: int, j: int, k: int)
    requires
        0 <= f < j < k,
    ensures
        tris_from(tiles, mask, f, j, k) matches Some(gs) ==> is_meld_partition(tiles, gs, mask_set(mask)),
    decreases count_true(mask), 2int, mask.len() - j, mask.len() - k, 0int,
{
    let n = mask.len() as int;
    if j >= n {
        lemma_duos_sound(tiles, mask, f, f + 1);
    } else if k >= n {
        lemma_tris_sound(tiles, mask, f, j + 1, j + 2);
    } else {
        lemma_try_sound(tiles, mask, tri(f, j, k));
        lemma_tris_sound(tiles, mask, f, j, k + 1);
    }
}

proof fn lemma_duos_sound(tiles: Seq<Tile>, mask: Seq<bool>, f: int, j: int)
    requires
        0 <= f < j,
    ensures
        duos_from(tiles, mask, f, j) matches Some(gs) ==> is_meld_partition(tiles, gs, mask_set(mask)),
    decreases count_true(mask), 1int, mask.len() - j, 0int, 0int,
{
    if j < mask.len() {
        lemma_try_sound(tiles, mask, duo(f, j));
        lemma_duos_sound(tiles, mask, f, j + 1);
    }
}

pub open spec fn quad(a: int, b: int, c: int, d: int) -> Seq<int> {
    seq![a, b, c, d]
}

pub open spec fn tri(a: int, b: int, c: int) -> Seq<int> {
    seq![a, b, c]
}

pub open spec fn duo(a: int, b: int) -> Seq<int> {
    seq![a, b]
}

/// Try one candidate meld: keep it when its positions are all still to
/// place, it is a valid meld, and the rest splits.
fn try_candidate(tiles: &[Tile], mask: &Vec<bool>, g: Vec<usize>) -> (r: Option<Vec<Vec<usize>>>)
    requires
        mask@.len() == tiles@.len(),
        forall|i: int| 0 <= i < g@.len() ==> g@[i] < tiles@.len(),
        increasing(int_group(g@)),
        2 <= g@.len() <= 4,
    ensures
        r matches Some(gs) ==> is_meld_partition(tiles@, int_groups(gs@), mask_set(mask@)),
        r is None ==> !cand_ok(tiles@, mask_set(mask@), int_group(g@)),
        r matches Some(gs) ==> try_spec(tiles@, mask@, int_group(g@)) == Some(int_groups(gs@)),
        r is None ==> try_spec(tiles@, mask@, int_group(g@)) is None,
    decreases count_true(mask@), 0nat,
{
    let mut i: usize = 0;
    while i < g.len()
        invariant
            i <= g.len(),
            mask@.len() == tiles@.len(),
            forall|m: int| 0 <= m < g@.len() ==> g@[m] < tiles@.len(),
            forall|m: int| 0 <= m < i ==> mask@[#[trigger] g@[m] as int],
        decreases g.len() - i,
    {
        if !mask[g[i]] {
            proof {
                assert(int_group(g@)[i as int] == g@[i as int] as int);
                assert(int_group(g@).to_set().contains(g@[i as int] as int));
                assert(!mask_set(mask@).contains(g@[i as int] as int));
                assert(!in_mask(mask@, int_group(g@)));
            }
            return None;
        }
        i += 1;
    }
    assert(in_mask(mask@, int_group(g@)));
    let kind = meld_kind(tiles, &g);
    if kind.is_none() {
        return None;
    }
    let sub = clear_positions(mask, &g);
    proof {
        assert forall|x: int| #[trigger] int_group(g@).to_set().contains(x) implies mask_set(mask@).contains(x) by {
            let m = choose|m: int| 0 <= m < int_group(g@).len() && int_group(g@)[m] == x;
            assert(mask@[g@[m] as int]);
        }
    }
    match search(tiles, &sub) {
        Some(rest) => {
            let ghost gi = int_group(g@);
            let mut out: Vec<Vec<usize>> = Vec::new();
            out.push(g);
            let mut rest = rest;
            let ghost rest_v = rest@;
            out.append(&mut rest);
            proof {
                assert(int_groups(out@) =~= seq![gi] + int_groups(rest_v));
                lemma_prepend(tiles@, gi, int_groups(rest_v), mask_set(mask@));
            }
            Some(out)
        },
        None => None,
    }
}

/// Split the positions still set in `mask` into melds: the first of them
/// starts a kong, a triplet or sequence, or a pair, tried in that order with
/// partners in increasing position order; the first candidate whose rest
/// splits wins.
fn search(tiles: &[Tile], mask: &Vec<bool>) -> (r: Option<Vec<Vec<usize>>>)
    requires
        mask@.len() == tiles@.len(),
    ensures
        r matches Some(gs) ==> is_meld_partition(tiles@, int_groups(gs@), mask_set(mask@)),
        r is None ==> !decomposable(tiles@, mask_set(mask@)),
        r matches Some(gs) ==> search_spec(tiles@, mask@) == Some(int_groups(gs@)),
        r is None ==> search_spec(tiles@, mask@) is None,
    decreases count_true(mask@), 1nat,
{
    let n = mask.len();
    let mut f: usize = 0;
    while f < n && !mask[f]
        invariant
            f <= n,
            n == mask@.len(),
            forall|i: int| 0 <= i < f ==> !mask@[i],
            first_set(mask@, f as int) == first_set(mask@, 0),
        decreases n - f,
    {
        f += 1;
    }
    if f == n {
        proof {
            assert(mask_set(mask@) =~= Set::<int>::empty());
            assert(is_meld_partition(tiles@, int_groups(Seq::<Vec<usize>>::empty()), mask_set(mask@)));
            assert(int_groups(Seq::<Vec<usize>>::empty()) =~= Seq::<Seq<int>>::empty());
        }
        return Some(Vec::new());
    }
    let ghost rset = mask_set(mask@);
    let ghost fi = f as int;
    assert(first_set(mask@, 0) == fi);
    // Kongs.
    let mut j: usize = f + 1;
    while j < n
        invariant
            f < j <= n,
            n == mask@.len(),
            n == tiles@.len(),
            rset == mask_set(mask@),
            fi == f,
            quads_from(tiles@, mask@, fi, j as int, j + 1, j + 2) == search_spec(tiles@, mask@),
            forall|j2: int, k2: int, l2: int|
                f < j2 < j && j2 < k2 < l2 < n ==> !#[trigger] cand_ok(tiles@, rset, quad(fi, j2, k2, l2)),
        decreases n - j,
    {
        let mut k: usize = j + 1;
        while k < n
            invariant
                j < k <= n,
                f < j < n,
                n == mask@.len(),
                n == tiles@.len(),
                rset == mask_set(mask@),
                fi == f,
                quads_from(tiles@, mask@, fi, j as int, k as int, k + 1) == search_spec(tiles@, mask@),
                forall|j2: int, k2: int, l2: int|
                    f < j2 < j && j2 < k2 < l2 < n ==> !#[trigger] cand_ok(tiles@, rset, quad(fi, j2, k2, l2)),
                forall|k2: int, l2: int|
                    j < k2 < k && k2 < l2 < n ==> !#[trigger] cand_ok(tiles@, rset, quad(fi, j as int, k2, l2)),
            decreases n - k,
        {
            let mut l: usize = k + 1;
            while l < n
                invariant
                    k < l <= n,
                    j < k < n,
                    f < j < n,
                    n == mask@.len(),
                    n == tiles@.len(),
                    rset == mask_set(mask@),
                    fi == f,
                    quads_from(tiles@, mask@, fi, j as int, k as int, l as int) == search_spec(tiles@, mask@),
                    forall|j2: int, k2: int, l2: int|
                        f < j2 < j && j2 < k2 < l2 < n ==> !#[trigger] cand_ok(tiles@, rset, quad(fi, j2, k2, l2)),
                    forall|k2: int, l2: int|
                        j < k2 < k && k2 < l2 < n ==> !#[trigger] cand_ok(tiles@, rset, quad(fi, j as int, k2, l2)),
                    forall|l2: int| k < l2 < l ==> !#[trigger] cand_ok(tiles@, rset, quad(fi, j as int, k as int, l2)),
                decreases n - l,
            {
                let g = vec![f, j, k, l];
                proof {
                    assert(int_group(g@) =~= quad(fi, j as int, k as int, l as int));
                }
                match try_candidate(tiles, mask, g) {
                    Some(gs) => {
                        return Some(gs);
                    },
                    None => {},
                }
                l += 1;
            }
            k += 1;
        }
        j += 1;
    }
    // Triplets and sequences.
    let mut j: usize = f + 1;
    while j < n
        invariant
            f < j <= n,
            n == mask@.len(),
            n == tiles@.len(),
            rset == mask_set(mask@),
            fi == f,
            tris_from(tiles@, mask@, fi, j as int, j + 1) == search_spec(tiles@, mask@),
            forall|j2: int, k2: int, l2: int|
                f < j2 < k2 < l2 < n ==> !#[trigger] cand_ok(tiles@, rset, quad(fi, j2, k2, l2)),
            forall|j2: int, k2: int|
                f < j2 < j && j2 < k2 < n ==> !#[trigger] cand_ok(tiles@, rset, tri(fi, j2, k2)),
        decreases n - j,
    {
        let mut k: usize = j + 1;
        while k < n
            invariant
                j < k <= n,
                f < j < n,
                n == mask@.len(),
                n == tiles@.len(),
                rset == mask_set(mask@),
                fi == f,
                tris_from(tiles@, mask@, fi, j as int, k as int) == search_spec(tiles@, mask@),
                forall|j2: int, k2: int, l2: int|
                    f < j2 < k2 < l2 < n ==> !#[trigger] cand_ok(tiles@, rset, quad(fi, j2, k2, l2)),
                forall|j2: int, k2: int|
                    f < j2 < j && j2 < k2 < n ==> !#[trigger] cand_ok(tiles@, rset, tri(fi, j2, k2)),
                forall|k2: int| j < k2 < k ==> !#[trigger] cand_ok(tiles@, rset, tri(fi, j as int, k2)),
            decreases n - k,
        {
            let g = vec![f, j, k];
            proof {
                assert(int_group(g@) =~= tri(fi, j as int, k as int));
            }
            match try_candidate(tiles, mask, g) {
                Some(gs) => {
                    return Some(gs);
                },
                None => {},
            }
            k += 1;
        }
        j += 1;
    }
    // Pairs.
    let mut j: usize = f + 1;
    while j < n
        invariant
            f < j <= n,
            n == mask@.len(),
            n == tiles@.len(),
            rset == mask_set(mask@),
            fi == f,
            duos_from(tiles@, mask@, fi, j as int) == search_spec(tiles@, mask@),
            forall|j2: int, k2: int, l2: int|
                f < j2 < k2 < l2 < n ==> !#[trigger] cand_ok(tiles@, rset, quad(fi, j2, k2, l2)),
            forall|j2: int, k2: int|
                f < j2 < k2 < n ==> !#[trigger] cand_ok(tiles@, rset, tri(fi, j2, k2)),
            forall|j2: int| f < j2 < j ==> !#[trigger] cand_ok(tiles@, rset, duo(fi, j2)),
        decreases n - j,
    {
        let g = vec![f, j];
        proof {
            assert(int_group(g@) =~= duo(fi, j as int));
        }
        match try_candidate(tiles, mask, g) {
            Some(gs) => {
                return Some(gs);
            },
            None => {},
        }
        j += 1;
    }
    proof {
        if decomposable(tiles@, rset) {
            let gs = choose|gs: Seq<Seq<int>>| is_meld_partition(tiles@, gs, rset);
            assert(rset.contains(fi));
            assert forall|x: int| rset.contains(x) implies fi <= x by {
                if x < fi {
                    assert(!mask@[x]);
                }
            }
            lemma_first_meld(tiles@, gs, rset, fi);
            let g = choose|g: Seq<int>| #[trigger] cand_ok(tiles@, rset, g) && g.len() >= 1 && g[0] == fi;
            assert forall|m: int| 0 <= m < g.len() implies g[m] < n by {
                assert(g.to_set().contains(g[m]));
            }
            if g.len() == 2 {
                assert(g =~= duo(fi, g[1]));
            } else if g.len() == 3 {
                assert(g =~= tri(fi, g[1], g[2]));
            } else {
                assert(g.len() == 4);
                assert(g =~= quad(fi, g[1], g[2], g[3]));
            }
            assert(false);
        }
    }
    None
}


/// Every position still to place.
pub open spec fn full_mask(n: nat) -> Seq<bool> {
    Seq::new(n, |p: int| true)
}

/// Split a selection into melds. The result lists each meld's positions in
/// increasing order; `None` when no split exists.
pub fn decompose(tiles: &[Tile]) -> (r: Option<Vec<Vec<usize>>>)
    ensures
        r matches Some(gs) ==> is_meld_partition(tiles@, int_groups(gs@), all_positions(tiles@.len() as int)),
        r is None ==> !decomposable(tiles@, all_positions(tiles@.len() as int)),
        r matches Some(gs) ==> search_spec(tiles@, full_mask(tiles@.len())) == Some(int_groups(gs@)),
        r is None ==> search_spec(tiles@, full_mask(tiles@.len())) is None,
{
    let mut mask: Vec<bool> = Vec::new();
    let mut i: usize = 0;
    while i < tiles.len()
        invariant
            i <= tiles.len(),
            mask@.len() == i,
            forall|p: int| 0 <= p < i ==> mask@[p],
        decreases tiles.len() - i,
    {
        mask.push(true);
        i += 1;
    }
    assert(mask_set(mask@) =~= all_positions(tiles@.len() as int));
    assert(mask@ =~= full_mask(tiles@.len()));
    search(tiles, &mask)
}

/// Kind of the set formed by the tiles at the given positions: a lone
/// position is a single, otherwise the meld kind.
pub open spec fn set_kind(tiles: Seq<Tile>, g: Seq<int>) -> Option<MeldKind> {
    if g.len() == 1 {
        Some(MeldKind::Single)
    } else {
        group_kind(tiles, g)
    }
}

/// The sets of a split, with their kinds, tile ids and tiles, match the positions `gs`.
pub open spec fn sets_match(tiles: Seq<Tile>, sets: Seq<MeldSet>, gs: Seq<Seq<int>>) -> bool {
    &&& sets.len() == gs.len()
    &&& forall|k: int| 0 <= k < sets.len() ==> {
        &&& Some(#[trigger] sets[k].kind) == set_kind(tiles, gs[k])
        &&& sets[k].tile_ids@ == gs[k].map_values(|p: int| tiles[p].id)
        &&& sets[k].tiles@ == gs[k].map_values(|p: int| tiles[p])
    }
}

/// `sets` lists the melds of a split of all the tiles.
pub open spec fn is_split_of(tiles: Seq<Tile>, sets: Seq<MeldSet>) -> bool {
    exists|gs: Seq<Seq<int>>|
        is_meld_partition(tiles, gs, all_positions(tiles.len() as int)) && #[trigger] sets_match(tiles, sets, gs)
}

/// Index of a terminal or honor face among the thirteen (manzu 1 and 9,
/// souzu 1 and 9, pinzu 1 and 9, the four winds, the three dragons); -1
/// for any other tile.
pub open spec fn orphan_index(t: Tile) -> int {
    match t.suit {
        Suit::Manzu => if t.rank == 1 { 0 } else if t.rank == 9 { 1 } else { -1 },
        Suit::Souzu => if t.rank == 1 { 2 } else if t.rank == 9 { 3 } else { -1 },
        Suit::Pinzu => if t.rank == 1 { 4 } else if t.rank == 9 { 5 } else { -1 },
        Suit::Wind => if 1 <= t.rank <= 4 { 5 + t.rank as int } else { -1 },
        Suit::Dragon => if 1 <= t.rank <= 3 { 9 + t.rank as int } else { -1 },
        Suit::Flower => -1,
    }
}

/// Some tile shows the terminal or honor face `k`.
pub open spec fn shows_face(tiles: Seq<Tile>, k: int) -> bool {
    exists|i: int| 0 <= i < tiles.len() && #[trigger] orphan_index(tiles[i]) == k
}

/// Kokushi Musō: fourteen terminal and honor tiles showing all thirteen
/// such faces (so one face is doubled).
pub open spec fn is_kokushi(tiles: Seq<Tile>) -> bool {
    &&& tiles.len() == 14
    &&& forall|i: int| 0 <= i < tiles.len() ==> #[trigger] orphan_index(tiles[i]) >= 0
    &&& forall|k: int| 0 <= k < 13 ==> #[trigger] shows_face(tiles, k)
}

/// Positions `0..n` without `j`, each alone except `i`, which is grouped with `j`.
pub open spec fn kokushi_groups(n: int, i: int, j: int) -> Seq<Seq<int>> {
    Seq::new(
        (n - 1) as nat,
        |k: int|
            {
                let p = if k < j { k } else { k + 1 };
                if p == i { seq![i, j] } else { seq![p] }
            },
    )
}

/// `sets` is the Kokushi Musō reading of the tiles: the pair of the doubled
/// face at its first position, every other tile a single, in position order.
pub open spec fn kokushi_split_of(tiles: Seq<Tile>, sets: Seq<MeldSet>) -> bool {
    exists|i: int, j: int|
        0 <= i < j < tiles.len() && same_face(tiles[i], tiles[j]) && #[trigger] sets_match(
            tiles,
            sets,
            kokushi_groups(tiles.len() as int, i, j),
        )
}

/// The selection splits: into melds, or as Kokushi Musō.
pub open spec fn selection_splits(tiles: Seq<Tile>) -> bool {
    decomposable(tiles, all_positions(tiles.len() as int)) || is_kokushi(tiles)
}

/// `sets` is the split a selection gets: its melds when it splits into
/// melds, its Kokushi Musō reading otherwise.
pub open spec fn is_selection_split(tiles: Seq<Tile>, sets: Seq<MeldSet>) -> bool {
    if decomposable(tiles, all_positions(tiles.len() as int)) {
        is_split_of(tiles, sets)
    } else {
        is_kokushi(tiles) && kokushi_split_of(tiles, sets)
    }
}

pub fn orphan_index_exec(t: &Tile) -> (r: i8)
    ensures
        r == orphan_index(*t),
{
    match t.suit {
        Suit::Manzu => if t.rank == 1 { 0 } else if t.rank == 9 { 1 } else { -1 },
        Suit::Souzu => if t.rank == 1 { 2 } else if t.rank == 9 { 3 } else { -1 },
        Suit::Pinzu => if t.rank == 1 { 4 } else if t.rank == 9 { 5 } else { -1 },
        Suit::Wind => if 1 <= t.rank && t.rank <= 4 { 5 + t.rank as i8 } else { -1 },
        Suit::Dragon => if 1 <= t.rank && t.rank <= 3 { 9 + t.rank as i8 } else { -1 },
        Suit::Flower => -1,
    }
}

/// Two tiles with one terminal or honor index show the same face.
/// Two tiles with the same terminal or honor index show the same face.
pub proof fn lemma_orphan_index_face(a: Tile, b: Tile)
    requires
        orphan_index(a) >= 0,
        orphan_index(a) == orphan_index(b),
    ensures
        same_face(a, b),
        !is_flower(a),
        !is_flower(b),
{
}

/// Among fourteen tiles with indices in `0..13`, two share an index.
pub proof fn lemma_kokushi_doubled(tiles: Seq<Tile>)
    requires
        is_kokushi(tiles),
    ensures
        exists|i: int, j: int| 0 <= i < j < 14 && orphan_index(tiles[i]) == orphan_index(tiles[j]),
{
    if !(exists|i: int, j: int| 0 <= i < j < 14 && orphan_index(tiles[i]) == orphan_index(tiles[j])) {
        let x = vstd::set_lib::set_int_range(0, 14);
        let f = |i: int| orphan_index(tiles[i]);
        let y = x.map(f);
        vstd::set_lib::lemma_int_range(0, 14);
        vstd::set_lib::lemma_int_range(0, 13);
        assert(vstd::relations::injective_on(f, x)) by {
            assert forall|a: int, b: int| x.contains(a) && x.contains(b) && #[trigger] f(a) == #[trigger] f(b) implies a == b by {
                if a < b {
                    assert(orphan_index(tiles[a]) == orphan_index(tiles[b]));
                } else if b < a {
                    assert(orphan_index(tiles[b]) == orphan_index(tiles[a]));
                }
            }
        }
        vstd::set_lib::lemma_map_size(x, y, f);
        assert(y.subset_of(vstd::set_lib::set_int_range(0, 13))) by {
            assert forall|v: int| y.contains(v) implies vstd::set_lib::set_int_range(0, 13).contains(v) by {
                let i = choose|i: int| x.contains(i) && f(i) == v;
                assert(orphan_index(tiles[i]) >= 0);
            }
        }
        vstd::set_lib::lemma_len_subset(y, vstd::set_lib::set_int_range(0, 13));
    }
}

/// Positions `(i, j)`, `i < j`, of the doubled face of a Kokushi Musō
/// hand; `None` when the tiles are not one.
fn find_kokushi(tiles: &[Tile]) -> (r: Option<(usize, usize)>)
    ensures
        r is None <==> !is_kokushi(tiles@),
        r matches Some((i, j)) ==> i < j < tiles@.len() && same_face(tiles@[i as int], tiles@[j as int])
            && !is_flower(tiles@[i as int]) && orphan_index(tiles@[i as int]) == orphan_index(tiles@[j as int]),
{
    if tiles.len() != 14 {
        return None;
    }
    let mut p: usize = 0;
    while p < 14
        invariant
            p <= 14,
            tiles@.len() == 14,
            forall|q: int| 0 <= q < p ==> #[trigger] orphan_index(tiles@[q]) >= 0,
        decreases 14 - p,
    {
        if orphan_index_exec(&tiles[p]) < 0 {
            return None;
        }
        p += 1;
    }
    let mut k: i8 = 0;
    while k < 13
        invariant
            0 <= k <= 13,
            tiles@.len() == 14,
            forall|q: int| 0 <= q < 14 ==> #[trigger] orphan_index(tiles@[q]) >= 0,
            forall|m: int| 0 <= m < k ==> #[trigger] shows_face(tiles@, m),
        decreases 13 - k,
    {
        let mut q: usize = 0;
        let mut found = false;
        while q < 14
            invariant
                q <= 14,
                tiles@.len() == 14,
                found ==> exists|x: int| 0 <= x < 14 && #[trigger] orphan_index(tiles@[x]) == k,
                !found ==> forall|x: int| 0 <= x < q ==> #[trigger] orphan_index(tiles@[x]) != k,
            decreases 14 - q,
        {
            if !found && orphan_index_exec(&tiles[q]) == k {
                found = true;
            }
            q += 1;
        }
        if !found {
            proof {
                assert(!shows_face(tiles@, k as int));
            }
            return None;
        }
        assert(shows_face(tiles@, k as int));
        k += 1;
    }
    proof {
        lemma_kokushi_doubled(tiles@);
    }
    let mut i: usize = 0;
    while i < 14
        invariant
            i <= 14,
            tiles@.len() == 14,
            is_kokushi(tiles@),
            forall|a: int, b: int| 0 <= a < i && a < b < 14 ==> orphan_index(tiles@[a]) != orphan_index(tiles@[b]),
        decreases 14 - i,
    {
        let mut j: usize = i + 1;
        while j < 14
            invariant
                i < j <= 14,
                tiles@.len() == 14,
                is_kokushi(tiles@),
                forall|a: int, b: int| 0 <= a < i && a < b < 14 ==> orphan_index(tiles@[a]) != orphan_index(tiles@[b]),
                forall|b: int| i < b < j ==> orphan_index(tiles@[i as int]) != orphan_index(tiles@[b]),
            decreases 14 - j,
        {
            if orphan_index_exec(&tiles[i]) == orphan_index_exec(&tiles[j]) {
                proof {
                    lemma_orphan_index_face(tiles@[i as int], tiles@[j as int]);
                }
                return Some((i, j));
            }
            j += 1;
        }
        i += 1;
    }
    None
}

/// The set of the tiles at the given positions.
fn make_set(tiles: &[Tile], kind: MeldKind, g: &Vec<usize>) -> (r: MeldSet)
    requires
        forall|x: int| 0 <= x < g@.len() ==> g@[x] < tiles@.len(),
    ensures
        r.kind == kind,
        r.tile_ids@ == int_group(g@).map_values(|p: int| tiles@[p].id),
        r.tiles@ == int_group(g@).map_values(|p: int| tiles@[p]),
{
    let mut ids: Vec<u32> = Vec::new();
    let mut ts: Vec<Tile> = Vec::new();
    let mut q: usize = 0;
    while q < g.len()
        invariant
            q <= g.len(),
            forall|x: int| 0 <= x < g@.len() ==> g@[x] < tiles@.len(),
            ids@ == int_group(g@).take(q as int).map_values(|p: int| tiles@[p].id),
            ts@ == int_group(g@).take(q as int).map_values(|p: int| tiles@[p]),
        decreases g.len() - q,
    {
        ids.push(tiles[g[q]].id);
        ts.push(tiles[g[q]]);
        assert(ids@ =~= int_group(g@).take(q + 1).map_values(|p: int| tiles@[p].id));
        assert(ts@ =~= int_group(g@).take(q + 1).map_values(|p: int| tiles@[p]));
        q += 1;
    }
    assert(int_group(g@).take(q as int) =~= int_group(g@));
    MeldSet { kind, tile_ids: ids, tiles: ts }
}

/// The Kokushi Musō sets for the doubled face at positions `i < j`.
fn kokushi_sets(tiles: &[Tile], i: usize, j: usize) -> (r: Vec<MeldSet>)
    requires
        i < j < tiles@.len(),
        same_face(tiles@[i as int], tiles@[j as int]),
        !is_flower(tiles@[i as int]),
    ensures
        sets_match(tiles@, r@, kokushi_groups(tiles@.len() as int, i as int, j as int)),
{
    let n = tiles.len();
    let ghost gs = kokushi_groups(n as int, i as int, j as int);
    let mut sets: Vec<MeldSet> = Vec::new();
    let mut k: usize = 0;
    while k + 1 < n
        invariant
            k + 1 <= n,
            n == tiles@.len(),
            i < j < n,
            same_face(tiles@[i as int], tiles@[j as int]),
            !is_flower(tiles@[i as int]),
            gs == kokushi_groups(n as int, i as int, j as int),
            sets@.len() == k,
            forall|m: int| 0 <= m < k ==> {
                &&& Some(#[trigger] sets@[m].kind) == set_kind(tiles@, gs[m])
                &&& sets@[m].tile_ids@ == gs[m].map_values(|p: int| tiles@[p].id)
                &&& sets@[m].tiles@ == gs[m].map_values(|p: int| tiles@[p])
            },
        decreases n - k,
    {
        let p = if k < j { k } else { k + 1 };
        let (kind, g) = if p == i {
            (MeldKind::Pair, vec![i, j])
        } else {
            (MeldKind::Single, vec![p])
        };
        proof {
            assert(int_group(g@) =~= gs[k as int]);
        }
        let set = make_set(tiles, kind, &g);
        sets.push(set);
        k += 1;
    }
    sets
}

/// The positions of the doubled face of a Kokushi Musō hand.
pub open spec fn kokushi_pair(tiles: Seq<Tile>) -> (int, int) {
    choose|i: int, j: int| 0 <= i < j < tiles.len() && orphan_index(tiles[i]) == orphan_index(tiles[j])
}

/// The split a selection gets, as positions: the search's melds when it
/// finds some, else the Kokushi Musō reading when the tiles are one; `None`
/// for an empty selection or one that splits neither way.
pub open spec fn selection_groups(tiles: Seq<Tile>) -> Option<Seq<Seq<int>>> {
    if tiles.len() == 0 {
        None
    } else {
        match search_spec(tiles, full_mask(tiles.len())) {
            Some(gs) => Some(gs),
            None => if is_kokushi(tiles) {
                let (i, j) = kokushi_pair(tiles);
                Some(kokushi_groups(tiles.len() as int, i, j))
            } else {
                None
            },
        }
    }
}

/// Split a non-empty selection: into melds when it splits into melds (kinds
/// and tile ids), else as Kokushi Musō when it is one. `None` for an empty
/// selection or one that splits neither way.
pub fn validate_selection(tiles: &[Tile]) -> (r: Option<Vec<MeldSet>>)
    ensures
        tiles@.len() == 0 ==> r is None,
        tiles@.len() > 0 ==> (r is Some <==> selection_splits(tiles@)),
        r matches Some(sets) ==> is_selection_split(tiles@, sets@),
        r is Some <==> selection_groups(tiles@) is Some,
        r matches Some(sets) ==> sets_match(tiles@, sets@, selection_groups(tiles@)->0),
{
    if tiles.len() == 0 {
        return None;
    }
    let groups = match decompose(tiles) {
        Some(gs) => gs,
        None => {
            return match find_kokushi(tiles) {
                Some((i, j)) => {
                    proof {
                        let (a, b) = kokushi_pair(tiles@);
                        crate::kokushi::lemma_kokushi_doubled_once(tiles@, i as int, j as int, a, b);
                    }
                    let sets = kokushi_sets(tiles, i, j);
                    assert(kokushi_split_of(tiles@, sets@));
                    Some(sets)
                },
                None => None,
            };
        },
    };
    let ghost gi = int_groups(groups@);
    let ghost full = all_positions(tiles@.len() as int);
    assert(is_meld_partition(tiles@, gi, full));
    let mut sets: Vec<MeldSet> = Vec::new();
    let mut k: usize = 0;
    proof {
        lemma_partition_groups_ok(tiles@, gi, all_positions(tiles@.len() as int));
    }
    while k < groups.len()
        invariant
            k <= groups.len(),
            gi == int_groups(groups@),
            full == all_positions(tiles@.len() as int),
            is_meld_partition(tiles@, gi, full),
            sets@.len() == k,
            forall|m: int| 0 <= m < gi.len() ==> group_ok(tiles@, #[trigger] gi[m]) && forall|q: int|
                0 <= q < gi[m].len() ==> 0 <= #[trigger] gi[m][q] < tiles@.len(),
            forall|m: int| 0 <= m < k ==> {
                &&& Some(#[trigger] sets@[m].kind) == set_kind(tiles@, gi[m])
                &&& sets@[m].tile_ids@ == gi[m].map_values(|p: int| tiles@[p].id)
                &&& sets@[m].tiles@ == gi[m].map_values(|p: int| tiles@[p])
            },
        decreases groups.len() - k,
    {
        let g = &groups[k];
        assert(gi[k as int] == int_group(g@));
        proof {
            assert forall|q: int| 0 <= q < g@.len() implies g@[q] < tiles@.len() by {
                assert(gi[k as int][q] == g@[q] as int);
            }
        }
        let kind = match meld_kind(tiles, g) {
            Some(kd) => kd,
            None => MeldKind::Pair,
        };
        let set = make_set(tiles, kind, g);
        sets.push(set);
        k += 1;
    }
    assert(sets_match(tiles@, sets@, gi));
    assert(is_meld_partition(tiles@, gi, full));
    assert(is_split_of(tiles@, sets@));
    Some(sets)
}

/// Every meld of a split is a valid meld of positions inside the split set.
pub proof fn lemma_partition_groups_ok(tiles: Seq<Tile>, gs: Seq<Seq<int>>, r: Set<int>)
    requires
        is_meld_partition(tiles, gs, r),
        forall|x: int| #[trigger] r.contains(x) ==> 0 <= x < tiles.len(),
    ensures
        forall|m: int| 0 <= m < gs.len() ==> group_ok(tiles, #[trigger] gs[m]) && forall|q: int|
            0 <= q < gs[m].len() ==> 0 <= #[trigger] gs[m][q] < tiles.len(),
    decreases gs.len(),
{
    if gs.len() > 0 {
        let r2 = r.difference(gs[0].to_set());
        lemma_partition_groups_ok(tiles, gs.drop_first(), r2);
        assert forall|m: int| 0 <= m < gs.len() implies group_ok(tiles, #[trigger] gs[m]) && forall|q: int|
            0 <= q < gs[m].len() ==> 0 <= #[trigger] gs[m][q] < tiles.len() by {
            if m == 0 {
                assert forall|q: int| 0 <= q < gs[0].len() implies 0 <= #[trigger] gs[0][q] < tiles.len() by {
                    assert(gs[0].to_set().contains(gs[0][q]));
                }
            } else {
                assert(gs[m] == gs.drop_first()[m - 1]);
            }
        }
    }
}

/// The first meld of a split of a non-empty set has two or more increasing
/// positions inside the set.
proof fn lemma_first_group(tiles: Seq<Tile>, gs: Seq<Seq<int>>, r: Set<int>, x: int)
    requires
        is_meld_partition(tiles, gs, r),
        r.contains(x),
    ensures
        gs.len() > 0,
        group_ok(tiles, gs[0]),
        2 <= gs[0].len() <= 4,
        gs[0].to_set().subset_of(r),
{
    if gs.len() == 0 {
        assert(r.contains(x));
    }
}

/// A selection that is exactly one meld splits.
pub proof fn lemma_one_meld_splits(tiles: Seq<Tile>, g: Seq<int>)
    requires
        group_ok(tiles, g),
        g.to_set() =~= all_positions(tiles.len() as int),
    ensures
        selection_splits(tiles),
{
    let gs = seq![g];
    let r = all_positions(tiles.len() as int);
    assert(gs[0] == g);
    assert(gs.drop_first() =~= Seq::<Seq<int>>::empty());
    assert(r.difference(g.to_set()) =~= Set::<int>::empty());
    assert(is_meld_partition(tiles, gs.drop_first(), r.difference(g.to_set())));
    assert(g.to_set().subset_of(r));
    assert(is_meld_partition(tiles, gs, r));
}

/// A single tile never splits: no meld has fewer than two tiles.
pub proof fn lemma_single_tile_never_splits(t: Tile)
    ensures
        !selection_splits(seq![t]),
{
    let tiles = seq![t];
    let r = all_positions(1);
    if decomposable(tiles, r) {
        let gs = choose|gs: Seq<Seq<int>>| is_meld_partition(tiles, gs, r);
        assert(r.contains(0));
        lemma_first_group(tiles, gs, r, 0);
        let g = gs[0];
        assert(g.to_set().contains(g[0]) && g.to_set().contains(g[1]));
        assert(g[0] < g[1]);
    }
}

/// A flower never pairs with a natural tile: the two of them, in either
/// order, do not split.
pub proof fn lemma_flower_never_pairs_with_natural(a: Tile, f: Tile)
    requires
        !is_flower(a),
        is_flower(f),
    ensures
        !selection_splits(seq![a, f]),
        !selection_splits(seq![f, a]),
{
    lemma_two_tiles_split_only_as_pair(seq![a, f]);
    lemma_two_tiles_split_only_as_pair(seq![f, a]);
}

/// Two tiles split exactly when they form a pair.
pub proof fn lemma_two_tiles_split_only_as_pair(tiles: Seq<Tile>)
    requires
        tiles.len() == 2,
    ensures
        selection_splits(tiles) <==> kind2(tiles[0], tiles[1]) is Some,
{
    let r = all_positions(2);
    if decomposable(tiles, r) {
        let gs = choose|gs: Seq<Seq<int>>| is_meld_partition(tiles, gs, r);
        assert(r.contains(0));
        lemma_first_group(tiles, gs, r, 0);
        let g = gs[0];
        assert(g.to_set().contains(g[0]) && g.to_set().contains(g[1]));
        assert(g[0] < g[1]);
        if g.len() > 2 {
            assert(g.to_set().contains(g[2]));
            assert(g[1] < g[2]);
        }
        assert(g =~= seq![0int, 1]);
    }
    if kind2(tiles[0], tiles[1]) is Some {
        let g = seq![0int, 1];
        assert(g.to_set() =~= r) by {
            assert(g[0] == 0 && g[1] == 1);
        }
        lemma_one_meld_splits(tiles, g);
    }
}

/// A flower mends two natural tiles into a meld: two of one face into a
/// triplet, two of one number suit one or two ranks apart into a sequence.
pub proof fn lemma_flower_mends_meld(a: Tile, b: Tile, f: Tile)
    requires
        !is_flower(a),
        !is_flower(b),
        is_flower(f),
        same_face(a, b) || sequence_with_gap(a, b),
    ensures
        selection_splits(seq![a, b, f]),
{
    let tiles = seq![a, b, f];
    let g = seq![0int, 1, 2];
    assert(g.to_set() =~= all_positions(3)) by {
        assert(g[0] == 0 && g[1] == 1 && g[2] == 2);
    }
    assert(group_kind(tiles, g) == kind3(a, b, f));
    lemma_one_meld_splits(tiles, g);
}

/// Three tiles split exactly when the three of them form one meld.
pub proof fn lemma_three_tiles_split_only_as_meld(tiles: Seq<Tile>)
    requires
        tiles.len() == 3,
    ensures
        selection_splits(tiles) <==> kind3(tiles[0], tiles[1], tiles[2]) is Some,
{
    let r = all_positions(3);
    let g3 = seq![0int, 1, 2];
    assert(g3.to_set() =~= r) by {
        assert(g3[0] == 0 && g3[1] == 1 && g3[2] == 2);
    }
    if decomposable(tiles, r) {
        let gs = choose|gs: Seq<Seq<int>>| is_meld_partition(tiles, gs, r);
        assert(r.contains(0));
        lemma_first_group(tiles, gs, r, 0);
        let g = gs[0];
        assert(g.to_set().contains(g[0]) && g.to_set().contains(g[1]));
        assert(g[0] < g[1]);
        if g.len() == 2 {
            let r2 = r.difference(g.to_set());
            let x = if g[0] != 0 { 0int } else if g[1] != 1 { 1int } else { 2int };
            assert(r2.contains(x));
            lemma_first_group(tiles, gs.drop_first(), r2, x);
            let h = gs.drop_first()[0];
            assert(h.to_set().contains(h[0]) && h.to_set().contains(h[1]));
            assert(h[0] < h[1]);
            assert(r2.contains(h[0]) && r2.contains(h[1]));
            assert(false);
        } else {
            assert(g.to_set().contains(g[2]));
            assert(g[1] < g[2]);
            if g.len() == 4 {
                assert(g.to_set().contains(g[3]));
                assert(g[2] < g[3]);
            }
            assert(g =~= g3);
        }
    }
    if kind3(tiles[0], tiles[1], tiles[2]) is Some {
        lemma_one_meld_splits(tiles, g3);
    }
}

/// A split uses every position of the split set exactly once: each one
/// lies in some meld, nothing else does, and no two melds share one.
pub proof fn lemma_partition_exact(tiles: Seq<Tile>, gs: Seq<Seq<int>>, r: Set<int>)
    requires
        is_meld_partition(tiles, gs, r),
    ensures
        forall|x: int| r.contains(x) <==> exists|k: int| 0 <= k < gs.len() && #[trigger] gs[k].contains(x),
        forall|k1: int, k2: int, x: int|
            0 <= k1 < k2 < gs.len() && #[trigger] gs[k1].contains(x) ==> !#[trigger] gs[k2].contains(x),
    decreases gs.len(),
{
    if gs.len() > 0 {
        let g0 = gs[0];
        let rest = gs.drop_first();
        let r2 = r.difference(g0.to_set());
        lemma_partition_exact(tiles, rest, r2);
        assert forall|x: int| r.contains(x) <==> exists|k: int| 0 <= k < gs.len() && #[trigger] gs[k].contains(x) by {
            if r.contains(x) {
                if g0.contains(x) {
                    assert(gs[0].contains(x));
                } else {
                    assert(!g0.to_set().contains(x));
                    assert(r2.contains(x));
                    let k = choose|k: int| 0 <= k < rest.len() && #[trigger] rest[k].contains(x);
                    assert(gs[k + 1] == rest[k]);
                }
            }
            if exists|k: int| 0 <= k < gs.len() && #[trigger] gs[k].contains(x) {
                let k = choose|k: int| 0 <= k < gs.len() && #[trigger] gs[k].contains(x);
                if k == 0 {
                    assert(g0.to_set().contains(x));
                } else {
                    assert(rest[k - 1] == gs[k]);
                    assert(r2.contains(x));
                }
            }
        }
        assert forall|k1: int, k2: int, x: int|
            0 <= k1 < k2 < gs.len() && #[trigger] gs[k1].contains(x) implies !#[trigger] gs[k2].contains(x) by {
            assert(rest[k2 - 1] == gs[k2]);
            if k1 == 0 {
                if gs[k2].contains(x) {
                    assert(r2.contains(x));
                    assert(g0.to_set().contains(x));
                }
            } else {
                assert(rest[k1 - 1] == gs[k1]);
            }
        }
    }
}

} // verus!
