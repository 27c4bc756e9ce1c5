//! Guide page content: tile constructors, the tile groups shown on the
//! reference pages, and the margin scrawls.

use vstd::prelude::*;
use crate::tiles::{Suit, Tile};
use super::{PAGE_FLOWERS, PAGE_MELDS};

verus! {

/// A labelled group of tiles forming one meld (or tile-category cluster).
pub struct TileGroup {
    pub label: &'static str,
    pub tiles: Vec<Tile>,
    /// Second line under the label.
    pub subtitle: Option<&'static str>,
    /// Draw a bordered panel behind this example cell.
    pub framed: bool,
}

pub fn tile_group(label: &'static str, tiles: Vec<Tile>) -> (r: TileGroup)
    ensures
        r.label == label,
        r.tiles@ == tiles@,
        r.subtitle is None,
        !r.framed,
{
    TileGroup { label, tiles, subtitle: None, framed: false }
}

pub fn tile_group_with_subtitle(label: &'static str, subtitle: &'static str, tiles: Vec<Tile>) -> (r: TileGroup)
    ensures
        r.label == label,
        r.tiles@ == tiles@,
        r.subtitle == Some(subtitle),
        !r.framed,
{
    TileGroup { label, tiles, subtitle: Some(subtitle), framed: false }
}

pub fn tile_group_framed(label: &'static str, subtitle: &'static str, tiles: Vec<Tile>) -> (r: TileGroup)
    ensures
        r.label == label,
        r.tiles@ == tiles@,
        r.subtitle == Some(subtitle),
        r.framed,
{
    TileGroup { label, tiles, subtitle: Some(subtitle), framed: true }
}

/// The label marks an invalid example: it starts with "Invalid".
pub open spec fn invalid_label(label: &'static str) -> bool {
    label@.len() >= 7 && label@.subrange(0, 7) == "Invalid"@
}

/// Does the label mark an invalid example (drawn with wobbling tiles)?
pub fn guide_example_is_invalid(group: &TileGroup) -> (r: bool)
    ensures
        r == invalid_label(group.label),
{
    proof {
        reveal_strlit("Invalid");
    }
    let label = group.label;
    let n = label.unicode_len();
    if n < 7 {
        return false;
    }
    let prefix = "Invalid";
    let mut i: usize = 0;
    while i < 7
        invariant
            i <= 7,
            n == label@.len(),
            label == group.label,
            n >= 7,
            prefix@ == "Invalid"@,
            prefix@.len() == 7,
            forall|j: int| 0 <= j < i ==> label@[j] == prefix@[j],
        decreases 7 - i,
    {
        let a = label.get_char(i);
        let b = prefix.get_char(i);
        if a != b {
            proof {
                assert(label@.subrange(0, 7)[i as int] == a);
                assert(prefix@[i as int] == b);
                assert(label@.subrange(0, 7) != prefix@);
            }
            return false;
        }
        i += 1;
    }
    assert(label@.subrange(0, 7) =~= prefix@);
    true
}

/// Convenience tile constructor.
pub fn t(suit: Suit, rank: u8, id: u32) -> (r: Tile)
    ensures
        r == Tile::new_spec(suit, rank, id),
{
    Tile::new(suit, rank, id)
}

/// The nine tiles of a number suit, ranks 1 to 9, with consecutive ids from `id_base`.
pub fn suit_ranks(suit: Suit, id_base: u32) -> (r: Vec<Tile>)
    requires
        id_base + 8 <= u32::MAX,
    ensures
        r@.len() == 9,
        forall|k: int| 0 <= k < 9 ==> #[trigger] r@[k] == Tile::new_spec(suit, (k + 1) as u8, (id_base + k) as u32),
{
    let mut v: Vec<Tile> = Vec::new();
    let mut rank: u8 = 1;
    while rank <= 9
        invariant
            1 <= rank <= 10,
            id_base + 8 <= u32::MAX,
            v@.len() == rank - 1,
            forall|k: int| 0 <= k < v@.len() ==> #[trigger] v@[k] == Tile::new_spec(suit, (k + 1) as u8, (id_base + k) as u32),
        decreases 10 - rank,
    {
        v.push(t(suit, rank, id_base + (rank - 1) as u32));
        rank += 1;
    }
    v
}

/// Optional in-universe margin scrawl for a page.
pub open spec fn graffiti_spec(page: usize) -> Option<&'static str> {
    if page == PAGE_MELDS {
        Some("\"What use is a single tile? The House has rejected everything I've tried.\"  \u{2014} Mastromonaco")
    } else if page == PAGE_FLOWERS {
        Some("\"A flower may mend a triplet or a sequence, yet never weds a stranger as a pair. why?\"  \u{2014} Nicole")
    } else {
        None
    }
}

pub fn page_graffiti(page: usize) -> (r: Option<&'static str>)
    ensures
        r == graffiti_spec(page),
{
    if page == PAGE_MELDS {
        Some("\"What use is a single tile? The House has rejected everything I've tried.\"  \u{2014} Mastromonaco")
    } else if page == PAGE_FLOWERS {
        Some("\"A flower may mend a triplet or a sequence, yet never weds a stranger as a pair. why?\"  \u{2014} Nicole")
    } else {
        None
    }
}

} // verus!
