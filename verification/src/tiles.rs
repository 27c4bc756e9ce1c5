//! Tiles, suits and yaku kinds as the scenes read them.

use vstd::prelude::*;

verus! {

/// The suit of a tile.
#[derive(Clone, Copy, Debug, PartialEq, Eq, Structural)]
pub enum Suit {
    Manzu,
    Souzu,
    Pinzu,
    Wind,
    Dragon,
    Flower,
}

/// One tile: suit, rank and a unique id (the renderer treats equal ids as the same tile).
#[derive(Clone, Copy, Debug, PartialEq, Eq, Structural)]
pub struct Tile {
    pub suit: Suit,
    pub rank: u8,
    pub id: u32,
    /// Drawn greyed out (guide example of a debuffed tile).
    pub debuffed_visual: bool,
}

impl Tile {
    /// The plain (not debuffed) tile of a suit, rank and id.
    pub open spec fn new_spec(suit: Suit, rank: u8, id: u32) -> Tile {
        Tile { suit, rank, id, debuffed_visual: false }
    }

    /// A plain (not debuffed) tile.
    pub fn new(suit: Suit, rank: u8, id: u32) -> (r: Tile)
        ensures
            r == Tile::new_spec(suit, rank, id),
    {
        Tile { suit, rank, id, debuffed_visual: false }
    }
}

/// A scoring pattern of a complete hand.
#[derive(Clone, Copy, Debug, PartialEq, Eq, Structural)]
pub enum YakuKind {
    ChickenHand,
    Tanyao,
    Toitoi,
    Shousangen,
    Daisangen,
    Yakuhai,
    Iipeikou,
    Ryanpeikou,
    SanshokuDoujun,
    SanshokuDoukou,
    Ittsu,
    Honitsu,
    Chinitsu,
    Junchan,
    Honroutou,
    Chanta,
    Chiitoitsu,
    KokushiMusou,
    Pinfu,
}

/// Number of yaku kinds.
pub const YAKU_KIND_COUNT: usize = 19;

impl YakuKind {
    /// Every yaku kind, in declaration order.
    pub open spec fn all_spec() -> Seq<YakuKind> {
        seq![YakuKind::ChickenHand, YakuKind::Tanyao, YakuKind::Toitoi, YakuKind::Shousangen, YakuKind::Daisangen, YakuKind::Yakuhai, YakuKind::Iipeikou, YakuKind::Ryanpeikou, YakuKind::SanshokuDoujun, YakuKind::SanshokuDoukou, YakuKind::Ittsu, YakuKind::Honitsu, YakuKind::Chinitsu, YakuKind::Junchan, YakuKind::Honroutou, YakuKind::Chanta, YakuKind::Chiitoitsu, YakuKind::KokushiMusou, YakuKind::Pinfu]
    }

    /// Every yaku kind, once each, in declaration order.
    pub fn all() -> (r: Vec<YakuKind>)
        ensures
            r@ == Self::all_spec(),
            r@.len() == YAKU_KIND_COUNT,
            forall|yk: YakuKind| r@.contains(yk),
            r@.no_duplicates(),
    {
        let r = vec![YakuKind::ChickenHand, YakuKind::Tanyao, YakuKind::Toitoi, YakuKind::Shousangen, YakuKind::Daisangen, YakuKind::Yakuhai, YakuKind::Iipeikou, YakuKind::Ryanpeikou, YakuKind::SanshokuDoujun, YakuKind::SanshokuDoukou, YakuKind::Ittsu, YakuKind::Honitsu, YakuKind::Chinitsu, YakuKind::Junchan, YakuKind::Honroutou, YakuKind::Chanta, YakuKind::Chiitoitsu, YakuKind::KokushiMusou, YakuKind::Pinfu];
        assert(r@ =~= Self::all_spec());
        assert forall|yk: YakuKind| r@.contains(yk) by {
            match yk {
                YakuKind::ChickenHand => assert(r@[0] == yk),
                YakuKind::Tanyao => assert(r@[1] == yk),
                YakuKind::Toitoi => assert(r@[2] == yk),
                YakuKind::Shousangen => assert(r@[3] == yk),
                YakuKind::Daisangen => assert(r@[4] == yk),
                YakuKind::Yakuhai => assert(r@[5] == yk),
                YakuKind::Iipeikou => assert(r@[6] == yk),
                YakuKind::Ryanpeikou => assert(r@[7] == yk),
                YakuKind::SanshokuDoujun => assert(r@[8] == yk),
                YakuKind::SanshokuDoukou => assert(r@[9] == yk),
                YakuKind::Ittsu => assert(r@[10] == yk),
                YakuKind::Honitsu => assert(r@[11] == yk),
                YakuKind::Chinitsu => assert(r@[12] == yk),
                YakuKind::Junchan => assert(r@[13] == yk),
                YakuKind::Honroutou => assert(r@[14] == yk),
                YakuKind::Chanta => assert(r@[15] == yk),
                YakuKind::Chiitoitsu => assert(r@[16] == yk),
                YakuKind::KokushiMusou => assert(r@[17] == yk),
                YakuKind::Pinfu => assert(r@[18] == yk),
            }
        }
        r
    }
}

} // verus!
