//! Yaku detection over a decomposed selection.
//!
//! Each meld is read as a face: its kind, suit and lowest rank. A flower
//! completing a sequence of two adjacent tiles extends it upward unless the
//! upper tile is a 9. Melds made only of flowers are neutral: they never
//! satisfy nor break a suit or tile-rank condition, but count by their kind.
//! A Kokushi Musō reading (one pair and twelve singles showing the thirteen
//! terminal and honor faces) scores Kokushi Musō alone.

use vstd::prelude::*;
use crate::hand::{MeldKind, MeldSet, is_flower, is_number_suit, orphan_index, orphan_index_exec};
use crate::tiles::{Suit, Tile, YakuKind};

verus! {

/// How a meld reads for yaku: kind, suit (`Flower` for an all-flower meld)
/// and lowest rank (0 for an all-flower meld).
#[derive(Clone, Copy, Debug, PartialEq, Eq, Structural)]
pub struct MeldFace {
    pub kind: MeldKind,
    pub suit: Suit,
    pub lo: u8,
}

pub open spec fn natural_count(ts: Seq<Tile>) -> nat
    decreases ts.len(),
{
    if ts.len() == 0 {
        0
    } else {
        natural_count(ts.drop_last()) + if is_flower(ts.last()) { 0nat } else { 1nat }
    }
}

pub open spec fn first_natural(ts: Seq<Tile>) -> Option<Tile>
    decreases ts.len(),
{
    if ts.len() == 0 {
        None
    } else {
        match first_natural(ts.drop_last()) {
            Some(t) => Some(t),
            None => if is_flower(ts.last()) { None } else { Some(ts.last()) },
        }
    }
}

/// Lowest rank among natural tiles (255 when none).
pub open spec fn min_nat_rank(ts: Seq<Tile>) -> int
    decreases ts.len(),
{
    if ts.len() == 0 {
        255
    } else {
        let prev = min_nat_rank(ts.drop_last());
        if !is_flower(ts.last()) && (ts.last().rank as int) < prev { ts.last().rank as int } else { prev }
    }
}

/// Highest rank among natural tiles (0 when none).
pub open spec fn max_nat_rank(ts: Seq<Tile>) -> int
    decreases ts.len(),
{
    if ts.len() == 0 {
        0
    } else {
        let prev = max_nat_rank(ts.drop_last());
        if !is_flower(ts.last()) && (ts.last().rank as int) > prev { ts.last().rank as int } else { prev }
    }
}

/// The face of a meld of the given kind made of `ts`.
pub open spec fn face_spec(kind: MeldKind, ts: Seq<Tile>) -> MeldFace {
    match first_natural(ts) {
        None => MeldFace { kind, suit: Suit::Flower, lo: 0 },
        Some(t) => if kind == MeldKind::Sequence {
            let lo = min_nat_rank(ts);
            let hi = max_nat_rank(ts);
            let run = if natural_count(ts) == 2 && hi - lo == 1 && hi == 9 { lo - 1 } else { lo };
            MeldFace { kind, suit: t.suit, lo: run as u8 }
        } else {
            MeldFace { kind, suit: t.suit, lo: t.rank }
        },
    }
}

/// Face of a decomposed meld.
pub fn meld_face(set: &MeldSet) -> (r: MeldFace)
    ensures
        r == face_spec(set.kind, set.tiles@),
{
    let ts = &set.tiles;
    let mut first: Option<Tile> = None;
    let mut count: usize = 0;
    let mut lo: u8 = 255;
    let mut hi: u8 = 0;
    let mut i: usize = 0;
    while i < ts.len()
        invariant
            i <= ts.len(),
            first == first_natural(ts@.take(i as int)),
            count == natural_count(ts@.take(i as int)),
            count <= i,
            lo == min_nat_rank(ts@.take(i as int)),
            hi == max_nat_rank(ts@.take(i as int)),
        decreases ts.len() - i,
    {
        let t = ts[i];
        proof {
            assert(ts@.take(i + 1).drop_last() =~= ts@.take(i as int));
            assert(ts@.take(i + 1).last() == t);
        }
        if t.suit != Suit::Flower {
            if first.is_none() {
                first = Some(t);
            }
            count += 1;
            if t.rank < lo {
                lo = t.rank;
            }
            if t.rank > hi {
                hi = t.rank;
            }
        }
        i += 1;
    }
    assert(ts@.take(ts@.len() as int) =~= ts@);
    match first {
        None => MeldFace { kind: set.kind, suit: Suit::Flower, lo: 0 },
        Some(t) => {
            if set.kind == MeldKind::Sequence {
                let run: u8 = if count == 2 && hi >= lo && hi - lo == 1 && hi == 9 { lo - 1 } else { lo };
                MeldFace { kind: set.kind, suit: t.suit, lo: run }
            } else {
                MeldFace { kind: set.kind, suit: t.suit, lo: t.rank }
            }
        },
    }
}

/// A property of a meld face, counted over the melds of a hand.
#[derive(Clone, Copy, Debug, PartialEq, Eq, Structural)]
pub enum FacePred {
    IsSequence,
    TripletOrKong,
    IsPair,
    Natural,
    Honor,
    SuitIs(Suit),
    SequenceAt(Suit, u8),
    TripletAt(Suit, u8),
    PairAt(Suit, u8),
    /// Only simples (number tiles 2–8), or an all-flower meld.
    SimpleOnly,
    /// Holds a number tile 1 or 9.
    HasTerminal,
    /// Holds a terminal or is an honor meld.
    TouchesTerminalOrHonor,
    /// Only terminals and honors, or an all-flower meld.
    TerminalOrHonorOnly,
    /// A pair of one number suit ranked 2–8.
    SimplePair,
    /// A dragon triplet or kong.
    DragonTriplet,
    /// A wind triplet or kong of the round wind or the bonus round wind.
    WindYakuhai(Option<u8>, Option<u8>),
    /// A lone tile.
    IsSingle,
    /// Shows the terminal or honor face of the given index.
    OrphanAt(u8),
}

pub open spec fn is_honor(s: Suit) -> bool {
    s == Suit::Wind || s == Suit::Dragon
}

pub open spec fn is_triplet_or_kong(k: MeldKind) -> bool {
    k == MeldKind::Triplet || k == MeldKind::Kong
}

/// Terminal or honor index of a face (-1 for any other).
pub open spec fn face_orphan_index(f: MeldFace) -> int {
    orphan_index(Tile { suit: f.suit, rank: f.lo, id: 0, debuffed_visual: false })
}

pub open spec fn face_pred(p: FacePred, f: MeldFace) -> bool {
    let seq_hi = f.lo as int + 2;
    match p {
        FacePred::IsSequence => f.kind == MeldKind::Sequence,
        FacePred::TripletOrKong => is_triplet_or_kong(f.kind),
        FacePred::IsPair => f.kind == MeldKind::Pair,
        FacePred::Natural => f.suit != Suit::Flower,
        FacePred::Honor => is_honor(f.suit),
        FacePred::SuitIs(s) => f.suit == s,
        FacePred::SequenceAt(s, lo) => f.kind == MeldKind::Sequence && f.suit == s && f.lo == lo,
        FacePred::TripletAt(s, r) => is_triplet_or_kong(f.kind) && f.suit == s && f.lo == r,
        FacePred::PairAt(s, r) => f.kind == MeldKind::Pair && f.suit == s && f.lo == r,
        FacePred::SimpleOnly => f.suit == Suit::Flower || (is_number_suit(f.suit) && 2 <= f.lo && (
        if f.kind == MeldKind::Sequence { seq_hi <= 8 } else { f.lo <= 8 })),
        FacePred::HasTerminal => is_number_suit(f.suit) && (f.lo == 1 || (if f.kind
            == MeldKind::Sequence { seq_hi == 9 } else { f.lo == 9 })),
        FacePred::TouchesTerminalOrHonor => is_honor(f.suit) || (is_number_suit(f.suit) && (f.lo == 1
            || (if f.kind == MeldKind::Sequence { seq_hi == 9 } else { f.lo == 9 }))),
        FacePred::TerminalOrHonorOnly => f.suit == Suit::Flower || is_honor(f.suit) || (is_number_suit(
            f.suit,
        ) && f.kind != MeldKind::Sequence && (f.lo == 1 || f.lo == 9)),
        FacePred::SimplePair => f.kind == MeldKind::Pair && is_number_suit(f.suit) && 2 <= f.lo <= 8,
        FacePred::DragonTriplet => is_triplet_or_kong(f.kind) && f.suit == Suit::Dragon,
        FacePred::WindYakuhai(round, bonus) => is_triplet_or_kong(f.kind) && f.suit == Suit::Wind && (
        round == Some(f.lo) || bonus == Some(f.lo)),
        FacePred::IsSingle => f.kind == MeldKind::Single,
        FacePred::OrphanAt(k) => face_orphan_index(f) == k as int,
    }
}

pub fn face_pred_exec(p: FacePred, f: MeldFace) -> (r: bool)
    ensures
        r == face_pred(p, f),
{
    let number = matches!(f.suit, Suit::Manzu | Suit::Souzu | Suit::Pinzu);
    let honor = matches!(f.suit, Suit::Wind | Suit::Dragon);
    let tk = matches!(f.kind, MeldKind::Triplet | MeldKind::Kong);
    let is_seq = f.kind == MeldKind::Sequence;
    let seq_hi: u16 = f.lo as u16 + 2;
    match p {
        FacePred::IsSequence => is_seq,
        FacePred::TripletOrKong => tk,
        FacePred::IsPair => f.kind == MeldKind::Pair,
        FacePred::Natural => f.suit != Suit::Flower,
        FacePred::Honor => honor,
        FacePred::SuitIs(s) => f.suit == s,
        FacePred::SequenceAt(s, lo) => is_seq && f.suit == s && f.lo == lo,
        FacePred::TripletAt(s, rk) => tk && f.suit == s && f.lo == rk,
        FacePred::PairAt(s, rk) => f.kind == MeldKind::Pair && f.suit == s && f.lo == rk,
        FacePred::SimpleOnly => f.suit == Suit::Flower || (number && 2 <= f.lo && (if is_seq {
            seq_hi <= 8
        } else {
            f.lo <= 8
        })),
        FacePred::HasTerminal => number && (f.lo == 1 || (if is_seq { seq_hi == 9 } else { f.lo == 9 })),
        FacePred::TouchesTerminalOrHonor => honor || (number && (f.lo == 1 || (if is_seq {
            seq_hi == 9
        } else {
            f.lo == 9
        }))),
        FacePred::TerminalOrHonorOnly => f.suit == Suit::Flower || honor || (number && !is_seq && (f.lo
            == 1 || f.lo == 9)),
        FacePred::SimplePair => f.kind == MeldKind::Pair && number && 2 <= f.lo && f.lo <= 8,
        FacePred::DragonTriplet => tk && f.suit == Suit::Dragon,
        FacePred::WindYakuhai(round, bonus) => tk && f.suit == Suit::Wind && (round == Some(f.lo)
            || bonus == Some(f.lo)),
        FacePred::IsSingle => f.kind == MeldKind::Single,
        FacePred::OrphanAt(k) => {
            let t = Tile { suit: f.suit, rank: f.lo, id: 0, debuffed_visual: false };
            orphan_index_exec(&t) as i16 == k as i16
        },
    }
}

/// Number of faces with the property.
pub open spec fn count_pred(fs: Seq<MeldFace>, p: FacePred) -> nat
    decreases fs.len(),
{
    if fs.len() == 0 {
        0
    } else {
        count_pred(fs.drop_last(), p) + if face_pred(p, fs.last()) { 1nat } else { 0nat }
    }
}

proof fn lemma_count_le(fs: Seq<MeldFace>, p: FacePred)
    ensures
        count_pred(fs, p) <= fs.len(),
    decreases fs.len(),
{
    if fs.len() > 0 {
        lemma_count_le(fs.drop_last(), p);
    }
}

pub fn count_where(fs: &Vec<MeldFace>, p: FacePred) -> (r: usize)
    ensures
        r == count_pred(fs@, p),
{
    let mut c: usize = 0;
    let mut i: usize = 0;
    while i < fs.len()
        invariant
            i <= fs.len(),
            c == count_pred(fs@.take(i as int), p),
            c <= i,
        decreases fs.len() - i,
    {
        proof {
            assert(fs@.take(i + 1).drop_last() =~= fs@.take(i as int));
            assert(fs@.take(i + 1).last() == fs@[i as int]);
        }
        if face_pred_exec(p, fs[i]) {
            c += 1;
        }
        i += 1;
    }
    assert(fs@.take(fs@.len() as int) =~= fs@);
    c
}


pub open spec fn cnt(fs: Seq<MeldFace>, p: FacePred) -> int {
    count_pred(fs, p) as int
}

/// Four melds and one pair (a kong fills a meld slot).
pub open spec fn full_hand(fs: Seq<MeldFace>) -> bool {
    fs.len() == 5 && cnt(fs, FacePred::IsPair) == 1
}

pub open spec fn tanyao(fs: Seq<MeldFace>) -> bool {
    cnt(fs, FacePred::SimpleOnly) == fs.len() && cnt(fs, FacePred::Natural) > 0
}

pub open spec fn toitoi(fs: Seq<MeldFace>) -> bool {
    cnt(fs, FacePred::TripletOrKong) >= 2 && cnt(fs, FacePred::IsSequence) == 0
}

pub open spec fn dragon_trip(fs: Seq<MeldFace>, r: u8) -> bool {
    cnt(fs, FacePred::TripletAt(Suit::Dragon, r)) > 0
}

pub open spec fn dragon_pair(fs: Seq<MeldFace>, r: u8) -> bool {
    cnt(fs, FacePred::PairAt(Suit::Dragon, r)) > 0
}

pub open spec fn daisangen(fs: Seq<MeldFace>) -> bool {
    full_hand(fs) && dragon_trip(fs, 1) && dragon_trip(fs, 2) && dragon_trip(fs, 3)
}

pub open spec fn shousangen(fs: Seq<MeldFace>) -> bool {
    &&& full_hand(fs)
    &&& !daisangen(fs)
    &&& ((dragon_trip(fs, 1) && dragon_trip(fs, 2) && dragon_pair(fs, 3)) || (dragon_trip(fs, 1)
        && dragon_trip(fs, 3) && dragon_pair(fs, 2)) || (dragon_trip(fs, 2) && dragon_trip(fs, 3)
        && dragon_pair(fs, 1)))
}

/// Number of Yakuhai the hand scores: each dragon triplet/kong (unless
/// Shousangen or Daisangen replaces them) and each wind triplet/kong of the
/// round or bonus round wind.
pub open spec fn yakuhai_count(fs: Seq<MeldFace>, round: Option<u8>, bonus: Option<u8>) -> int {
    (if shousangen(fs) || daisangen(fs) { 0 } else { cnt(fs, FacePred::DragonTriplet) }) + cnt(
        fs,
        FacePred::WindYakuhai(round, bonus),
    )
}

pub open spec fn doubled_sequence_at(fs: Seq<MeldFace>, i: int) -> bool {
    fs[i].kind == MeldKind::Sequence && cnt(fs, FacePred::SequenceAt(fs[i].suit, fs[i].lo)) >= 2
}

/// Faces `i` and `j` are two different sequences of one suit, each doubled.
pub open spec fn doubled_pair(fs: Seq<MeldFace>, i: int, j: int) -> bool {
    &&& doubled_sequence_at(fs, i)
    &&& doubled_sequence_at(fs, j)
    &&& fs[i].suit == fs[j].suit
    &&& fs[i].lo != fs[j].lo
    &&& cnt(fs, FacePred::SequenceAt(fs[i].suit, fs[i].lo)) == 2
    &&& cnt(fs, FacePred::SequenceAt(fs[j].suit, fs[j].lo)) == 2
}

pub open spec fn ryanpeikou(fs: Seq<MeldFace>) -> bool {
    &&& full_hand(fs)
    &&& cnt(fs, FacePred::IsSequence) == 4
    &&& exists|i: int, j: int| 0 <= i < fs.len() && 0 <= j < fs.len() && #[trigger] doubled_pair(fs, i, j)
}

pub open spec fn iipeikou(fs: Seq<MeldFace>) -> bool {
    (exists|i: int| 0 <= i < fs.len() && #[trigger] doubled_sequence_at(fs, i)) && !ryanpeikou(fs)
}

pub open spec fn sanshoku_doujun(fs: Seq<MeldFace>) -> bool {
    exists|lo: u8|
        1 <= lo <= 7 && cnt(fs, FacePred::SequenceAt(Suit::Manzu, lo)) > 0 && cnt(
            fs,
            FacePred::SequenceAt(Suit::Souzu, lo),
        ) > 0 && #[trigger] cnt(fs, FacePred::SequenceAt(Suit::Pinzu, lo)) > 0
}

pub open spec fn sanshoku_doukou(fs: Seq<MeldFace>) -> bool {
    exists|r: u8|
        1 <= r <= 9 && cnt(fs, FacePred::TripletAt(Suit::Manzu, r)) > 0 && cnt(
            fs,
            FacePred::TripletAt(Suit::Souzu, r),
        ) > 0 && #[trigger] cnt(fs, FacePred::TripletAt(Suit::Pinzu, r)) > 0
}

pub open spec fn ittsu_in(fs: Seq<MeldFace>, s: Suit) -> bool {
    cnt(fs, FacePred::SequenceAt(s, 1)) > 0 && cnt(fs, FacePred::SequenceAt(s, 4)) > 0 && cnt(
        fs,
        FacePred::SequenceAt(s, 7),
    ) > 0
}

pub open spec fn ittsu(fs: Seq<MeldFace>) -> bool {
    ittsu_in(fs, Suit::Manzu) || ittsu_in(fs, Suit::Souzu) || ittsu_in(fs, Suit::Pinzu)
}

pub open spec fn chinitsu_in(fs: Seq<MeldFace>, s: Suit) -> bool {
    cnt(fs, FacePred::SuitIs(s)) == cnt(fs, FacePred::Natural) && cnt(fs, FacePred::Natural) > 0
}

pub open spec fn chinitsu(fs: Seq<MeldFace>) -> bool {
    chinitsu_in(fs, Suit::Manzu) || chinitsu_in(fs, Suit::Souzu) || chinitsu_in(fs, Suit::Pinzu)
}

pub open spec fn honitsu_in(fs: Seq<MeldFace>, s: Suit) -> bool {
    cnt(fs, FacePred::SuitIs(s)) > 0 && cnt(fs, FacePred::Honor) > 0 && cnt(fs, FacePred::SuitIs(s))
        + cnt(fs, FacePred::Honor) == cnt(fs, FacePred::Natural)
}

pub open spec fn honitsu(fs: Seq<MeldFace>) -> bool {
    honitsu_in(fs, Suit::Manzu) || honitsu_in(fs, Suit::Souzu) || honitsu_in(fs, Suit::Pinzu)
}

pub open spec fn junchan(fs: Seq<MeldFace>) -> bool {
    fs.len() > 0 && cnt(fs, FacePred::HasTerminal) == fs.len() && cnt(fs, FacePred::IsSequence) > 0
        && cnt(fs, FacePred::Honor) == 0
}

pub open spec fn honroutou(fs: Seq<MeldFace>) -> bool {
    cnt(fs, FacePred::TerminalOrHonorOnly) == fs.len() && cnt(fs, FacePred::Natural) > 0 && !junchan(fs)
}

pub open spec fn chanta(fs: Seq<MeldFace>) -> bool {
    &&& fs.len() > 0
    &&& cnt(fs, FacePred::TouchesTerminalOrHonor) == fs.len()
    &&& cnt(fs, FacePred::Honor) > 0
    &&& cnt(fs, FacePred::IsSequence) > 0
    &&& !junchan(fs)
    &&& !honroutou(fs)
}

pub open spec fn chiitoitsu(fs: Seq<MeldFace>) -> bool {
    &&& fs.len() == 7
    &&& cnt(fs, FacePred::IsPair) == 7
    &&& cnt(fs, FacePred::Natural) == 7
    &&& forall|i: int| 0 <= i < fs.len() ==> #[trigger] cnt(fs, FacePred::PairAt(fs[i].suit, fs[i].lo)) == 1
}

pub open spec fn pinfu(fs: Seq<MeldFace>) -> bool {
    full_hand(fs) && cnt(fs, FacePred::IsSequence) == 4 && cnt(fs, FacePred::SimplePair) == 1
}

#[verifier::opaque]
pub open spec fn push_if(s: Seq<YakuKind>, b: bool, y: YakuKind) -> Seq<YakuKind> {
    if b { s.push(y) } else { s }
}

/// Kokushi Musō: one pair and twelve singles, each of the thirteen
/// terminal and honor faces shown exactly once.
pub open spec fn kokushi_hand(fs: Seq<MeldFace>) -> bool {
    &&& fs.len() == 13
    &&& cnt(fs, FacePred::IsPair) == 1
    &&& cnt(fs, FacePred::IsSingle) == 12
    &&& forall|k: u8| k < 13 ==> #[trigger] cnt(fs, FacePred::OrphanAt(k)) == 1
}

/// The yaku of a hand: Kokushi Musō alone for its reading; otherwise the
/// meld yaku.
pub open spec fn detected_spec(fs: Seq<MeldFace>, round: Option<u8>, bonus: Option<u8>) -> Seq<YakuKind> {
    if kokushi_hand(fs) {
        seq![YakuKind::KokushiMusou]
    } else {
        meld_yaku_spec(fs, round, bonus)
    }
}

/// Which yaku conditions a hand meets, and how many melds score Yakuhai.
pub struct YakuFlags {
    pub tanyao: bool,
    pub toitoi: bool,
    pub shousangen: bool,
    pub daisangen: bool,
    pub yakuhai: nat,
    pub iipeikou: bool,
    pub ryanpeikou: bool,
    pub sanshoku_doujun: bool,
    pub sanshoku_doukou: bool,
    pub ittsu: bool,
    pub honitsu: bool,
    pub chinitsu: bool,
    pub junchan: bool,
    pub honroutou: bool,
    pub chanta: bool,
    pub chiitoitsu: bool,
    pub pinfu: bool,
    pub full: bool,
}

/// The yaku conditions of a hand.
#[verifier::opaque]
pub open spec fn yaku_flags(fs: Seq<MeldFace>, round: Option<u8>, bonus: Option<u8>) -> YakuFlags {
    YakuFlags {
        tanyao: tanyao(fs),
        toitoi: toitoi(fs),
        shousangen: shousangen(fs),
        daisangen: daisangen(fs),
        yakuhai: yakuhai_count(fs, round, bonus) as nat,
        iipeikou: iipeikou(fs),
        ryanpeikou: ryanpeikou(fs),
        sanshoku_doujun: sanshoku_doujun(fs),
        sanshoku_doukou: sanshoku_doukou(fs),
        ittsu: ittsu(fs),
        honitsu: honitsu(fs),
        chinitsu: chinitsu(fs),
        junchan: junchan(fs),
        honroutou: honroutou(fs),
        chanta: chanta(fs),
        chiitoitsu: chiitoitsu(fs),
        pinfu: pinfu(fs),
        full: full_hand(fs),
    }
}

/// The yaku before Yakuhai, in declaration order.
pub open spec fn yaku_head(f: YakuFlags) -> Seq<YakuKind> {
    let s = push_if(Seq::empty(), f.tanyao, YakuKind::Tanyao);
    let s = push_if(s, f.toitoi, YakuKind::Toitoi);
    let s = push_if(s, f.shousangen, YakuKind::Shousangen);
    push_if(s, f.daisangen, YakuKind::Daisangen)
}

/// The head, Yakuhai once per qualifying meld, then the sequence, triple
/// and straight yaku and Honitsu.
pub open spec fn yaku_mid(f: YakuFlags) -> Seq<YakuKind> {
    let s = yaku_head(f) + Seq::new(f.yakuhai, |_i: int| YakuKind::Yakuhai);
    let s = push_if(s, f.iipeikou, YakuKind::Iipeikou);
    let s = push_if(s, f.ryanpeikou, YakuKind::Ryanpeikou);
    let s = push_if(s, f.sanshoku_doujun, YakuKind::SanshokuDoujun);
    let s = push_if(s, f.sanshoku_doukou, YakuKind::SanshokuDoukou);
    let s = push_if(s, f.ittsu, YakuKind::Ittsu);
    push_if(s, f.honitsu, YakuKind::Honitsu)
}

/// The yaku met, in declaration order, Yakuhai once per qualifying meld,
/// before Chicken Hand.
pub open spec fn yaku_body(f: YakuFlags) -> Seq<YakuKind> {
    let s = push_if(yaku_mid(f), f.chinitsu, YakuKind::Chinitsu);
    let s = push_if(s, f.junchan, YakuKind::Junchan);
    let s = push_if(s, f.honroutou, YakuKind::Honroutou);
    let s = push_if(s, f.chanta, YakuKind::Chanta);
    let s = push_if(s, f.chiitoitsu, YakuKind::Chiitoitsu);
    push_if(s, f.pinfu, YakuKind::Pinfu)
}

/// The yaku met; Chicken Hand when a full hand meets none.
pub open spec fn yaku_list(f: YakuFlags) -> Seq<YakuKind> {
    let s = yaku_body(f);
    push_if(s, f.full && s.len() == 0, YakuKind::ChickenHand)
}

/// The meld yaku of a hand, in declaration order (Yakuhai once per
/// qualifying meld); Chicken Hand when a full hand scores nothing else.
pub open spec fn meld_yaku_spec(fs: Seq<MeldFace>, round: Option<u8>, bonus: Option<u8>) -> Seq<YakuKind> {
    yaku_list(yaku_flags(fs, round, bonus))
}


proof fn lemma_honors_are_natural(fs: Seq<MeldFace>)
    ensures
        cnt(fs, FacePred::Honor) <= cnt(fs, FacePred::Natural),
    decreases fs.len(),
{
    if fs.len() > 0 {
        lemma_honors_are_natural(fs.drop_last());
    }
}

fn any_doubled_sequence(fs: &Vec<MeldFace>) -> (r: bool)
    ensures
        r == exists|i: int| 0 <= i < fs@.len() && #[trigger] doubled_sequence_at(fs@, i),
{
    let mut i: usize = 0;
    while i < fs.len()
        invariant
            i <= fs.len(),
            forall|k: int| 0 <= k < i ==> !#[trigger] doubled_sequence_at(fs@, k),
        decreases fs.len() - i,
    {
        let f = fs[i];
        if f.kind == MeldKind::Sequence && count_where(fs, FacePred::SequenceAt(f.suit, f.lo)) >= 2 {
            assert(doubled_sequence_at(fs@, i as int));
            return true;
        }
        i += 1;
    }
    false
}

fn any_doubled_pair(fs: &Vec<MeldFace>) -> (r: bool)
    ensures
        r == exists|i: int, j: int| 0 <= i < fs@.len() && 0 <= j < fs@.len() && #[trigger] doubled_pair(fs@, i, j),
{
    let mut i: usize = 0;
    while i < fs.len()
        invariant
            i <= fs.len(),
            forall|a: int, b: int| 0 <= a < i && 0 <= b < fs@.len() ==> !#[trigger] doubled_pair(fs@, a, b),
        decreases fs.len() - i,
    {
        let mut j: usize = 0;
        while j < fs.len()
            invariant
                i < fs.len(),
                j <= fs.len(),
                forall|a: int, b: int| 0 <= a < i && 0 <= b < fs@.len() ==> !#[trigger] doubled_pair(fs@, a, b),
                forall|b: int| 0 <= b < j ==> !#[trigger] doubled_pair(fs@, i as int, b),
            decreases fs.len() - j,
        {
            let a = fs[i];
            let b = fs[j];
            if a.kind == MeldKind::Sequence && b.kind == MeldKind::Sequence && a.suit == b.suit && a.lo != b.lo {
                let ca = count_where(fs, FacePred::SequenceAt(a.suit, a.lo));
                let cb = count_where(fs, FacePred::SequenceAt(b.suit, b.lo));
                if ca == 2 && cb == 2 {
                    assert(doubled_pair(fs@, i as int, j as int));
                    return true;
                }
            }
            j += 1;
        }
        i += 1;
    }
    false
}

fn doujun_exec(fs: &Vec<MeldFace>) -> (r: bool)
    ensures
        r == sanshoku_doujun(fs@),
{
    let mut lo: u8 = 1;
    while lo <= 7
        invariant
            1 <= lo <= 8,
            forall|l: u8| 1 <= l < lo ==> !(cnt(fs@, FacePred::SequenceAt(Suit::Manzu, l)) > 0 && cnt(
                fs@,
                FacePred::SequenceAt(Suit::Souzu, l),
            ) > 0 && #[trigger] cnt(fs@, FacePred::SequenceAt(Suit::Pinzu, l)) > 0),
        decreases 8 - lo,
    {
        if count_where(fs, FacePred::SequenceAt(Suit::Manzu, lo)) > 0 && count_where(
            fs,
            FacePred::SequenceAt(Suit::Souzu, lo),
        ) > 0 && count_where(fs, FacePred::SequenceAt(Suit::Pinzu, lo)) > 0 {
            assert(1 <= lo <= 7 && cnt(fs@, FacePred::SequenceAt(Suit::Manzu, lo)) > 0 && cnt(
                fs@,
                FacePred::SequenceAt(Suit::Souzu, lo),
            ) > 0 && cnt(fs@, FacePred::SequenceAt(Suit::Pinzu, lo)) > 0);
            return true;
        }
        lo += 1;
    }
    false
}

fn doukou_exec(fs: &Vec<MeldFace>) -> (r: bool)
    ensures
        r == sanshoku_doukou(fs@),
{
    let mut rk: u8 = 1;
    while rk <= 9
        invariant
            1 <= rk <= 10,
            forall|l: u8| 1 <= l < rk ==> !(cnt(fs@, FacePred::TripletAt(Suit::Manzu, l)) > 0 && cnt(
                fs@,
                FacePred::TripletAt(Suit::Souzu, l),
            ) > 0 && #[trigger] cnt(fs@, FacePred::TripletAt(Suit::Pinzu, l)) > 0),
        decreases 10 - rk,
    {
        if count_where(fs, FacePred::TripletAt(Suit::Manzu, rk)) > 0 && count_where(
            fs,
            FacePred::TripletAt(Suit::Souzu, rk),
        ) > 0 && count_where(fs, FacePred::TripletAt(Suit::Pinzu, rk)) > 0 {
            assert(1 <= rk <= 9 && cnt(fs@, FacePred::TripletAt(Suit::Manzu, rk)) > 0 && cnt(
                fs@,
                FacePred::TripletAt(Suit::Souzu, rk),
            ) > 0 && cnt(fs@, FacePred::TripletAt(Suit::Pinzu, rk)) > 0);
            return true;
        }
        rk += 1;
    }
    false
}

fn pairs_unique(fs: &Vec<MeldFace>) -> (r: bool)
    ensures
        r == forall|i: int| 0 <= i < fs@.len() ==> #[trigger] cnt(fs@, FacePred::PairAt(fs@[i].suit, fs@[i].lo)) == 1,
{
    let mut i: usize = 0;
    while i < fs.len()
        invariant
            i <= fs.len(),
            forall|k: int| 0 <= k < i ==> #[trigger] cnt(fs@, FacePred::PairAt(fs@[k].suit, fs@[k].lo)) == 1,
        decreases fs.len() - i,
    {
        if count_where(fs, FacePred::PairAt(fs[i].suit, fs[i].lo)) != 1 {
            assert(cnt(fs@, FacePred::PairAt(fs@[i as int].suit, fs@[i as int].lo)) != 1);
            return false;
        }
        i += 1;
    }
    true
}

/// Faces of the melds of a split.
pub open spec fn faces_of(sets: Seq<MeldSet>) -> Seq<MeldFace> {
    sets.map_values(|m: MeldSet| face_spec(m.kind, m.tiles@))
}

/// Faces of the melds of a split given as positions.
pub open spec fn group_faces(tiles: Seq<Tile>, gs: Seq<Seq<int>>) -> Seq<MeldFace> {
    gs.map_values(|g: Seq<int>| face_spec(crate::hand::set_kind(tiles, g)->0, g.map_values(|p: int| tiles[p])))
}

/// Sets that match a split's positions read as that split's faces.
pub proof fn lemma_faces_of_groups(tiles: Seq<Tile>, sets: Seq<MeldSet>, gs: Seq<Seq<int>>)
    requires
        crate::hand::sets_match(tiles, sets, gs),
    ensures
        faces_of(sets) == group_faces(tiles, gs),
{
    assert forall|k: int| 0 <= k < sets.len() implies faces_of(sets)[k] == group_faces(tiles, gs)[k] by {
        assert(Some(sets[k].kind) == crate::hand::set_kind(tiles, gs[k]));
    }
    assert(faces_of(sets) =~= group_faces(tiles, gs));
}

fn push_when(v: &mut Vec<YakuKind>, b: bool, y: YakuKind)
    ensures
        final(v)@ == push_if(old(v)@, b, y),
{
    proof {
        reveal(push_if);
    }
    if b {
        v.push(y);
    }
}

proof fn lemma_yakuhai_disjoint(fs: Seq<MeldFace>, round: Option<u8>, bonus: Option<u8>)
    ensures
        cnt(fs, FacePred::DragonTriplet) + cnt(fs, FacePred::WindYakuhai(round, bonus)) <= fs.len(),
    decreases fs.len(),
{
    if fs.len() > 0 {
        lemma_yakuhai_disjoint(fs.drop_last(), round, bonus);
    }
}

fn dragon_flags(fs: &Vec<MeldFace>, round: Option<u8>, bonus: Option<u8>) -> (r: (bool, bool, bool, usize))
    ensures
        r.0 == full_hand(fs@),
        r.1 == shousangen(fs@),
        r.2 == daisangen(fs@),
        r.3 == yakuhai_count(fs@, round, bonus),
{
    let n = fs.len();
    let full = n == 5 && count_where(fs, FacePred::IsPair) == 1;
    let d1 = count_where(fs, FacePred::TripletAt(Suit::Dragon, 1)) > 0;
    let d2 = count_where(fs, FacePred::TripletAt(Suit::Dragon, 2)) > 0;
    let d3 = count_where(fs, FacePred::TripletAt(Suit::Dragon, 3)) > 0;
    let p1 = count_where(fs, FacePred::PairAt(Suit::Dragon, 1)) > 0;
    let p2 = count_where(fs, FacePred::PairAt(Suit::Dragon, 2)) > 0;
    let p3 = count_where(fs, FacePred::PairAt(Suit::Dragon, 3)) > 0;
    let dai = full && d1 && d2 && d3;
    let shou = full && !dai && ((d1 && d2 && p3) || (d1 && d3 && p2) || (d2 && d3 && p1));
    proof {
        lemma_yakuhai_disjoint(fs@, round, bonus);
    }
    let dragons = if shou || dai { 0 } else { count_where(fs, FacePred::DragonTriplet) };
    let winds = count_where(fs, FacePred::WindYakuhai(round, bonus));
    (full, shou, dai, dragons + winds)
}

fn sequence_flags(fs: &Vec<MeldFace>) -> (r: (bool, bool, bool, bool, bool))
    ensures
        r.0 == iipeikou(fs@),
        r.1 == ryanpeikou(fs@),
        r.2 == sanshoku_doujun(fs@),
        r.3 == sanshoku_doukou(fs@),
        r.4 == ittsu(fs@),
{
    let full = fs.len() == 5 && count_where(fs, FacePred::IsPair) == 1;
    let ryan = full && count_where(fs, FacePred::IsSequence) == 4 && any_doubled_pair(fs);
    let ii = any_doubled_sequence(fs) && !ryan;
    let dj = doujun_exec(fs);
    let dk = doukou_exec(fs);
    let it = (count_where(fs, FacePred::SequenceAt(Suit::Manzu, 1)) > 0 && count_where(fs, FacePred::SequenceAt(Suit::Manzu, 4)) > 0
        && count_where(fs, FacePred::SequenceAt(Suit::Manzu, 7)) > 0)
        || (count_where(fs, FacePred::SequenceAt(Suit::Souzu, 1)) > 0 && count_where(fs, FacePred::SequenceAt(Suit::Souzu, 4)) > 0
        && count_where(fs, FacePred::SequenceAt(Suit::Souzu, 7)) > 0)
        || (count_where(fs, FacePred::SequenceAt(Suit::Pinzu, 1)) > 0 && count_where(fs, FacePred::SequenceAt(Suit::Pinzu, 4)) > 0
        && count_where(fs, FacePred::SequenceAt(Suit::Pinzu, 7)) > 0);
    (ii, ryan, dj, dk, it)
}

fn suit_flags(fs: &Vec<MeldFace>) -> (r: (bool, bool))
    ensures
        r.0 == honitsu(fs@),
        r.1 == chinitsu(fs@),
{
    let naturals = count_where(fs, FacePred::Natural);
    let honors = count_where(fs, FacePred::Honor);
    let m = count_where(fs, FacePred::SuitIs(Suit::Manzu));
    let so = count_where(fs, FacePred::SuitIs(Suit::Souzu));
    let pi = count_where(fs, FacePred::SuitIs(Suit::Pinzu));
    proof {
        lemma_honors_are_natural(fs@);
    }
    let chin = (m == naturals && naturals > 0) || (so == naturals && naturals > 0) || (pi == naturals && naturals > 0);
    let honi = (m > 0 && honors > 0 && m == naturals - honors) || (so > 0 && honors > 0 && so == naturals - honors)
        || (pi > 0 && honors > 0 && pi == naturals - honors);
    (honi, chin)
}

fn terminal_flags(fs: &Vec<MeldFace>) -> (r: (bool, bool, bool, bool, bool))
    ensures
        r.0 == tanyao(fs@),
        r.1 == toitoi(fs@),
        r.2 == junchan(fs@),
        r.3 == honroutou(fs@),
        r.4 == chanta(fs@),
{
    let n = fs.len();
    let seqs = count_where(fs, FacePred::IsSequence);
    let naturals = count_where(fs, FacePred::Natural);
    let honors = count_where(fs, FacePred::Honor);
    let tan = count_where(fs, FacePred::SimpleOnly) == n && naturals > 0;
    let toi = count_where(fs, FacePred::TripletOrKong) >= 2 && seqs == 0;
    let jun = n > 0 && count_where(fs, FacePred::HasTerminal) == n && seqs > 0 && honors == 0;
    let hon = count_where(fs, FacePred::TerminalOrHonorOnly) == n && naturals > 0 && !jun;
    let cha = n > 0 && count_where(fs, FacePred::TouchesTerminalOrHonor) == n && honors > 0 && seqs > 0 && !jun && !hon;
    (tan, toi, jun, hon, cha)
}

fn pair_flags(fs: &Vec<MeldFace>) -> (r: (bool, bool))
    ensures
        r.0 == chiitoitsu(fs@),
        r.1 == pinfu(fs@),
{
    let n = fs.len();
    let pairs = count_where(fs, FacePred::IsPair);
    let chi = n == 7 && pairs == 7 && count_where(fs, FacePred::Natural) == 7 && pairs_unique(fs);
    let pin = n == 5 && pairs == 1 && count_where(fs, FacePred::IsSequence) == 4 && count_where(fs, FacePred::SimplePair) == 1;
    (chi, pin)
}

/// Faces of the melds, in order.
pub fn meld_faces(sets: &[MeldSet]) -> (r: Vec<MeldFace>)
    ensures
        r@ == faces_of(sets@),
{
    let mut fs: Vec<MeldFace> = Vec::new();
    let mut i: usize = 0;
    while i < sets.len()
        invariant
            i <= sets.len(),
            fs@ == faces_of(sets@.take(i as int)),
        decreases sets.len() - i,
    {
        fs.push(meld_face(&sets[i]));
        assert(fs@ =~= faces_of(sets@.take(i + 1)));
        i += 1;
    }
    assert(sets@.take(sets@.len() as int) =~= sets@);
    fs
}

fn kokushi_exec(fs: &Vec<MeldFace>) -> (r: bool)
    ensures
        r == kokushi_hand(fs@),
{
    if fs.len() != 13 || count_where(fs, FacePred::IsPair) != 1 || count_where(fs, FacePred::IsSingle) != 12 {
        return false;
    }
    let mut k: u8 = 0;
    while k < 13
        invariant
            k <= 13,
            forall|m: u8| m < k ==> #[trigger] cnt(fs@, FacePred::OrphanAt(m)) == 1,
        decreases 13 - k,
    {
        if count_where(fs, FacePred::OrphanAt(k)) != 1 {
            assert(cnt(fs@, FacePred::OrphanAt(k)) != 1);
            return false;
        }
        k += 1;
    }
    true
}

/// Yaku scored by a split hand, given the round wind and the bonus round
/// wind (wind ranks) when they are known.
pub fn detect_yaku_with_wind(sets: &[MeldSet], round_wind: Option<u8>, bonus_round_wind: Option<u8>) -> (r: Vec<YakuKind>)
    ensures
        r@ == detected_spec(faces_of(sets@), round_wind, bonus_round_wind),
{
    let fs = meld_faces(sets);
    proof {
        reveal(yaku_flags);
    }
    if kokushi_exec(&fs) {
        let mut v: Vec<YakuKind> = Vec::new();
        v.push(YakuKind::KokushiMusou);
        assert(v@ =~= seq![YakuKind::KokushiMusou]);
        return v;
    }
    let (full, shou, dai, yakuhai) = dragon_flags(&fs, round_wind, bonus_round_wind);
    let (ii, ryan, dj, dk, it) = sequence_flags(&fs);
    let (honi, chin) = suit_flags(&fs);
    let (tan, toi, jun, hon, cha) = terminal_flags(&fs);
    let (chi, pin) = pair_flags(&fs);
    let mut v: Vec<YakuKind> = Vec::new();
    push_when(&mut v, tan, YakuKind::Tanyao);
    push_when(&mut v, toi, YakuKind::Toitoi);
    push_when(&mut v, shou, YakuKind::Shousangen);
    push_when(&mut v, dai, YakuKind::Daisangen);
    let ghost before = v@;
    let mut k: usize = 0;
    while k < yakuhai
        invariant
            k <= yakuhai,
            v@ == before + Seq::new(k as nat, |_i: int| YakuKind::Yakuhai),
        decreases yakuhai - k,
    {
        v.push(YakuKind::Yakuhai);
        assert(v@ =~= before + Seq::new((k + 1) as nat, |_i: int| YakuKind::Yakuhai));
        k += 1;
    }
    push_when(&mut v, ii, YakuKind::Iipeikou);
    push_when(&mut v, ryan, YakuKind::Ryanpeikou);
    push_when(&mut v, dj, YakuKind::SanshokuDoujun);
    push_when(&mut v, dk, YakuKind::SanshokuDoukou);
    push_when(&mut v, it, YakuKind::Ittsu);
    push_when(&mut v, honi, YakuKind::Honitsu);
    push_when(&mut v, chin, YakuKind::Chinitsu);
    push_when(&mut v, jun, YakuKind::Junchan);
    push_when(&mut v, hon, YakuKind::Honroutou);
    push_when(&mut v, cha, YakuKind::Chanta);
    push_when(&mut v, chi, YakuKind::Chiitoitsu);
    push_when(&mut v, pin, YakuKind::Pinfu);
    let none_yet = v.len() == 0;
    push_when(&mut v, full && none_yet, YakuKind::ChickenHand);
    v
}

proof fn lemma_push_if_contains(s: Seq<YakuKind>, b: bool, y: YakuKind, z: YakuKind)
    ensures
        push_if(s, b, y).contains(z) <==> (s.contains(z) || (b && z == y)),
{
    reveal(push_if);
    if b {
        if s.push(y).contains(z) && !s.contains(z) {
            let i = choose|i: int| 0 <= i < s.push(y).len() && s.push(y)[i] == z;
            if i < s.len() {
                assert(s[i] == z);
            }
        }
        if s.contains(z) {
            let i = choose|i: int| 0 <= i < s.len() && s[i] == z;
            assert(s.push(y)[i] == z);
        }
        if z == y {
            assert(s.push(y)[s.len() as int] == y);
        }
    }
}

proof fn lemma_head_contains(f: YakuFlags, y: YakuKind)
    ensures
        yaku_head(f).contains(y) <==> ((f.tanyao && y == YakuKind::Tanyao) || (f.toitoi && y == YakuKind::Toitoi)
            || (f.shousangen && y == YakuKind::Shousangen) || (f.daisangen && y == YakuKind::Daisangen)),
{
    let s0 = Seq::<YakuKind>::empty();
    assert(!s0.contains(y));
    let s1 = push_if(s0, f.tanyao, YakuKind::Tanyao);
    let s2 = push_if(s1, f.toitoi, YakuKind::Toitoi);
    let s3 = push_if(s2, f.shousangen, YakuKind::Shousangen);
    lemma_push_if_contains(s0, f.tanyao, YakuKind::Tanyao, y);
    lemma_push_if_contains(s1, f.toitoi, YakuKind::Toitoi, y);
    lemma_push_if_contains(s2, f.shousangen, YakuKind::Shousangen, y);
    lemma_push_if_contains(s3, f.daisangen, YakuKind::Daisangen, y);
}

proof fn lemma_mid_contains(f: YakuFlags, y: YakuKind)
    ensures
        yaku_mid(f).contains(y) <==> (yaku_head(f).contains(y) || (f.yakuhai > 0 && y == YakuKind::Yakuhai)
            || (f.iipeikou && y == YakuKind::Iipeikou) || (f.ryanpeikou && y == YakuKind::Ryanpeikou) || (f.sanshoku_doujun && y == YakuKind::SanshokuDoujun) || (f.sanshoku_doukou && y == YakuKind::SanshokuDoukou) || (f.ittsu && y == YakuKind::Ittsu) || (f.honitsu && y == YakuKind::Honitsu)),
{
    let h = yaku_head(f);
    let yk = Seq::new(f.yakuhai, |_i: int| YakuKind::Yakuhai);
    let t0 = h + yk;
    assert(t0.contains(y) <==> (h.contains(y) || (f.yakuhai > 0 && y == YakuKind::Yakuhai))) by {
        if t0.contains(y) && !h.contains(y) {
            let i = choose|i: int| 0 <= i < t0.len() && t0[i] == y;
            if i < h.len() {
                assert(h[i] == y);
            } else {
                assert(yk[i - h.len()] == YakuKind::Yakuhai);
            }
        }
        if h.contains(y) {
            let i = choose|i: int| 0 <= i < h.len() && h[i] == y;
            assert(t0[i] == y);
        }
        if f.yakuhai > 0 && y == YakuKind::Yakuhai {
            assert(t0[h.len() as int] == YakuKind::Yakuhai);
        }
    }
    let t1 = push_if(t0, f.iipeikou, YakuKind::Iipeikou);
    let t2 = push_if(t1, f.ryanpeikou, YakuKind::Ryanpeikou);
    let t3 = push_if(t2, f.sanshoku_doujun, YakuKind::SanshokuDoujun);
    let t4 = push_if(t3, f.sanshoku_doukou, YakuKind::SanshokuDoukou);
    let t5 = push_if(t4, f.ittsu, YakuKind::Ittsu);
    lemma_push_if_contains(t0, f.iipeikou, YakuKind::Iipeikou, y);
    lemma_push_if_contains(t1, f.ryanpeikou, YakuKind::Ryanpeikou, y);
    lemma_push_if_contains(t2, f.sanshoku_doujun, YakuKind::SanshokuDoujun, y);
    lemma_push_if_contains(t3, f.sanshoku_doukou, YakuKind::SanshokuDoukou, y);
    lemma_push_if_contains(t4, f.ittsu, YakuKind::Ittsu, y);
    lemma_push_if_contains(t5, f.honitsu, YakuKind::Honitsu, y);
}

proof fn lemma_body_contains(f: YakuFlags, y: YakuKind)
    ensures
        yaku_body(f).contains(y) <==> (yaku_mid(f).contains(y) || (f.chinitsu && y == YakuKind::Chinitsu) || (f.junchan && y == YakuKind::Junchan) || (f.honroutou && y == YakuKind::Honroutou) || (f.chanta && y == YakuKind::Chanta) || (f.chiitoitsu && y == YakuKind::Chiitoitsu) || (f.pinfu && y == YakuKind::Pinfu)),
{
    let t0 = yaku_mid(f);
    let t1 = push_if(t0, f.chinitsu, YakuKind::Chinitsu);
    let t2 = push_if(t1, f.junchan, YakuKind::Junchan);
    let t3 = push_if(t2, f.honroutou, YakuKind::Honroutou);
    let t4 = push_if(t3, f.chanta, YakuKind::Chanta);
    let t5 = push_if(t4, f.chiitoitsu, YakuKind::Chiitoitsu);
    lemma_push_if_contains(t0, f.chinitsu, YakuKind::Chinitsu, y);
    lemma_push_if_contains(t1, f.junchan, YakuKind::Junchan, y);
    lemma_push_if_contains(t2, f.honroutou, YakuKind::Honroutou, y);
    lemma_push_if_contains(t3, f.chanta, YakuKind::Chanta, y);
    lemma_push_if_contains(t4, f.chiitoitsu, YakuKind::Chiitoitsu, y);
    lemma_push_if_contains(t5, f.pinfu, YakuKind::Pinfu, y);
}

/// The yaku list holds exactly the yaku whose condition is met (Yakuhai
/// when at least one meld qualifies; Chicken Hand only when a full hand
/// meets nothing else).
pub proof fn lemma_yaku_list_contains(f: YakuFlags, y: YakuKind)
    ensures
        yaku_list(f).contains(y) <==> match y {
            YakuKind::Tanyao => f.tanyao,
            YakuKind::Toitoi => f.toitoi,
            YakuKind::Shousangen => f.shousangen,
            YakuKind::Daisangen => f.daisangen,
            YakuKind::Yakuhai => f.yakuhai > 0,
            YakuKind::Iipeikou => f.iipeikou,
            YakuKind::Ryanpeikou => f.ryanpeikou,
            YakuKind::SanshokuDoujun => f.sanshoku_doujun,
            YakuKind::SanshokuDoukou => f.sanshoku_doukou,
            YakuKind::Ittsu => f.ittsu,
            YakuKind::Honitsu => f.honitsu,
            YakuKind::Chinitsu => f.chinitsu,
            YakuKind::Junchan => f.junchan,
            YakuKind::Honroutou => f.honroutou,
            YakuKind::Chanta => f.chanta,
            YakuKind::Chiitoitsu => f.chiitoitsu,
            YakuKind::Pinfu => f.pinfu,
            YakuKind::KokushiMusou => false,
            YakuKind::ChickenHand => f.full && yaku_body(f).len() == 0,
        },
{
    lemma_head_contains(f, y);
    lemma_mid_contains(f, y);
    lemma_body_contains(f, y);
    let b = yaku_body(f);
    lemma_push_if_contains(b, f.full && b.len() == 0, YakuKind::ChickenHand, y);
}

/// Exclusive conditions: Iipeikou gives way to Ryanpeikou, Shousangen
/// to Daisangen, Chanta to Junchan and Honroutou, Honroutou to Junchan.
proof fn lemma_flags_exclusive(fs: Seq<MeldFace>, round: Option<u8>, bonus: Option<u8>)
    ensures
        ({
            let f = yaku_flags(fs, round, bonus);
            &&& !(f.iipeikou && f.ryanpeikou)
            &&& !(f.shousangen && f.daisangen)
            &&& !(f.junchan && f.honroutou)
            &&& !(f.junchan && f.chanta)
            &&& !(f.honroutou && f.chanta)
        }),
{
    reveal(yaku_flags);
}

/// What detection gives never mixes exclusive yaku: Kokushi Musō and
/// Chicken Hand stand alone, and neither Iipeikou with Ryanpeikou, nor
/// Shousangen with Daisangen, nor two of Junchan, Honroutou and Chanta
/// come together.
pub proof fn lemma_detected_exclusive(fs: Seq<MeldFace>, round: Option<u8>, bonus: Option<u8>)
    ensures
        ({
            let d = detected_spec(fs, round, bonus);
            &&& d.contains(YakuKind::KokushiMusou) ==> d == seq![YakuKind::KokushiMusou]
            &&& d.contains(YakuKind::ChickenHand) ==> d == seq![YakuKind::ChickenHand]
            &&& !(d.contains(YakuKind::Iipeikou) && d.contains(YakuKind::Ryanpeikou))
            &&& !(d.contains(YakuKind::Shousangen) && d.contains(YakuKind::Daisangen))
            &&& !(d.contains(YakuKind::Junchan) && d.contains(YakuKind::Honroutou))
            &&& !(d.contains(YakuKind::Junchan) && d.contains(YakuKind::Chanta))
            &&& !(d.contains(YakuKind::Honroutou) && d.contains(YakuKind::Chanta))
        }),
{
    let d = detected_spec(fs, round, bonus);
    if kokushi_hand(fs) {
        assert(d =~= seq![YakuKind::KokushiMusou]);
        assert forall|y: YakuKind| d.contains(y) implies y == YakuKind::KokushiMusou by {
            let i = choose|i: int| 0 <= i < d.len() && d[i] == y;
            assert(d[i] == YakuKind::KokushiMusou);
        }
    } else {
        let f = yaku_flags(fs, round, bonus);
        assert(d == yaku_list(f));
        lemma_flags_exclusive(fs, round, bonus);
        lemma_yaku_list_contains(f, YakuKind::KokushiMusou);
        lemma_yaku_list_contains(f, YakuKind::ChickenHand);
        lemma_yaku_list_contains(f, YakuKind::Iipeikou);
        lemma_yaku_list_contains(f, YakuKind::Ryanpeikou);
        lemma_yaku_list_contains(f, YakuKind::Shousangen);
        lemma_yaku_list_contains(f, YakuKind::Daisangen);
        lemma_yaku_list_contains(f, YakuKind::Junchan);
        lemma_yaku_list_contains(f, YakuKind::Honroutou);
        lemma_yaku_list_contains(f, YakuKind::Chanta);
        if d.contains(YakuKind::ChickenHand) {
            assert(yaku_body(f) =~= Seq::<YakuKind>::empty());
            reveal(push_if);
            assert(d =~= seq![YakuKind::ChickenHand]);
        }
    }
}

} // verus!
