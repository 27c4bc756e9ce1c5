//! Short and long rule text for each yaku (journal plaque, guide pages).

use vstd::prelude::*;
use crate::tiles::YakuKind;

verus! {

/// Short, journal-friendly rule text of a yaku.
pub open spec fn yaku_shape_spec(yk: YakuKind) -> &'static str {
    match yk {
        YakuKind::ChickenHand => "Valid hand with no other yaku",
        YakuKind::Tanyao => "All tiles ranked 2\u{2013}8",
        YakuKind::Toitoi => "At least two triplets/kongs, no sequences",
        YakuKind::Shousangen => "Two dragon triplets/kongs plus a pair of the third dragon (full hand)",
        YakuKind::Daisangen => "All three dragon triplets/kongs (full hand)",
        YakuKind::Yakuhai => "Each dragon or matching wind triplet/kong; stacks",
        YakuKind::Iipeikou => "Two identical sequences in the same suit",
        YakuKind::Ryanpeikou => "Two doubled sequences in one suit (full hand)",
        YakuKind::SanshokuDoujun => "Same sequence in all three suits",
        YakuKind::SanshokuDoukou => "Same-rank triplet in all three suits",
        YakuKind::Ittsu => "1\u{2013}9 straight in one suit",
        YakuKind::Honitsu => "One number suit plus honors only",
        YakuKind::Chinitsu => "Single number suit, no honors",
        YakuKind::Junchan => "Every group has a 1 or 9; needs a sequence, no honors",
        YakuKind::Honroutou => "Only terminals and honors (1, 9, winds, dragons)",
        YakuKind::Chanta => "Every group has a terminal or honor; needs honor, simple, and a sequence",
        YakuKind::Chiitoitsu => "Seven distinct pairs",
        YakuKind::KokushiMusou => "One of each terminal and honor, plus one duplicate",
        YakuKind::Pinfu => "Four sequences plus a 2\u{2013}8 pair (full hand)",
    }
}

/// Short, journal-friendly rule text for each yaku.
pub fn yaku_shape_text(yk: YakuKind) -> (r: &'static str)
    ensures
        r == yaku_shape_spec(yk),
{
    match yk {
        YakuKind::ChickenHand => "Valid hand with no other yaku",
        YakuKind::Tanyao => "All tiles ranked 2\u{2013}8",
        YakuKind::Toitoi => "At least two triplets/kongs, no sequences",
        YakuKind::Shousangen => "Two dragon triplets/kongs plus a pair of the third dragon (full hand)",
        YakuKind::Daisangen => "All three dragon triplets/kongs (full hand)",
        YakuKind::Yakuhai => "Each dragon or matching wind triplet/kong; stacks",
        YakuKind::Iipeikou => "Two identical sequences in the same suit",
        YakuKind::Ryanpeikou => "Two doubled sequences in one suit (full hand)",
        YakuKind::SanshokuDoujun => "Same sequence in all three suits",
        YakuKind::SanshokuDoukou => "Same-rank triplet in all three suits",
        YakuKind::Ittsu => "1\u{2013}9 straight in one suit",
        YakuKind::Honitsu => "One number suit plus honors only",
        YakuKind::Chinitsu => "Single number suit, no honors",
        YakuKind::Junchan => "Every group has a 1 or 9; needs a sequence, no honors",
        YakuKind::Honroutou => "Only terminals and honors (1, 9, winds, dragons)",
        YakuKind::Chanta => "Every group has a terminal or honor; needs honor, simple, and a sequence",
        YakuKind::Chiitoitsu => "Seven distinct pairs",
        YakuKind::KokushiMusou => "One of each terminal and honor, plus one duplicate",
        YakuKind::Pinfu => "Four sequences plus a 2\u{2013}8 pair (full hand)",
    }
}

/// Long-form copy for the in-game guide.
#[derive(Clone, Copy)]
pub struct YakuGuideDetail {
    pub rule: &'static str,
    pub requires: &'static str,
    pub breaks_if: &'static str,
}

/// Guide copy of a yaku: its rule, what it requires, and what breaks it.
pub open spec fn yaku_detail_spec(yk: YakuKind) -> YakuGuideDetail {
    match yk {
        YakuKind::ChickenHand => YakuGuideDetail {
            rule: "Fallback score when the hand wins but no other pattern applies.",
            requires: "Standard winning shape",
            breaks_if: "Another yaku is present.",
        },
        YakuKind::Tanyao => YakuGuideDetail {
            rule: "Every tile is a simple — a number ranked 2–8.",
            requires: "Simples only",
            breaks_if: "Any terminal, wind, or dragon.",
        },
        YakuKind::Yakuhai => YakuGuideDetail {
            rule: "Each dragon triplet/kong scores; so does a wind triplet/kong matching round or bonus round winds. Stacks.",
            requires: "Honor triplet or kong per Yakuhai",
            breaks_if: "Honor is only a pair, or wind doesn't match round/bonus round.",
        },
        YakuKind::Toitoi => YakuGuideDetail {
            rule: "At least two triplets or kongs; sequences don't count.",
            requires: "2+ triplets/kongs",
            breaks_if: "Any sequence appears.",
        },
        YakuKind::Honitsu => YakuGuideDetail {
            rule: "Tiles from one number suit, optionally mixed with honors.",
            requires: "Single number suit",
            breaks_if: "A second number suit appears.",
        },
        YakuKind::Iipeikou => YakuGuideDetail {
            rule: "Two identical sequences in the same suit. Ryanpeikou replaces this when both qualify.",
            requires: "Two matching sequences · one suit",
            breaks_if: "Sequences differ or span suits.",
        },
        YakuKind::Junchan => YakuGuideDetail {
            rule: "Every group contains a 1 or 9; needs at least one sequence. No honors. Beats Honroutou and Chanta when multiple qualify.",
            requires: "1 or 9 in every group · one sequence",
            breaks_if: "All groups are terminal-only triplets/pairs (Honroutou instead).",
        },
        YakuKind::Honroutou => YakuGuideDetail {
            rule: "Only terminals (1, 9) and honors — no simples. Beats Chanta when both qualify.",
            requires: "Terminals and honors only",
            breaks_if: "Any number tile 2–8 appears.",
        },
        YakuKind::Shousangen => YakuGuideDetail {
            rule: "Two dragon triplets/kongs plus a pair of the third dragon on a full hand. Replaces dragon Yakuhai.",
            requires: "2 dragon melds · 1 dragon pair · full hand",
            breaks_if: "All three dragons are triplets (Daisangen instead).",
        },
        YakuKind::Daisangen => YakuGuideDetail {
            rule: "All three dragon triplets/kongs on a full hand. Replaces dragon Yakuhai.",
            requires: "Red · green · white dragon melds · full hand",
            breaks_if: "Only two dragon triplets (Shousangen instead).",
        },
        YakuKind::Chinitsu => YakuGuideDetail {
            rule: "Pure suit — every tile from one number suit.",
            requires: "Single number suit · no honors",
            breaks_if: "Any honor or second number suit appears.",
        },
        YakuKind::SanshokuDoujun => YakuGuideDetail {
            rule: "The same sequence (e.g. 4-5-6) appears once in each number suit.",
            requires: "Matching sequence · Manzu · Souzu · Pinzu",
            breaks_if: "Ranks differ or a suit is missing.",
        },
        YakuKind::Ittsu => YakuGuideDetail {
            rule: "Three sequences forming 1–9 in a single suit (1-2-3, 4-5-6, 7-8-9).",
            requires: "All three ranges · same suit",
            breaks_if: "Sequences split across suits.",
        },
        YakuKind::Chiitoitsu => YakuGuideDetail {
            rule: "Alternate shape: seven distinct pairs instead of four melds.",
            requires: "7 different pair types",
            breaks_if: "Any pair type repeats.",
        },
        YakuKind::KokushiMusou => YakuGuideDetail {
            rule: "One of each terminal and honor, plus one duplicate among them.",
            requires: "All 13 types · one duplicate",
            breaks_if: "A type is missing or duplicate isn't a terminal/honor.",
        },
        YakuKind::Chanta => YakuGuideDetail {
            rule: "Every group touches a terminal or honor, with at least one honor, one simple, and one sequence. Weakest of the terminal-family yaku — Junchan or Honroutou replace it when they qualify.",
            requires: "Terminal/honor in every group · honor · simple · sequence",
            breaks_if: "A group is all simples (middle-only), or the pair lacks a terminal/honor.",
        },
        YakuKind::Ryanpeikou => YakuGuideDetail {
            rule: "Two different sequences, each appearing twice, all in one suit. Full hand; replaces Iipeikou.",
            requires: "Two duplicated sequences · same suit · full hand",
            breaks_if: "Only one sequence is duplicated, or suits differ.",
        },
        YakuKind::SanshokuDoukou => YakuGuideDetail {
            rule: "The same rank triplet (or kong) in all three number suits.",
            requires: "Same rank · triplet/kong · all three suits",
            breaks_if: "Groups are sequences, not triplets.",
        },
        YakuKind::Pinfu => YakuGuideDetail {
            rule: "All sequences, no triplets — pair is a simple (2–8) in a number suit. Full hand.",
            requires: "4 sequences · simple number pair",
            breaks_if: "Triplets/kongs or honor pair.",
        },
    }
}

pub fn yaku_guide_detail(yk: YakuKind) -> (r: YakuGuideDetail)
    ensures
        r == yaku_detail_spec(yk),
{
    match yk {
        YakuKind::ChickenHand => YakuGuideDetail {
            rule: "Fallback score when the hand wins but no other pattern applies.",
            requires: "Standard winning shape",
            breaks_if: "Another yaku is present.",
        },
        YakuKind::Tanyao => YakuGuideDetail {
            rule: "Every tile is a simple — a number ranked 2–8.",
            requires: "Simples only",
            breaks_if: "Any terminal, wind, or dragon.",
        },
        YakuKind::Yakuhai => YakuGuideDetail {
            rule: "Each dragon triplet/kong scores; so does a wind triplet/kong matching round or bonus round winds. Stacks.",
            requires: "Honor triplet or kong per Yakuhai",
            breaks_if: "Honor is only a pair, or wind doesn't match round/bonus round.",
        },
        YakuKind::Toitoi => YakuGuideDetail {
            rule: "At least two triplets or kongs; sequences don't count.",
            requires: "2+ triplets/kongs",
            breaks_if: "Any sequence appears.",
        },
        YakuKind::Honitsu => YakuGuideDetail {
            rule: "Tiles from one number suit, optionally mixed with honors.",
            requires: "Single number suit",
            breaks_if: "A second number suit appears.",
        },
        YakuKind::Iipeikou => YakuGuideDetail {
            rule: "Two identical sequences in the same suit. Ryanpeikou replaces this when both qualify.",
            requires: "Two matching sequences · one suit",
            breaks_if: "Sequences differ or span suits.",
        },
        YakuKind::Junchan => YakuGuideDetail {
            rule: "Every group contains a 1 or 9; needs at least one sequence. No honors. Beats Honroutou and Chanta when multiple qualify.",
            requires: "1 or 9 in every group · one sequence",
            breaks_if: "All groups are terminal-only triplets/pairs (Honroutou instead).",
        },
        YakuKind::Honroutou => YakuGuideDetail {
            rule: "Only terminals (1, 9) and honors — no simples. Beats Chanta when both qualify.",
            requires: "Terminals and honors only",
            breaks_if: "Any number tile 2–8 appears.",
        },
        YakuKind::Shousangen => YakuGuideDetail {
            rule: "Two dragon triplets/kongs plus a pair of the third dragon on a full hand. Replaces dragon Yakuhai.",
            requires: "2 dragon melds · 1 dragon pair · full hand",
            breaks_if: "All three dragons are triplets (Daisangen instead).",
        },
        YakuKind::Daisangen => YakuGuideDetail {
            rule: "All three dragon triplets/kongs on a full hand. Replaces dragon Yakuhai.",
            requires: "Red · green · white dragon melds · full hand",
            breaks_if: "Only two dragon triplets (Shousangen instead).",
        },
        YakuKind::Chinitsu => YakuGuideDetail {
            rule: "Pure suit — every tile from one number suit.",
            requires: "Single number suit · no honors",
            breaks_if: "Any honor or second number suit appears.",
        },
        YakuKind::SanshokuDoujun => YakuGuideDetail {
            rule: "The same sequence (e.g. 4-5-6) appears once in each number suit.",
            requires: "Matching sequence · Manzu · Souzu · Pinzu",
            breaks_if: "Ranks differ or a suit is missing.",
        },
        YakuKind::Ittsu => YakuGuideDetail {
            rule: "Three sequences forming 1–9 in a single suit (1-2-3, 4-5-6, 7-8-9).",
            requires: "All three ranges · same suit",
            breaks_if: "Sequences split across suits.",
        },
        YakuKind::Chiitoitsu => YakuGuideDetail {
            rule: "Alternate shape: seven distinct pairs instead of four melds.",
            requires: "7 different pair types",
            breaks_if: "Any pair type repeats.",
        },
        YakuKind::KokushiMusou => YakuGuideDetail {
            rule: "One of each terminal and honor, plus one duplicate among them.",
            requires: "All 13 types · one duplicate",
            breaks_if: "A type is missing or duplicate isn't a terminal/honor.",
        },
        YakuKind::Chanta => YakuGuideDetail {
            rule: "Every group touches a terminal or honor, with at least one honor, one simple, and one sequence. Weakest of the terminal-family yaku — Junchan or Honroutou replace it when they qualify.",
            requires: "Terminal/honor in every group · honor · simple · sequence",
            breaks_if: "A group is all simples (middle-only), or the pair lacks a terminal/honor.",
        },
        YakuKind::Ryanpeikou => YakuGuideDetail {
            rule: "Two different sequences, each appearing twice, all in one suit. Full hand; replaces Iipeikou.",
            requires: "Two duplicated sequences · same suit · full hand",
            breaks_if: "Only one sequence is duplicated, or suits differ.",
        },
        YakuKind::SanshokuDoukou => YakuGuideDetail {
            rule: "The same rank triplet (or kong) in all three number suits.",
            requires: "Same rank · triplet/kong · all three suits",
            breaks_if: "Groups are sequences, not triplets.",
        },
        YakuKind::Pinfu => YakuGuideDetail {
            rule: "All sequences, no triplets — pair is a simple (2–8) in a number suit. Full hand.",
            requires: "4 sequences · simple number pair",
            breaks_if: "Triplets/kongs or honor pair.",
        },
    }
}

} // verus!
