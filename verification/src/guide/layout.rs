//! Guide header: which intro copy supplies a page's subtitle, and section titles.

use vstd::prelude::*;
use vstd::string::*;
use crate::text::{decimal, digit_str};
use super::{PAGE_ECONOMY, PAGE_FLOWERS, PAGE_MELDS, PAGE_SCORING, PAGE_TILES, PAGE_YAKU};

verus! {

/// The intro-copy block a page's subtitle comes from.
#[derive(Clone, Copy, Debug, PartialEq, Eq, Structural)]
pub enum IntroCopy {
    Tiles,
    Melds,
    Yaku,
    Flowers,
    Scoring,
    Economy,
    TanukiTips,
}

/// Subtitle source of a guide page (yaku detail pages have none).
pub open spec fn subtitle_spec(page: usize) -> Option<IntroCopy> {
    if page == PAGE_TILES {
        Some(IntroCopy::Tiles)
    } else if page == PAGE_MELDS {
        Some(IntroCopy::Melds)
    } else if page == PAGE_YAKU {
        Some(IntroCopy::Yaku)
    } else if page == PAGE_FLOWERS {
        Some(IntroCopy::Flowers)
    } else if page == PAGE_SCORING {
        Some(IntroCopy::Scoring)
    } else if page == PAGE_ECONOMY {
        Some(IntroCopy::Economy)
    } else {
        None
    }
}

pub fn page_nav_subtitle(page: usize) -> (r: Option<IntroCopy>)
    ensures
        r == subtitle_spec(page),
{
    match page {
        PAGE_TILES => Some(IntroCopy::Tiles),
        PAGE_MELDS => Some(IntroCopy::Melds),
        PAGE_YAKU => Some(IntroCopy::Yaku),
        PAGE_FLOWERS => Some(IntroCopy::Flowers),
        PAGE_SCORING => Some(IntroCopy::Scoring),
        PAGE_ECONOMY => Some(IntroCopy::Economy),
        _ => None,
    }
}

/// "`index`. `title`" — numbered section heading of the scoring page.
pub fn scoring_section_title(index: u8, title: &str) -> (r: String)
    ensures
        r@ == decimal(index as nat) + ". "@ + title@,
{
    proof {
        reveal_strlit(". ");
    }
    let mut s = String::new();
    if index >= 100 {
        s.append(digit_str(index / 100));
        s.append(digit_str((index / 10) % 10));
        s.append(digit_str(index % 10));
        proof {
            let n = index as nat;
            assert(decimal(n / 100) == seq![(48 + n / 100) as char]);
            assert(decimal(n / 10) == decimal(n / 10 / 10).push((48 + (n / 10) % 10) as char));
            assert(n / 10 / 10 == n / 100);
            assert(decimal(n) == decimal(n / 10).push((48 + n % 10) as char));
            assert(s@ =~= decimal(n));
        }
    } else if index >= 10 {
        s.append(digit_str(index / 10));
        s.append(digit_str(index % 10));
        proof {
            let n = index as nat;
            assert(decimal(n / 10) == seq![(48 + n / 10) as char]);
            assert(decimal(n) == decimal(n / 10).push((48 + n % 10) as char));
            assert(s@ =~= decimal(n));
        }
    } else {
        s.append(digit_str(index % 10));
        proof {
            assert(s@ =~= decimal(index as nat));
        }
    }
    s.append(". ");
    s.append(title);
    s
}

} // verus!
