//! Shared Yaku Journal click-to-open animation (shop counter + gameplay HUD).

use vstd::prelude::*;
use std::time::Instant;

verus! {

#[verifier::external_type_specification]
#[verifier::external_body]
pub struct ExInstant(Instant);

/// Forward opens toward the journal scene; reverse plays after the overlay pops.
#[derive(Clone, Copy, PartialEq, Eq, Structural)]
pub enum JournalDirection {
    Opening,
    Closing,
}

/// Length of the whole animation (cover opening, then zoom), in nanoseconds.
pub const TOTAL_DUR_NANOS: u128 = 1_100_000_000;

/// Time elapsed since `start`, in whole nanoseconds (`Instant::elapsed`).
/// Depends on the clock, so nothing is stated of the result.
#[verifier::external_body]
fn elapsed_nanos(start: &Instant) -> u128 {
    start.elapsed().as_nanos()
}

/// Has an animation that started `elapsed_nanos` ago finished?
pub fn done_after(elapsed_nanos: u128) -> (r: bool)
    ensures
        r == (elapsed_nanos >= TOTAL_DUR_NANOS),
{
    elapsed_nanos >= TOTAL_DUR_NANOS
}

#[derive(Clone, Copy)]
pub struct JournalTransition {
    pub start: Instant,
    pub dir: JournalDirection,
}

impl JournalTransition {
    /// Has the animation run its full length? Reads the clock, then decides
    /// with [`done_after`].
    pub fn done(self) -> bool {
        let e = elapsed_nanos(&self.start);
        done_after(e)
    }
}

} // verus!
