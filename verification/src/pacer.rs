//! Frame pacing against a fixed 60 Hz budget.
//!
//! The renderer measures how long one frame's scan took; the pacer
//! decides whether the remainder of the budget is to be slept away or,
//! on an overrun, by how much the budget was missed. Measuring the
//! clock and sleeping are the caller's work.

use vstd::prelude::*;

verus! {

/// One frame's share of a second at 60 frames per second, in microseconds.
pub const FRAME_BUDGET_MICROS: u64 = 1000000 / 60;

/// The pacing decision for one frame.
#[derive(Clone, Copy, PartialEq, Eq, Structural, Debug)]
pub enum Pace {
    /// The scan finished early: block for this many microseconds before
    /// the next frame.
    Sleep(u64),
    /// The scan overran the budget by this many microseconds: do not
    /// block, report the overrun, and carry on.
    Overrun(u64),
}

/// Decide the pacing for a frame whose scan took `elapsed_micros`: sleep
/// the exact remainder of the budget, or report the exact overrun and
/// proceed at once.
pub fn pace_frame(elapsed_micros: u64) -> (p: Pace)
    ensures
        elapsed_micros < FRAME_BUDGET_MICROS ==> p == Pace::Sleep(
            (FRAME_BUDGET_MICROS - elapsed_micros) as u64,
        ),
        elapsed_micros >= FRAME_BUDGET_MICROS ==> p == Pace::Overrun(
            (elapsed_micros - FRAME_BUDGET_MICROS) as u64,
        ),
{
    if elapsed_micros < FRAME_BUDGET_MICROS {
        Pace::Sleep(FRAME_BUDGET_MICROS - elapsed_micros)
    } else {
        Pace::Overrun(elapsed_micros - FRAME_BUDGET_MICROS)
    }
}

} // verus!
