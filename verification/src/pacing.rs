//! Pacing of the ticks.
//!
//! The controller has no clock. Whoever drives it measures how long a tick
//! took and waits for the rest of the frame budget before the next one.

use vstd::prelude::*;

verus! {

/// Ticks per second that the face is made for.
pub const TARGET_FPS: u64 = 30;

/// Time that one tick may take, in microseconds.
pub const FRAME_BUDGET: u64 = 1_000_000 / TARGET_FPS;

/// The time left to wait, in microseconds, after a tick that took
/// `elapsed` microseconds: the rest of the frame budget, or `None` where
/// the tick has used it up.
pub fn remaining_budget(elapsed: u64) -> (wait: Option<u32>)
    ensures
        elapsed < FRAME_BUDGET ==> wait == Some((FRAME_BUDGET - elapsed) as u32),
        elapsed >= FRAME_BUDGET ==> wait.is_none(),
        wait matches Some(w) ==> 0 < w <= FRAME_BUDGET,
{
    if elapsed < FRAME_BUDGET {
        Some((FRAME_BUDGET - elapsed) as u32)
    } else {
        None
    }
}

} // verus!
