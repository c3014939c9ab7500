//! The fade-down animator: clears pixels one by one, from the old fill
//! boundary down toward the new, smaller one, when progress regresses.
//!
//! This module decides which pixels to clear and in what order; the caller
//! turns each index into a "pixel off, flush" on the display and pauses
//! `FADE_STEP_PAUSE_MS` milliseconds between steps.

use vstd::prelude::*;

verus! {

/// Pause between two cleared pixels, in milliseconds.
pub const FADE_STEP_PAUSE_MS: u64 = 100;

/// The pixels a fade-down clears, in order: `from_count` down to
/// `to_count + 1`, one step per pixel. Pixels `to_count` and below are never
/// touched; they stay lit from the previous cycle or are re-lit by the render
/// step that follows.
pub fn fade_down_indices(from_count: usize, to_count: usize) -> (cleared: Vec<usize>)
    requires
        to_count < from_count,
    ensures
        cleared@.len() == from_count - to_count,
        forall|i: int| 0 <= i < cleared@.len() ==> cleared@[i] == from_count - i,
        forall|i: int| 0 <= i < cleared@.len() ==> to_count < #[trigger] cleared@[i] <= from_count,
{
    let steps: usize = from_count - to_count;
    let mut cleared: Vec<usize> = Vec::new();
    let mut i: usize = 0;
    while i < steps
        invariant
            to_count < from_count,
            steps == from_count - to_count,
            i <= steps,
            cleared@.len() == i,
            forall|j: int| 0 <= j < i ==> cleared@[j] == from_count - j,
        decreases steps - i,
    {
        cleared.push(from_count - i);
        i = i + 1;
    }
    cleared
}

} // verus!
