//! The progress mapper: turns one playback snapshot into the number of pixels
//! to light and the color to light them with.

use vstd::prelude::*;
use crate::color::{color_for_playback, spec_color_for_playback, PixelColor};
use crate::PIXEL_COUNT;

verus! {

/// One poll's worth of playback state. Durations are in whole milliseconds.
/// Fetched fresh every cycle and never persisted.
#[derive(Clone, Copy, Debug, PartialEq, Eq, Structural)]
pub struct PlaybackSnapshot {
    pub is_playing: bool,
    pub elapsed_ms: u64,
    pub total_ms: u64,
}

/// What the mapper asks the render step to draw: light pixels
/// `[0, fill_count)` in `color`.
#[derive(Clone, Copy, Debug, PartialEq, Eq, Structural)]
pub struct RenderTarget {
    pub fill_count: u8,
    pub color: PixelColor,
}

/// The fill count for a given position: elapsed time over total duration,
/// quantized into eight buckets and clamped at eight. Meaningful only for
/// `total_ms > 0`; the mapper never applies it to a zero total.
pub open spec fn spec_fill_count(elapsed_ms: int, total_ms: int) -> int
    recommends
        total_ms > 0,
{
    if 8 * elapsed_ms / total_ms > 8 {
        8int
    } else {
        8 * elapsed_ms / total_ms
    }
}

/// Progress never reaches past the strip: whenever the elapsed time is within
/// the track, the quantized fill count lies in `[0, 8]` and the clamp is
/// inert, so the count is exactly `floor(8 * elapsed / total)`.
pub proof fn lemma_fill_count_in_range(elapsed_ms: int, total_ms: int)
    requires
        total_ms > 0,
        0 <= elapsed_ms <= total_ms,
    ensures
        spec_fill_count(elapsed_ms, total_ms) == 8 * elapsed_ms / total_ms,
        0 <= spec_fill_count(elapsed_ms, total_ms) <= 8,
{
    assert(0 <= 8 * elapsed_ms / total_ms <= 8) by (nonlinear_arith)
        requires
            total_ms > 0,
            0 <= elapsed_ms <= total_ms,
    ;
}

/// A finished track fills the whole strip: equal elapsed and total times give
/// a fill count of exactly eight, with no rounding down at the boundary.
pub proof fn lemma_full_elapsed_fills_strip(elapsed_ms: int, total_ms: int)
    requires
        total_ms > 0,
        elapsed_ms == total_ms,
    ensures
        spec_fill_count(elapsed_ms, total_ms) == 8,
{
    assert(8 * total_ms / total_ms == 8) by (nonlinear_arith)
        requires
            total_ms > 0,
    ;
}

/// Quantizes a playback position into the number of pixels to light.
pub fn fill_count(elapsed_ms: u64, total_ms: u64) -> (n: u8)
    requires
        total_ms > 0,
    ensures
        n == spec_fill_count(elapsed_ms as int, total_ms as int),
        n <= PIXEL_COUNT,
        elapsed_ms <= total_ms ==> n == 8 * elapsed_ms / total_ms as int,
        elapsed_ms == total_ms ==> n == 8,
{
    let scaled: u128 = 8 * (elapsed_ms as u128);
    let q: u128 = scaled / (total_ms as u128);
    let n: u8 = if q >= 8 { 8 } else { q as u8 };
    proof {
        if elapsed_ms <= total_ms {
            lemma_fill_count_in_range(elapsed_ms as int, total_ms as int);
        }
        if elapsed_ms == total_ms {
            lemma_full_elapsed_fills_strip(elapsed_ms as int, total_ms as int);
        }
    }
    n
}

/// Maps a snapshot to a render target, or to `None` ("no render") when there
/// is no snapshot or the snapshot is malformed (a zero total duration, which
/// would otherwise mean dividing by zero). On `Some`, the fill count is the
/// quantized, clamped progress and the color is the playback color.
pub fn map_snapshot(snapshot: &Option<PlaybackSnapshot>) -> (target: Option<RenderTarget>)
    ensures
        target is Some <==> (snapshot is Some && snapshot->0.total_ms > 0),
        target is Some ==> target->0.fill_count <= PIXEL_COUNT,
        snapshot is Some && snapshot->0.total_ms > 0 ==> target == (Some(RenderTarget {
            fill_count: spec_fill_count(
                snapshot->0.elapsed_ms as int,
                snapshot->0.total_ms as int,
            ) as u8,
            color: spec_color_for_playback(snapshot->0.is_playing),
        })),
{
    match snapshot {
        Some(s) if s.total_ms > 0 => {
            let n = fill_count(s.elapsed_ms, s.total_ms);
            let color = color_for_playback(s.is_playing);
            Some(RenderTarget { fill_count: n, color })
        },
        _ => None,
    }
}

} // verus!
