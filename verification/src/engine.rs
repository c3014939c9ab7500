//! The render loop's per-cycle decision: from the previous fill count and the
//! freshly polled snapshot, decide everything one cycle does to the display.
//!
//! The loop itself lives outside this crate: it polls the snapshot source,
//! calls `plan_cycle`, and executes the returned plan against the display —
//! clear the fade pixels in order (pausing `FADE_STEP_PAUSE_MS` between
//! steps), light the filled range, run the pulse animation the given number
//! of times, then sleep. Any display or polling error is fatal to the loop;
//! the plan itself never fails.

use vstd::prelude::*;
use crate::color::spec_color_for_playback;
use crate::fade::fade_down_indices;
use crate::mapper::{map_snapshot, spec_fill_count, PlaybackSnapshot, RenderTarget};
use crate::PIXEL_COUNT;

verus! {

/// How long the loop sleeps before re-polling when there is nothing to
/// animate, in milliseconds.
pub const POLL_SLEEP_MS: u64 = 2000;

/// Ambient brightness of the filled pixels and peak brightness of the pulse,
/// in thousandths: a quarter of full brightness.
pub const AMBIENT_BRIGHTNESS_MILLI: u32 = 250;

/// How many times in sequence the pulse runs on the boundary pixel.
pub const PULSE_REPEATS: u8 = 2;

/// A pulse animation to run: `repeats` full envelopes on `pixel`, peaking at
/// `max_brightness_milli` thousandths, in the progress-bar color.
#[derive(Clone, Copy, Debug, PartialEq, Eq, Structural)]
pub struct PulseTarget {
    pub pixel: u8,
    pub color: crate::color::PixelColor,
    pub max_brightness_milli: u32,
    pub repeats: u8,
}

/// Everything one cycle of the render loop does, in execution order.
#[derive(Debug, PartialEq, Eq)]
pub struct CyclePlan {
    /// Pixels to clear first, in order (the fade-down transition); empty when
    /// progress did not regress.
    pub fade_pixels: Vec<usize>,
    /// Then light pixels `[0, fill_count)` in `color` at
    /// `AMBIENT_BRIGHTNESS_MILLI` and flush; `None` when this cycle renders
    /// nothing.
    pub render: Option<RenderTarget>,
    /// Then run this pulse animation, if any.
    pub pulse: Option<PulseTarget>,
    /// Finally sleep this long before the next poll; zero means re-poll at
    /// once (the pulse animation itself paced the cycle).
    pub sleep_ms: u64,
}

/// Decides one cycle of the render loop.
///
/// With no snapshot, the cycle does nothing and re-polls. With a malformed
/// snapshot (zero total duration), nothing is drawn and the loop just sleeps.
/// Otherwise the snapshot maps to a fill count `n`: if `n` dropped below the
/// previous count, the plan first fades the stale pixels down, then renders
/// the filled range; and while playback is active and a boundary pixel
/// exists (`n < PIXEL_COUNT`), the boundary pixel pulses `PULSE_REPEATS`
/// times in place of the sleep.
///
/// Returns the plan and the fill count to carry into the next cycle.
pub fn plan_cycle(last_count: u8, snapshot: &Option<PlaybackSnapshot>) -> (r: (CyclePlan, u8))
    requires
        last_count <= PIXEL_COUNT,
    ensures
        r.1 <= PIXEL_COUNT,
        snapshot is None ==> {
            &&& r.0.fade_pixels@.len() == 0
            &&& r.0.render is None
            &&& r.0.pulse is None
            &&& r.0.sleep_ms == 0
            &&& r.1 == last_count
        },
        snapshot is Some && snapshot->0.total_ms == 0 ==> {
            &&& r.0.fade_pixels@.len() == 0
            &&& r.0.render is None
            &&& r.0.pulse is None
            &&& r.0.sleep_ms == POLL_SLEEP_MS
            &&& r.1 == last_count
        },
        snapshot is Some && snapshot->0.total_ms > 0 ==> ({
            let s = snapshot->0;
            let n = spec_fill_count(s.elapsed_ms as int, s.total_ms as int) as u8;
            &&& r.1 == n
            &&& r.0.render == (Some(RenderTarget {
                fill_count: n,
                color: spec_color_for_playback(s.is_playing),
            }))
            &&& (n < last_count ==> {
                &&& r.0.fade_pixels@.len() == last_count - n
                &&& (forall|i: int| 0 <= i < r.0.fade_pixels@.len()
                        ==> #[trigger] r.0.fade_pixels@[i] == last_count - i)
            })
            &&& (n >= last_count ==> r.0.fade_pixels@.len() == 0)
            &&& (n < PIXEL_COUNT && s.is_playing ==> {
                &&& r.0.pulse == (Some(PulseTarget {
                    pixel: n,
                    color: spec_color_for_playback(s.is_playing),
                    max_brightness_milli: AMBIENT_BRIGHTNESS_MILLI,
                    repeats: PULSE_REPEATS,
                }))
                &&& r.0.sleep_ms == 0
            })
            &&& (!(n < PIXEL_COUNT && s.is_playing) ==> {
                &&& r.0.pulse is None
                &&& r.0.sleep_ms == POLL_SLEEP_MS
            })
        }),
{
    match map_snapshot(snapshot) {
        None => {
            let sleep_ms: u64 = if snapshot.is_some() { POLL_SLEEP_MS } else { 0 };
            let plan = CyclePlan {
                fade_pixels: Vec::new(),
                render: None,
                pulse: None,
                sleep_ms,
            };
            (plan, last_count)
        },
        Some(target) => {
            let n = target.fill_count;
            let fade_pixels: Vec<usize> = if n < last_count {
                fade_down_indices(last_count as usize, n as usize)
            } else {
                Vec::new()
            };
            let is_playing = match snapshot {
                Some(s) => s.is_playing,
                None => false,
            };
            let (pulse, sleep_ms): (Option<PulseTarget>, u64) = if n < PIXEL_COUNT && is_playing {
                (
                    Some(PulseTarget {
                        pixel: n,
                        color: target.color,
                        max_brightness_milli: AMBIENT_BRIGHTNESS_MILLI,
                        repeats: PULSE_REPEATS,
                    }),
                    0,
                )
            } else {
                (None, POLL_SLEEP_MS)
            };
            let plan = CyclePlan {
                fade_pixels,
                render: Some(target),
                pulse,
                sleep_ms,
            };
            (plan, n)
        },
    }
}

} // verus!
