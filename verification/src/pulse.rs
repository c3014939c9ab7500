//! The pulse animator: a triangular brightness envelope on the boundary
//! pixel, signalling live playback.
//!
//! The animation is driven by wall-clock time: a periodic tick source fires
//! every `PULSE_TICK_MS` milliseconds (skipping missed ticks rather than
//! catching up), and on each tick the caller samples the envelope with
//! `pulse_frame` at the time elapsed since the animation started. Because the
//! terminal state depends only on elapsed time, never on how many ticks
//! actually fired, the animation reaches "off" even when ticks are skipped.

use vstd::prelude::*;

verus! {

/// Period of the tick source that drives the animation, in milliseconds.
pub const PULSE_TICK_MS: u64 = 10;

/// Time to ramp from dark to the peak (and back), in milliseconds.
pub const PULSE_RAMP_MS: u64 = 500;

/// Full length of the envelope, in milliseconds: ramp up, then ramp down.
/// Past this point the animation terminates.
pub const PULSE_TOTAL_MS: u64 = 1000;

/// Brightness values are carried in thousandths of full brightness, so that
/// the envelope is exact integer arithmetic: `1000` is full on, `0` is off.
pub const BRIGHTNESS_FULL_MILLI: u32 = 1000;

/// What one tick of the pulse animation does to the boundary pixel.
#[derive(Clone, Copy, Debug, PartialEq, Eq, Structural)]
pub enum PulseFrame {
    /// Show the pulse color at this brightness (in thousandths) and flush.
    Lit { brightness_milli: u32 },
    /// Turn the pixel off, flush, and end the animation. This is the sole
    /// terminal transition.
    Off,
}

/// The envelope: brightness ramps linearly from `0` at the start up to `max`
/// at `PULSE_RAMP_MS`, then back down to `0` at `PULSE_TOTAL_MS`. Meaningful
/// for `0 <= elapsed_ms <= PULSE_TOTAL_MS`.
pub open spec fn spec_pulse_brightness(elapsed_ms: int, max_milli: int) -> int
    recommends
        0 <= elapsed_ms <= PULSE_TOTAL_MS,
{
    if elapsed_ms <= PULSE_RAMP_MS {
        max_milli * elapsed_ms / (PULSE_RAMP_MS as int)
    } else {
        max_milli * (PULSE_TOTAL_MS - elapsed_ms) / (PULSE_RAMP_MS as int)
    }
}

/// The envelope never leaves `[0, max]`: a pulse never exceeds the peak
/// brightness it was asked for, and never goes negative.
pub proof fn lemma_pulse_brightness_bounded(elapsed_ms: int, max_milli: int)
    requires
        0 <= elapsed_ms <= PULSE_TOTAL_MS,
        0 <= max_milli,
    ensures
        0 <= spec_pulse_brightness(elapsed_ms, max_milli) <= max_milli,
{
    if elapsed_ms <= PULSE_RAMP_MS {
        assert(0 <= max_milli * elapsed_ms / 500 <= max_milli) by (nonlinear_arith)
            requires
                0 <= elapsed_ms <= 500,
                0 <= max_milli,
        ;
    } else {
        assert(0 <= max_milli * (1000 - elapsed_ms) / 500 <= max_milli) by (nonlinear_arith)
            requires
                500 < elapsed_ms <= 1000,
                0 <= max_milli,
        ;
    }
}

/// Samples the pulse envelope at `elapsed_ms` milliseconds since the
/// animation started: the brightness to show while the envelope is running,
/// or `Off` once the total duration has passed.
pub fn pulse_frame(elapsed_ms: u64, max_brightness_milli: u32) -> (frame: PulseFrame)
    requires
        max_brightness_milli <= BRIGHTNESS_FULL_MILLI,
    ensures
        frame is Off <==> elapsed_ms > PULSE_TOTAL_MS,
        elapsed_ms <= PULSE_TOTAL_MS ==> frame == (PulseFrame::Lit {
            brightness_milli: spec_pulse_brightness(
                elapsed_ms as int,
                max_brightness_milli as int,
            ) as u32,
        }),
{
    if elapsed_ms > PULSE_TOTAL_MS {
        PulseFrame::Off
    } else {
        proof {
            lemma_pulse_brightness_bounded(elapsed_ms as int, max_brightness_milli as int);
        }
        let remaining: u64 = if elapsed_ms <= PULSE_RAMP_MS {
            elapsed_ms
        } else {
            PULSE_TOTAL_MS - elapsed_ms
        };
        let brightness: u64 = (max_brightness_milli as u64) * remaining / PULSE_RAMP_MS;
        PulseFrame::Lit { brightness_milli: brightness as u32 }
    }
}

} // verus!
