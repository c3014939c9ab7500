//! Renders the playback progress of a remote music session on a strip of
//! eight addressable LEDs: a proportional fill bar, a pulsing boundary pixel
//! while playback is active, and a fade-down transition when progress moves
//! backwards.
//!
//! This crate holds the animation engine and the progress-rendering state
//! machine: everything that decides what the pixels should show, as pure
//! functions from playback state and elapsed time to pixel commands. The
//! surrounding process (polling the remote service, driving the LED bus,
//! ticking and sleeping) executes those commands.

pub mod color;
pub mod engine;
pub mod fade;
pub mod mapper;
pub mod pulse;

use vstd::prelude::*;

verus! {

/// Number of pixels on the LED strip.
pub const PIXEL_COUNT: u8 = 8;

} // verus!
