//! Pixel colors and the mapping from playback state to a color.

use vstd::prelude::*;

verus! {

/// An RGB color for one pixel. Brightness is carried separately, as a
/// multiplier in thousandths (see the animators).
#[derive(Clone, Copy, Debug, PartialEq, Eq, Structural)]
pub struct PixelColor {
    pub r: u8,
    pub g: u8,
    pub b: u8,
}

/// The color used for the progress bar, chosen from the play/pause state.
/// Deliberately the same color in both states today; the signature keeps the
/// state as an input so the choice can vary later without touching callers.
pub fn rgb_for_playback(is_playing: bool) -> (rgb: (u8, u8, u8))
    ensures
        rgb == (0u8, 255u8, 0u8),
{
    match is_playing {
        _ => (0, 255, 0),
    }
}

/// `rgb_for_playback` as a `PixelColor`.
pub fn color_for_playback(is_playing: bool) -> (c: PixelColor)
    ensures
        c == spec_color_for_playback(is_playing),
{
    let (r, g, b) = rgb_for_playback(is_playing);
    PixelColor { r, g, b }
}

/// What `color_for_playback` returns: always green.
pub open spec fn spec_color_for_playback(is_playing: bool) -> PixelColor {
    PixelColor { r: 0, g: 255, b: 0 }
}

} // verus!
