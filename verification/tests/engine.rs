use led_progress::color::PixelColor;
use led_progress::engine::{plan_cycle, PulseTarget, POLL_SLEEP_MS};
use led_progress::mapper::{PlaybackSnapshot, RenderTarget};

const GREEN: PixelColor = PixelColor { r: 0, g: 255, b: 0 };

#[test]
fn playing_track_lights_bar_and_pulses_boundary() {
    // 30 s into a 240 s track: ratio 0.125, scaled 1.0, one pixel lit;
    // playing and fill < 8, so the boundary pixel (index 1) pulses twice
    let snap = PlaybackSnapshot { is_playing: true, elapsed_ms: 30_000, total_ms: 240_000 };
    let (plan, new_last) = plan_cycle(0, &Some(snap));
    assert_eq!(new_last, 1);
    assert!(plan.fade_pixels.is_empty());
    assert_eq!(plan.render, Some(RenderTarget { fill_count: 1, color: GREEN }));
    assert_eq!(
        plan.pulse,
        Some(PulseTarget { pixel: 1, color: GREEN, max_brightness_milli: 250, repeats: 2 })
    );
    assert_eq!(plan.sleep_ms, 0);
}

#[test]
fn seek_backward_fades_down_before_rendering() {
    // previous count 6, new snapshot quantizes to 2: fade clears 6, 5, 4, 3
    // (in that order) before the two filled pixels are rendered
    let snap = PlaybackSnapshot { is_playing: true, elapsed_ms: 60_000, total_ms: 240_000 };
    let (plan, new_last) = plan_cycle(6, &Some(snap));
    assert_eq!(new_last, 2);
    assert_eq!(plan.fade_pixels, vec![6, 5, 4, 3]);
    assert_eq!(plan.render, Some(RenderTarget { fill_count: 2, color: GREEN }));
}

#[test]
fn paused_playback_never_pulses_and_sleeps() {
    // paused: no pulse, a full poll sleep, whatever the fill count
    for (elapsed, last) in [(0u64, 0u8), (60_000, 3), (239_999, 8), (240_000, 8)] {
        let snap = PlaybackSnapshot { is_playing: false, elapsed_ms: elapsed, total_ms: 240_000 };
        let (plan, _) = plan_cycle(last, &Some(snap));
        assert_eq!(plan.pulse, None);
        assert_eq!(plan.sleep_ms, POLL_SLEEP_MS);
    }
}

#[test]
fn full_strip_never_pulses_even_while_playing() {
    // fill count 8 leaves no boundary pixel: no pulse, sleep instead
    let snap = PlaybackSnapshot { is_playing: true, elapsed_ms: 240_000, total_ms: 240_000 };
    let (plan, new_last) = plan_cycle(5, &Some(snap));
    assert_eq!(new_last, 8);
    assert_eq!(plan.render, Some(RenderTarget { fill_count: 8, color: GREEN }));
    assert_eq!(plan.pulse, None);
    assert_eq!(plan.sleep_ms, POLL_SLEEP_MS);
}

#[test]
fn absent_snapshot_does_nothing_and_repolls() {
    let (plan, new_last) = plan_cycle(4, &None);
    assert!(plan.fade_pixels.is_empty());
    assert_eq!(plan.render, None);
    assert_eq!(plan.pulse, None);
    assert_eq!(plan.sleep_ms, 0);
    assert_eq!(new_last, 4);
}

#[test]
fn zero_duration_snapshot_renders_nothing_and_sleeps() {
    let snap = PlaybackSnapshot { is_playing: true, elapsed_ms: 5_000, total_ms: 0 };
    let (plan, new_last) = plan_cycle(4, &Some(snap));
    assert!(plan.fade_pixels.is_empty());
    assert_eq!(plan.render, None);
    assert_eq!(plan.pulse, None);
    assert_eq!(plan.sleep_ms, POLL_SLEEP_MS);
    assert_eq!(new_last, 4);
}

#[test]
fn progress_forward_never_fades() {
    let snap = PlaybackSnapshot { is_playing: true, elapsed_ms: 120_000, total_ms: 240_000 };
    let (plan, new_last) = plan_cycle(2, &Some(snap));
    assert_eq!(new_last, 4);
    assert!(plan.fade_pixels.is_empty());
}
