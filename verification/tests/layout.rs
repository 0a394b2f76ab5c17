use hyper_sync::config::{EffectMode, RuntimeConfig, SoundMode};
use hyper_sync::effects::{audio_needed, frame_interval_micros, modulation_applies, render_segment, render_wipe};
use hyper_sync::layout::{led_zone, segment_bounds, LedZone};

#[test]
fn bounds_for_65_leds_are_17_31_17() {
    assert_eq!(segment_bounds(65), [(0, 17), (17, 48), (48, 65)]);
}

#[test]
fn bounds_tile_any_strip() {
    for n in 0..300usize {
        let b = segment_bounds(n);
        assert_eq!(b[0].0, 0);
        assert_eq!(b[0].1, b[1].0);
        assert_eq!(b[1].1, b[2].0);
        assert_eq!(b[2].1, n);
    }
    assert_eq!(segment_bounds(0), [(0, 0), (0, 0), (0, 0)]);
    assert_eq!(segment_bounds(10), [(0, 2), (2, 6), (6, 10)]);
}

#[test]
fn zones_follow_bounds() {
    assert_eq!(led_zone(0, 65), LedZone::Right);
    assert_eq!(led_zone(16, 65), LedZone::Right);
    assert_eq!(led_zone(17, 65), LedZone::Top);
    assert_eq!(led_zone(47, 65), LedZone::Top);
    assert_eq!(led_zone(48, 65), LedZone::Left);
    assert_eq!(led_zone(64, 65), LedZone::Left);
    assert_eq!(led_zone(100, 65), LedZone::Left);
}

#[test]
fn frame_interval_from_fps() {
    assert_eq!(frame_interval_micros(30), 33_333);
    assert_eq!(frame_interval_micros(60), 16_666);
    assert_eq!(frame_interval_micros(0), 1_000_000);
    assert_eq!(frame_interval_micros(1), 1_000_000);
}

#[test]
fn segment_animation_lights_one_segment() {
    let c = [9, 8, 7];
    let f = render_segment(65, 1, c);
    assert_eq!(f.len(), 195);
    for i in 0..65 {
        let px = &f[3 * i..3 * i + 3];
        if (17..48).contains(&i) {
            assert_eq!(px, &c);
        } else {
            assert_eq!(px, &[0, 0, 0]);
        }
    }
    let f = render_segment(65, 5, c);
    assert_eq!(&f[3 * 48..3 * 49], &c);
    assert_eq!(&f[0..3], &[0, 0, 0]);
}

#[test]
fn wipe_fills_from_the_start() {
    let c = [1, 2, 3];
    let f = render_wipe(4, 2, c);
    assert_eq!(f, vec![1, 2, 3, 1, 2, 3, 0, 0, 0, 0, 0, 0]);
    let f = render_wipe(2, 10, c);
    assert_eq!(f, vec![1, 2, 3, 1, 2, 3]);
    assert_eq!(render_wipe(3, 0, c), vec![0; 9]);
}

#[test]
fn audio_decisions() {
    let mut c = RuntimeConfig::default();
    assert!(!audio_needed(&c) && !modulation_applies(&c));
    c.effect.mode = EffectMode::SoundViz;
    assert!(audio_needed(&c) && !modulation_applies(&c));
    c.audio.sound_mode = SoundMode::Level;
    assert!(audio_needed(&c) && !modulation_applies(&c));
    c.effect.mode = EffectMode::Solid;
    assert!(audio_needed(&c) && modulation_applies(&c));
}
