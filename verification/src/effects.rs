//! The integer parts of the LED effects: the frame period, and the frames of
//! the segment and wipe animations before brightness is applied.

use vstd::prelude::*;
use crate::config::{EffectMode, RuntimeConfig, SoundMode};
use crate::layout::{segment_bounds, spec_segment_bounds};

verus! {

/// Microseconds between frames at `fps` frames per second (a rate of 0
/// counts as 1).
pub open spec fn spec_frame_interval_micros(fps: u32) -> int {
    1_000_000int / (if fps < 1 { 1int } else { fps as int })
}

/// The frame period of an effect running at `fps`; see
/// [`spec_frame_interval_micros`].
pub fn frame_interval_micros(fps: u32) -> (r: u64)
    ensures
        r == spec_frame_interval_micros(fps),
{
    let f: u64 = if fps < 1 { 1 } else { fps as u64 };
    1_000_000 / f
}

/// Channel `k` of LED `i` shows `color` exactly on the LEDs in `lit`, and is
/// dark elsewhere.
pub open spec fn lit_frame(rgb: Seq<u8>, n: int, color: [u8; 3], lit: spec_fn(int) -> bool) -> bool {
    &&& rgb.len() == 3 * n
    &&& forall|i: int, k: int| 0 <= i < n && 0 <= k < 3 ==> #[trigger] rgb[3 * i + k] == (if lit(i) { color@[k] } else { 0u8 })
}

fn fill_range(rgb: &mut Vec<u8>, start: usize, end: usize, color: [u8; 3])
    requires
        start <= end,
        3 * end <= old(rgb)@.len(),
        3 * end <= usize::MAX,
    ensures
        final(rgb)@.len() == old(rgb)@.len(),
        forall|j: int| 0 <= j < old(rgb)@.len() ==> #[trigger] final(rgb)@[j] == (if 3 * start <= j < 3 * end {
            color@[j % 3]
        } else {
            old(rgb)@[j]
        }),
{
    let mut i: usize = start;
    while i < end
        invariant
            start <= i <= end,
            3 * end <= rgb@.len(),
            3 * end <= usize::MAX,
            rgb@.len() == old(rgb)@.len(),
            forall|j: int| 0 <= j < old(rgb)@.len() ==> #[trigger] rgb@[j] == (if 3 * start <= j < 3 * i {
                color@[j % 3]
            } else {
                old(rgb)@[j]
            }),
        decreases end - i,
    {
        let base = 3 * i;
        rgb.set(base, color[0]);
        rgb.set(base + 1, color[1]);
        rgb.set(base + 2, color[2]);
        i += 1;
    }
}

/// The segment animation: at animation step `step`, segment `step % 3` of
/// the strip (right, top, left) shows `color`, the rest is dark.
pub fn render_segment(n: usize, step: usize, color: [u8; 3]) -> (rgb: Vec<u8>)
    requires
        n * 31 <= usize::MAX,
        3 * n <= usize::MAX,
    ensures
        lit_frame(rgb@, n as int, color, |i: int| spec_segment_bounds(n as int)[(step % 3) as int].0 <= i
            < spec_segment_bounds(n as int)[(step % 3) as int].1),
{
    let mut rgb: Vec<u8> = vec![0u8; 3 * n];
    let bounds = segment_bounds(n);
    let active = step % 3;
    let (start, end) = bounds[active];
    let stop = if end < n { end } else { n };
    if start < stop {
        fill_range(&mut rgb, start, stop, color);
    }
    proof {
        let b = spec_segment_bounds(n as int)[active as int];
        assert forall|i: int, k: int| 0 <= i < n && 0 <= k < 3 implies #[trigger] rgb@[3 * i + k] == (if b.0 <= i < b.1 {
            color@[k]
        } else {
            0u8
        }) by {
            assert((3 * i + k) % 3 == k) by (nonlinear_arith)
                requires 0 <= k < 3, 0 <= i;
            assert(3 * start <= 3 * i + k < 3 * stop <==> (start <= i < stop)) by (nonlinear_arith)
                requires 0 <= k < 3;
        }
    }
    rgb
}

/// The wipe animation: the first `fill` LEDs (at most all `n`) show
/// `color`, the rest is dark.
pub fn render_wipe(n: usize, fill: usize, color: [u8; 3]) -> (rgb: Vec<u8>)
    requires
        3 * n <= usize::MAX,
    ensures
        lit_frame(rgb@, n as int, color, |i: int| i < fill),
{
    let mut rgb: Vec<u8> = vec![0u8; 3 * n];
    let stop = if fill < n { fill } else { n };
    fill_range(&mut rgb, 0, stop, color);
    proof {
        assert forall|i: int, k: int| 0 <= i < n && 0 <= k < 3 implies #[trigger] rgb@[3 * i + k] == (if i < fill {
            color@[k]
        } else {
            0u8
        }) by {
            assert((3 * i + k) % 3 == k) by (nonlinear_arith)
                requires 0 <= k < 3, 0 <= i;
            assert(0 <= 3 * i + k < 3 * stop <==> (i < stop)) by (nonlinear_arith)
                requires 0 <= k < 3, 0 <= i;
        }
    }
    rgb
}

/// The audio monitor must run: a sound mode is on, or the effect is the
/// sound visualiser.
pub fn audio_needed(cfg: &RuntimeConfig) -> (r: bool)
    ensures
        r == (cfg.audio.sound_mode != SoundMode::Off || cfg.effect.mode == EffectMode::SoundViz),
{
    cfg.audio.sound_mode != SoundMode::Off || cfg.effect.mode == EffectMode::SoundViz
}

/// Frames are modulated by the audio level: a sound mode is on and the
/// effect is not the sound visualiser (which uses the audio itself).
pub fn modulation_applies(cfg: &RuntimeConfig) -> (r: bool)
    ensures
        r == (cfg.audio.sound_mode != SoundMode::Off && cfg.effect.mode != EffectMode::SoundViz),
{
    !(cfg.effect.mode == EffectMode::SoundViz || cfg.audio.sound_mode == SoundMode::Off)
}

/// The frame period is the whole number of microseconds that fits
/// `fps` times into a second (a rate of 0 counts as 1).
pub proof fn lemma_frame_interval(fps: u32)
    ensures
        fps >= 1 ==> spec_frame_interval_micros(fps) * fps <= 1_000_000 < (spec_frame_interval_micros(fps) + 1) * fps,
        fps == 0 ==> spec_frame_interval_micros(fps) == 1_000_000,
{
    if fps >= 1 {
        let q = spec_frame_interval_micros(fps);
        assert(q == 1_000_000int / (fps as int));
        assert(q * fps <= 1_000_000 < (q + 1) * fps) by (nonlinear_arith)
            requires q == 1_000_000int / (fps as int), fps >= 1;
    }
}

} // verus!
