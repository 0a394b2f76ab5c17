//! Physical zones of the strip: right, top and left runs of LEDs
//! (17 / 31 / 17 at 65 LEDs).

use vstd::prelude::*;

verus! {

/// The side of the screen an LED sits on.
#[derive(Debug, Clone, Copy, PartialEq, Eq, Structural)]
pub enum LedZone {
    Right,
    Top,
    Left,
}

/// Number of LEDs on the right run for a strip of `n` LEDs.
pub open spec fn right_len(n: int) -> int {
    n * 17 / 65
}

/// Number of LEDs on the top run for a strip of `n` LEDs.
pub open spec fn top_len(n: int) -> int {
    n * 31 / 65
}

/// The half-open index ranges of the right, top and left runs.
pub open spec fn spec_segment_bounds(n: int) -> Seq<(int, int)> {
    let r = right_len(n);
    let t = top_len(n);
    seq![(0, r), (r, r + t), (r + t, n)]
}

/// The zone of LED `i` on a strip of `n` LEDs.
pub open spec fn spec_led_zone(i: int, n: int) -> LedZone {
    if 0 <= i < right_len(n) {
        LedZone::Right
    } else if right_len(n) <= i < right_len(n) + top_len(n) {
        LedZone::Top
    } else {
        LedZone::Left
    }
}

proof fn lemma_run_lengths(n: int)
    requires
        n >= 0,
    ensures
        0 <= right_len(n),
        0 <= top_len(n),
        right_len(n) + top_len(n) <= n,
{
    assert(n * 17 / 65 + n * 31 / 65 <= n) by (nonlinear_arith)
        requires n >= 0;
    assert(0 <= n * 17 / 65) by (nonlinear_arith)
        requires n >= 0;
    assert(0 <= n * 31 / 65) by (nonlinear_arith)
        requires n >= 0;
}

/// Index ranges `[start, end)` of the right, top and left runs of a strip of
/// `n` LEDs.
pub fn segment_bounds(n: usize) -> (b: [(usize, usize); 3])
    requires
        n * 31 <= usize::MAX,
    ensures
        b@.len() == 3,
        forall|k: int| 0 <= k < 3 ==> b@[k].0 == spec_segment_bounds(n as int)[k].0
            && b@[k].1 == spec_segment_bounds(n as int)[k].1,
{
    proof {
        lemma_run_lengths(n as int);
    }
    let right = n * 17 / 65;
    let top = n * 31 / 65;
    let left = n.saturating_sub(right + top);
    [(0, right), (right, right + top), (right + top, right + top + left)]
}

/// The zone of LED `i` on a strip of `n` LEDs: right run first, then top,
/// everything else is left.
pub fn led_zone(i: usize, n: usize) -> (z: LedZone)
    requires
        n * 31 <= usize::MAX,
    ensures
        z == spec_led_zone(i as int, n as int),
{
    let b = segment_bounds(n);
    let (r0, r1) = b[0];
    let (t0, t1) = b[1];
    if i >= r0 && i < r1 {
        LedZone::Right
    } else if i >= t0 && i < t1 {
        LedZone::Top
    } else {
        LedZone::Left
    }
}

/// The three runs tile the strip: the first starts at 0, each starts where
/// the previous ends, the last ends at `n`, and none runs backwards.
pub proof fn lemma_segments_tile_strip(n: int)
    requires
        n >= 0,
    ensures
        spec_segment_bounds(n)[0].0 == 0,
        spec_segment_bounds(n)[0].1 == spec_segment_bounds(n)[1].0,
        spec_segment_bounds(n)[1].1 == spec_segment_bounds(n)[2].0,
        spec_segment_bounds(n)[2].1 == n,
        forall|k: int| 0 <= k < 3 ==> spec_segment_bounds(n)[k].0 <= spec_segment_bounds(n)[k].1,
{
    lemma_run_lengths(n);
}

/// Every LED of the strip lies in exactly one run, and `led_zone` names the
/// run it lies in.
pub proof fn lemma_led_zone_matches_bounds(i: int, n: int)
    requires
        0 <= i < n,
    ensures
        (spec_led_zone(i, n) == LedZone::Right) <==> (spec_segment_bounds(n)[0].0 <= i
            < spec_segment_bounds(n)[0].1),
        (spec_led_zone(i, n) == LedZone::Top) <==> (spec_segment_bounds(n)[1].0 <= i
            < spec_segment_bounds(n)[1].1),
        (spec_led_zone(i, n) == LedZone::Left) <==> (spec_segment_bounds(n)[2].0 <= i
            < spec_segment_bounds(n)[2].1),
{
    lemma_run_lengths(n);
}

/// On a strip of `65 k` LEDs the segments hold `17 k`, `31 k` and `17 k`
/// LEDs (right, top, left).
pub proof fn lemma_segments_scale(k: int)
    requires
        k >= 0,
    ensures
        spec_segment_bounds(65 * k) == seq![(0, 17 * k), (17 * k, 48 * k), (48 * k, 65 * k)],
{
    assert(65 * k * 17 / 65 == 17 * k) by (nonlinear_arith)
        requires k >= 0;
    assert(65 * k * 31 / 65 == 31 * k) by (nonlinear_arith)
        requires k >= 0;
    assert(spec_segment_bounds(65 * k) =~= seq![(0, 17 * k), (17 * k, 48 * k), (48 * k, 65 * k)]);
}

} // verus!
