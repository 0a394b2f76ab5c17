//! The Skydimo serial frame: `Ada`, two zero bytes, the LED count, then the
//! RGB payload (three bytes per LED, no checksum).

use vstd::prelude::*;

verus! {

/// Why a frame could not be built.
#[derive(Debug, Clone, Copy, PartialEq, Eq, Structural)]
pub enum FrameError {
    /// The payload length is not three bytes per LED.
    PayloadLength { got: usize, expected: usize },
}

/// The six header bytes that open every frame for `led_count` LEDs.
pub open spec fn frame_header(led_count: u8) -> Seq<u8> {
    seq![0x41u8, 0x64u8, 0x61u8, 0x00u8, 0x00u8, led_count]
}

/// The whole frame for `led_count` LEDs and payload `rgb`.
pub open spec fn spec_frame(led_count: u8, rgb: Seq<u8>) -> Seq<u8> {
    frame_header(led_count) + rgb
}

/// Builds the frame for `led_count` LEDs around the payload `rgb`, which must
/// hold exactly three bytes per LED.
pub fn build_frame(led_count: u8, rgb: &[u8]) -> (r: Result<Vec<u8>, FrameError>)
    ensures
        rgb@.len() == 3 * led_count ==> (r matches Ok(f) && f@ == spec_frame(led_count, rgb@)),
        rgb@.len() != 3 * led_count ==> r == Err::<Vec<u8>, FrameError>(
            FrameError::PayloadLength { got: rgb@.len() as usize, expected: (3 * led_count) as usize },
        ),
{
    let expected: usize = (led_count as usize) * 3;
    if rgb.len() != expected {
        return Err(FrameError::PayloadLength { got: rgb.len(), expected });
    }
    let mut frame: Vec<u8> = Vec::with_capacity(6 + rgb.len());
    frame.push(0x41);
    frame.push(0x64);
    frame.push(0x61);
    frame.push(0x00);
    frame.push(0x00);
    frame.push(led_count);
    let mut i: usize = 0;
    while i < rgb.len()
        invariant
            i <= rgb@.len(),
            frame@ == frame_header(led_count) + rgb@.subrange(0, i as int),
        decreases rgb@.len() - i,
    {
        frame.push(rgb[i]);
        i += 1;
        assert(rgb@.subrange(0, i as int) == rgb@.subrange(0, i - 1) .push(rgb@[i - 1]));
    }
    assert(rgb@.subrange(0, rgb@.len() as int) == rgb@);
    Ok(frame)
}

/// The frame that turns all `led_count` LEDs off.
pub fn black_frame(led_count: u8) -> (f: Vec<u8>)
    ensures
        f@ == spec_frame(led_count, Seq::new(3 * led_count as nat, |i: int| 0u8)),
{
    let len: usize = (led_count as usize) * 3;
    let mut rgb: Vec<u8> = Vec::with_capacity(len);
    let mut i: usize = 0;
    while i < len
        invariant
            i <= len,
            len == 3 * led_count,
            rgb@ == Seq::new(i as nat, |k: int| 0u8),
        decreases len - i,
    {
        rgb.push(0);
        i += 1;
    }
    match build_frame(led_count, rgb.as_slice()) {
        Ok(f) => f,
        Err(_) => {
            assert(false);
            Vec::new()
        }
    }
}

/// Every frame starts with the bytes of `Ada`, two zero bytes and the LED
/// count, is six bytes longer than its payload, and gives the payload back
/// unchanged after those six bytes.
pub proof fn lemma_frame_layout(led_count: u8, rgb: Seq<u8>)
    ensures
        spec_frame(led_count, rgb).len() == 6 + rgb.len(),
        spec_frame(led_count, rgb).subrange(0, 3) == seq![0x41u8, 0x64u8, 0x61u8],
        spec_frame(led_count, rgb)[3] == 0u8,
        spec_frame(led_count, rgb)[4] == 0u8,
        spec_frame(led_count, rgb)[5] == led_count,
        spec_frame(led_count, rgb).skip(6) == rgb,
{
    assert(spec_frame(led_count, rgb).skip(6) =~= rgb);
    assert(spec_frame(led_count, rgb).subrange(0, 3) =~= seq![0x41u8, 0x64u8, 0x61u8]);
}

/// Two frames are equal exactly when their LED counts and payloads are:
/// nothing is lost in framing.
pub proof fn lemma_frame_injective(n1: u8, rgb1: Seq<u8>, n2: u8, rgb2: Seq<u8>)
    ensures
        spec_frame(n1, rgb1) == spec_frame(n2, rgb2) <==> (n1 == n2 && rgb1 == rgb2),
{
    if spec_frame(n1, rgb1) == spec_frame(n2, rgb2) {
        lemma_frame_layout(n1, rgb1);
        lemma_frame_layout(n2, rgb2);
    }
}

} // verus!
