//! Reading screen frames: pixel formats, strides and buffer sizes offered
//! to the capture stream, and the average colour of a rectangle of a packed
//! RGB-family frame.

use vstd::prelude::*;

verus! {

/// Video formats the capture stream may deliver.
#[derive(Debug, Clone, Copy, PartialEq, Eq, Structural)]
pub enum PixelFormat {
    Rgb,
    Bgr,
    Rgbx,
    Rgba,
    Bgrx,
    Bgra,
    Xrgb,
    Xbgr,
    Argb,
    Abgr,
    Nv12,
    Nv21,
    I420,
    /// Any other format; read like `BGRx`.
    Other,
}

/// Bytes per pixel of the (first plane of the) format.
pub open spec fn spec_bytes_per_pixel(f: PixelFormat) -> int {
    match f {
        PixelFormat::Rgb | PixelFormat::Bgr => 3,
        PixelFormat::Nv12 | PixelFormat::Nv21 | PixelFormat::I420 => 1,
        _ => 4,
    }
}

/// Bytes per pixel of the format.
pub fn bytes_per_pixel(f: PixelFormat) -> (r: u32)
    ensures
        r == spec_bytes_per_pixel(f),
{
    match f {
        PixelFormat::Rgb | PixelFormat::Bgr => 3,
        PixelFormat::Nv12 | PixelFormat::Nv21 | PixelFormat::I420 => 1,
        _ => 4,
    }
}

/// `v` clamped to the `i32` range.
pub open spec fn saturate_i32(v: int) -> int {
    if v > i32::MAX {
        i32::MAX as int
    } else if v < i32::MIN {
        i32::MIN as int
    } else {
        v
    }
}

fn saturating_mul_i32(a: i32, b: i32) -> (r: i32)
    ensures
        r == saturate_i32(a * b),
{
    proof {
        assert(-0x4000_0000_0000_0000 <= (a as int) * (b as int) <= 0x4000_0000_0000_0000) by (nonlinear_arith)
            requires i32::MIN <= a <= i32::MAX, i32::MIN <= b <= i32::MAX;
    }
    let p: i64 = (a as i64) * (b as i64);
    if p > i32::MAX as i64 {
        i32::MAX
    } else if p < i32::MIN as i64 {
        i32::MIN
    } else {
        p as i32
    }
}

/// Row stride in bytes for `width` pixels: the width (reinterpreted as
/// `i32`) times the bytes per pixel, saturated, and never below the width.
pub open spec fn spec_stride_for(f: PixelFormat, width: u32) -> int {
    let w = (width as i32) as int;
    let s = saturate_i32(w * spec_bytes_per_pixel(f));
    if s > w { s } else { w }
}

/// The stride asked of the stream for `width` pixels of format `f`.
pub fn stride_for(f: PixelFormat, width: u32) -> (r: i32)
    ensures
        r == spec_stride_for(f, width),
{
    let bpp = bytes_per_pixel(f) as i32;
    #[verifier::truncate]
    let w = width as i32;
    let s = saturating_mul_i32(w, bpp);
    if s > w { s } else { w }
}

/// Buffer size asked of the stream: stride times height (height
/// reinterpreted as `i32`), saturated, and never below one stride.
pub open spec fn spec_buffer_size(stride: i32, height: u32) -> int {
    let s = saturate_i32(stride * ((height as i32) as int));
    if s > stride { s } else { stride as int }
}

/// The buffer size for frames of `height` rows of `stride` bytes.
pub fn buffer_size(stride: i32, height: u32) -> (r: i32)
    ensures
        r == spec_buffer_size(stride, height),
{
    #[verifier::truncate]
    let h = height as i32;
    let s = saturating_mul_i32(stride, h);
    if s > stride { s } else { stride }
}

/// Where the first plane of a packed frame lies in its buffer: bytes
/// `start..end` with rows `stride` bytes apart, from the chunk's stride,
/// offset and size and the mapped length. The stride is the chunk's
/// stride's magnitude, but at least `width` pixels; the plane ends at the
/// chunk's end or the buffer's, whichever comes first; an empty plane is
/// `None`.
pub open spec fn spec_raw_plane(chunk_stride: i32, chunk_offset: u32, chunk_size: u32, data_len: int, width: u32, f: PixelFormat) -> Option<(int, int, int)> {
    let abs_stride: int = if chunk_stride < 0 { -chunk_stride } else { chunk_stride as int };
    let min_stride = width * spec_bytes_per_pixel(f);
    let stride = if abs_stride > min_stride { abs_stride } else { min_stride };
    let chunk_end = chunk_offset + chunk_size;
    let end = if chunk_end < data_len { chunk_end } else { data_len };
    if end <= chunk_offset {
        None
    } else {
        Some((chunk_offset as int, end, stride))
    }
}

/// The bounds `(start, end, stride)` of a frame's first plane; see
/// [`spec_raw_plane`].
pub fn raw_plane(chunk_stride: i32, chunk_offset: u32, chunk_size: u32, data_len: usize, width: u32, f: PixelFormat) -> (r: Option<(usize, usize, usize)>)
    requires
        width * spec_bytes_per_pixel(f) <= u32::MAX,
    ensures
        match r {
            Some((a, b, c)) => spec_raw_plane(chunk_stride, chunk_offset, chunk_size, data_len as int, width, f) == Some((a as int, b as int, c as int)),
            None => spec_raw_plane(chunk_stride, chunk_offset, chunk_size, data_len as int, width, f) is None,
        },
{
    let abs_stride: u32 = if chunk_stride < 0 {
        if chunk_stride == i32::MIN { 0x8000_0000u32 } else { (-chunk_stride) as u32 }
    } else {
        chunk_stride as u32
    };
    let min_stride: u32 = width * bytes_per_pixel(f);
    let stride: u32 = if abs_stride > min_stride { abs_stride } else { min_stride };
    let chunk_end: u64 = chunk_offset as u64 + chunk_size as u64;
    let end: u64 = if chunk_end < data_len as u64 { chunk_end } else { data_len as u64 };
    if end <= chunk_offset as u64 {
        None
    } else {
        Some((chunk_offset as usize, end as usize, stride as usize))
    }
}

/// How many bytes from a pixel's offset are read to decode it.
pub open spec fn read_width(f: PixelFormat) -> int {
    match f {
        PixelFormat::Xrgb | PixelFormat::Xbgr | PixelFormat::Argb | PixelFormat::Abgr => 4,
        _ => 3,
    }
}

/// Byte offsets (from the pixel's start) of the red, green and blue
/// channels.
pub open spec fn channel_offsets(f: PixelFormat) -> (int, int, int) {
    match f {
        PixelFormat::Rgb | PixelFormat::Rgbx | PixelFormat::Rgba => (0, 1, 2),
        PixelFormat::Xrgb | PixelFormat::Argb => (1, 2, 3),
        PixelFormat::Xbgr | PixelFormat::Abgr => (3, 2, 1),
        _ => (2, 1, 0),
    }
}

/// The colour of the pixel at `off`.
pub open spec fn spec_pixel(frame: Seq<u8>, off: int, f: PixelFormat) -> (u8, u8, u8) {
    let (r, g, b) = channel_offsets(f);
    (frame[off + r], frame[off + g], frame[off + b])
}

/// Decodes the pixel at byte `offset` of a packed frame.
pub fn read_pixel(frame: &[u8], offset: usize, f: PixelFormat) -> (p: [u8; 3])
    requires
        offset + read_width(f) <= frame@.len(),
    ensures
        p@ == seq![spec_pixel(frame@, offset as int, f).0, spec_pixel(frame@, offset as int, f).1, spec_pixel(frame@, offset as int, f).2],
{
    let len = frame.len();
    assert(offset + 3 <= len);
    let p = match f {
        PixelFormat::Rgb => [frame[offset], frame[offset + 1], frame[offset + 2]],
        PixelFormat::Rgbx => [frame[offset], frame[offset + 1], frame[offset + 2]],
        PixelFormat::Rgba => [frame[offset], frame[offset + 1], frame[offset + 2]],
        PixelFormat::Xrgb => [frame[offset + 1], frame[offset + 2], frame[offset + 3]],
        PixelFormat::Argb => [frame[offset + 1], frame[offset + 2], frame[offset + 3]],
        PixelFormat::Xbgr => [frame[offset + 3], frame[offset + 2], frame[offset + 1]],
        PixelFormat::Abgr => [frame[offset + 3], frame[offset + 2], frame[offset + 1]],
        _ => [frame[offset + 2], frame[offset + 1], frame[offset]],
    };
    assert(p@ =~= seq![spec_pixel(frame@, offset as int, f).0, spec_pixel(frame@, offset as int, f).1, spec_pixel(frame@, offset as int, f).2]);
    p
}

/// Sums of the red, green and blue channels and the pixel count.
pub struct ColorSum {
    pub r: int,
    pub g: int,
    pub b: int,
    pub n: int,
}

/// Adds the pixel at column `x` of row `y` to `s`, if it lies inside the
/// frame.
pub open spec fn add_pixel(frame: Seq<u8>, stride: int, f: PixelFormat, x: int, y: int, s: ColorSum) -> ColorSum {
    let off = y * stride + x * spec_bytes_per_pixel(f);
    if off + spec_bytes_per_pixel(f) <= frame.len() {
        let p = spec_pixel(frame, off, f);
        ColorSum { r: s.r + p.0, g: s.g + p.1, b: s.b + p.2, n: s.n + 1 }
    } else {
        s
    }
}

/// Sums over columns `x0..x` of row `y`, starting from `s`.
pub open spec fn row_sum(frame: Seq<u8>, stride: int, f: PixelFormat, y: int, x0: int, x: int, s: ColorSum) -> ColorSum
    decreases x - x0,
{
    if x <= x0 {
        s
    } else {
        add_pixel(frame, stride, f, x - 1, y, row_sum(frame, stride, f, y, x0, x - 1, s))
    }
}

/// Sums over rows `y0..y` and columns `x0..x1`.
pub open spec fn rect_sum(frame: Seq<u8>, stride: int, f: PixelFormat, x0: int, x1: int, y0: int, y: int) -> ColorSum
    decreases y - y0,
{
    if y <= y0 {
        ColorSum { r: 0, g: 0, b: 0, n: 0 }
    } else {
        row_sum(frame, stride, f, y - 1, x0, x1, rect_sum(frame, stride, f, x0, x1, y0, y - 1))
    }
}

/// The average colour of the in-frame pixels of the rectangle, black when
/// none lies inside the frame.
pub open spec fn spec_avg_rect(frame: Seq<u8>, stride: int, f: PixelFormat, x0: int, y0: int, x1: int, y1: int) -> Seq<u8> {
    let s = rect_sum(frame, stride, f, x0, x1, y0, y1);
    if s.n == 0 {
        seq![0u8, 0u8, 0u8]
    } else {
        seq![(s.r / s.n) as u8, (s.g / s.n) as u8, (s.b / s.n) as u8]
    }
}

/// The rectangle `[x0, x1) x [y0, y1)` can be summed without overflowing:
/// it starts at non-negative coordinates, its offsets fit in `usize`, and
/// 255 times its area fits in `u64`.
pub open spec fn rect_in_range(stride: usize, f: PixelFormat, x0: i32, y0: i32, x1: i32, y1: i32) -> bool {
    x0 < x1 && y0 < y1 ==> {
        &&& 0 <= x0
        &&& 0 <= y0
        &&& y1 * stride + x1 * spec_bytes_per_pixel(f) <= usize::MAX
        &&& (x1 - x0) * (y1 - y0) * 255 <= u64::MAX
    }
}

/// Whether [`avg_raw_rect`] can be asked for this rectangle; see
/// [`rect_in_range`].
pub fn rect_fits(stride: usize, f: PixelFormat, x0: i32, y0: i32, x1: i32, y1: i32) -> (r: bool)
    ensures
        r == rect_in_range(stride, f, x0, y0, x1, y1),
{
    if !(x0 < x1 && y0 < y1) {
        return true;
    }
    if x0 < 0 || y0 < 0 {
        return false;
    }
    let b32 = bytes_per_pixel(f);
    let bpp: u128 = b32 as u128;
    assert(bpp <= 4);
    proof {
        assert((x1 as int) * (bpp as int) <= 0x8000_0000 * 4) by (nonlinear_arith)
            requires 0 <= x1 <= 0x8000_0000, 0 <= bpp <= 4;
        assert((y1 as int) * (stride as int) <= 0x8000_0000 * 0x1_0000_0000_0000_0000int) by (nonlinear_arith)
            requires 0 <= y1 <= 0x8000_0000, 0 <= stride <= 0x1_0000_0000_0000_0000int;
        assert(((x1 - x0) as int) * ((y1 - y0) as int) <= 0x1_0000_0000int * 0x1_0000_0000int) by (nonlinear_arith)
            requires 0 < x1 - x0 <= 0x1_0000_0000int, 0 < y1 - y0 <= 0x1_0000_0000int;
    }
    let rows: u128 = (y1 as u128) * (stride as u128);
    let cols: u128 = (x1 as u128) * bpp;
    let reach: u128 = rows + cols;
    let cells: u128 = ((x1 - x0) as u128) * ((y1 - y0) as u128);
    let area: u128 = cells * 255;
    reach <= usize::MAX as u128 && area <= u64::MAX as u128
}

proof fn lemma_add_pixel_bounds(frame: Seq<u8>, stride: int, f: PixelFormat, x: int, y: int, s: ColorSum)
    ensures
        add_pixel(frame, stride, f, x, y, s).n == s.n || add_pixel(frame, stride, f, x, y, s).n == s.n + 1,
        s.r <= 255 * s.n ==> add_pixel(frame, stride, f, x, y, s).r <= 255 * add_pixel(frame, stride, f, x, y, s).n,
        s.g <= 255 * s.n ==> add_pixel(frame, stride, f, x, y, s).g <= 255 * add_pixel(frame, stride, f, x, y, s).n,
        s.b <= 255 * s.n ==> add_pixel(frame, stride, f, x, y, s).b <= 255 * add_pixel(frame, stride, f, x, y, s).n,
        0 <= s.r ==> 0 <= add_pixel(frame, stride, f, x, y, s).r,
        0 <= s.g ==> 0 <= add_pixel(frame, stride, f, x, y, s).g,
        0 <= s.b ==> 0 <= add_pixel(frame, stride, f, x, y, s).b,
{
}

/// The average colour of the rectangle `[x0, x1) x [y0, y1)` of a packed
/// frame whose rows are `stride` bytes apart; pixels that do not fit in the
/// frame are skipped.
pub fn avg_raw_rect(frame: &[u8], stride: usize, f: PixelFormat, x0: i32, y0: i32, x1: i32, y1: i32) -> (c: [u8; 3])
    requires
        read_width(f) <= spec_bytes_per_pixel(f),
        rect_in_range(stride, f, x0, y0, x1, y1),
    ensures
        c@ == spec_avg_rect(frame@, stride as int, f, x0 as int, y0 as int, x1 as int, y1 as int),
{
    let bpp = bytes_per_pixel(f) as usize;
    let ghost fr = frame@;
    let ghost w: int = x1 - x0;
    let mut r: u64 = 0;
    let mut g: u64 = 0;
    let mut b: u64 = 0;
    let mut n: u64 = 0;
    if x0 >= x1 || y0 >= y1 {
        proof {
            if y1 > y0 {
                lemma_empty_rows(fr, stride as int, f, x0 as int, x1 as int, y0 as int, y1 as int);
            }
        }
        let c = [0u8, 0u8, 0u8];
        assert(c@ =~= seq![0u8, 0u8, 0u8]);
        return c;
    }
    let mut y: i32 = y0;
    while y < y1
        invariant
            fr == frame@,
            bpp == spec_bytes_per_pixel(f),
            read_width(f) <= spec_bytes_per_pixel(f),
            x0 < x1,
            y0 < y1,
            w == x1 - x0,
            0 <= x0,
            0 <= y0,
            y1 * stride + x1 * spec_bytes_per_pixel(f) <= usize::MAX,
            w * (y1 - y0) * 255 <= u64::MAX,
            y0 <= y <= y1,
            rect_sum(fr, stride as int, f, x0 as int, x1 as int, y0 as int, y as int) == (ColorSum { r: r as int, g: g as int, b: b as int, n: n as int }),
            n <= (y - y0) * w,
            r <= 255 * n,
            g <= 255 * n,
            b <= 255 * n,
        decreases y1 - y,
    {
        let ghost row_start = ColorSum { r: r as int, g: g as int, b: b as int, n: n as int };
        let ghost n_row_start: int = n as int;
        proof {
            assert((y - y0 + 1) * w <= (y1 - y0) * w) by (nonlinear_arith)
                requires y - y0 + 1 <= y1 - y0, w >= 0;
            assert((y1 - y0) * w == w * (y1 - y0)) by (nonlinear_arith);
            assert((y - y0) * w + w == (y - y0 + 1) * w) by (nonlinear_arith);
        }
        let mut x: i32 = x0;
        while x < x1
            invariant
                fr == frame@,
                bpp == spec_bytes_per_pixel(f),
                read_width(f) <= spec_bytes_per_pixel(f),
                0 <= x0 <= x <= x1,
                0 <= y0 <= y < y1,
                w == x1 - x0,
                y1 * stride + x1 * spec_bytes_per_pixel(f) <= usize::MAX,
                (y - y0 + 1) * w * 255 <= u64::MAX,
                (y - y0) * w + w == (y - y0 + 1) * w,
                n_row_start <= (y - y0) * w,
                row_sum(fr, stride as int, f, y as int, x0 as int, x as int, row_start) == (ColorSum { r: r as int, g: g as int, b: b as int, n: n as int }),
                n <= n_row_start + (x - x0),
                r <= 255 * n,
                g <= 255 * n,
                b <= 255 * n,
            decreases x1 - x,
        {
            proof {
                assert(y * stride <= y1 * stride) by (nonlinear_arith)
                    requires 0 <= y < y1, stride >= 0;
                assert(x * bpp <= x1 * bpp) by (nonlinear_arith)
                    requires 0 <= x < x1, bpp >= 0;
                assert(x * bpp + bpp <= x1 * bpp) by (nonlinear_arith)
                    requires 0 <= x < x1, bpp >= 0;
                lemma_add_pixel_bounds(fr, stride as int, f, x as int, y as int, ColorSum { r: r as int, g: g as int, b: b as int, n: n as int });
            }
            let offset: usize = (y as usize) * stride + (x as usize) * bpp;
            if offset + bpp <= frame.len() {
                let px = read_pixel(frame, offset, f);
                r = r + px[0] as u64;
                g = g + px[1] as u64;
                b = b + px[2] as u64;
                n = n + 1;
            }
            x = x + 1;
        }
        y = y + 1;
    }
    if n == 0 {
        let c = [0u8, 0u8, 0u8];
        assert(c@ =~= seq![0u8, 0u8, 0u8]);
        c
    } else {
        proof {
            assert(r / n <= 255) by (nonlinear_arith)
                requires r <= 255 * n, n > 0;
            assert(g / n <= 255) by (nonlinear_arith)
                requires g <= 255 * n, n > 0;
            assert(b / n <= 255) by (nonlinear_arith)
                requires b <= 255 * n, n > 0;
        }
        let c = [(r / n) as u8, (g / n) as u8, (b / n) as u8];
        assert(c@ =~= seq![(r / n) as u8, (g / n) as u8, (b / n) as u8]);
        c
    }
}

proof fn lemma_empty_rows(frame: Seq<u8>, stride: int, f: PixelFormat, x0: int, x1: int, y0: int, y: int)
    requires
        x1 <= x0,
        y0 <= y,
    ensures
        rect_sum(frame, stride, f, x0, x1, y0, y) == (ColorSum { r: 0, g: 0, b: 0, n: 0 }),
    decreases y - y0,
{
    if y > y0 {
        lemma_empty_rows(frame, stride, f, x0, x1, y0, y - 1);
    }
}

/// Where each packed format keeps its colour: RGB, RGBx and RGBA have red,
/// green and blue at bytes 0, 1, 2 of the pixel; BGR, BGRx, BGRA (and
/// formats read like them) at 2, 1, 0; xRGB and ARGB at 1, 2, 3; xBGR and
/// ABGR at 3, 2, 1.
pub proof fn lemma_channel_bytes(frame: Seq<u8>, off: int)
    ensures
        spec_pixel(frame, off, PixelFormat::Rgb) == (frame[off], frame[off + 1], frame[off + 2]),
        spec_pixel(frame, off, PixelFormat::Rgbx) == (frame[off], frame[off + 1], frame[off + 2]),
        spec_pixel(frame, off, PixelFormat::Rgba) == (frame[off], frame[off + 1], frame[off + 2]),
        spec_pixel(frame, off, PixelFormat::Bgr) == (frame[off + 2], frame[off + 1], frame[off]),
        spec_pixel(frame, off, PixelFormat::Bgrx) == (frame[off + 2], frame[off + 1], frame[off]),
        spec_pixel(frame, off, PixelFormat::Bgra) == (frame[off + 2], frame[off + 1], frame[off]),
        spec_pixel(frame, off, PixelFormat::Other) == (frame[off + 2], frame[off + 1], frame[off]),
        spec_pixel(frame, off, PixelFormat::Xrgb) == (frame[off + 1], frame[off + 2], frame[off + 3]),
        spec_pixel(frame, off, PixelFormat::Argb) == (frame[off + 1], frame[off + 2], frame[off + 3]),
        spec_pixel(frame, off, PixelFormat::Xbgr) == (frame[off + 3], frame[off + 2], frame[off + 1]),
        spec_pixel(frame, off, PixelFormat::Abgr) == (frame[off + 3], frame[off + 2], frame[off + 1]),
        read_width(PixelFormat::Xrgb) == 4 && read_width(PixelFormat::Abgr) == 4 && read_width(PixelFormat::Rgba) == 3,
{
}

/// Pixel sizes: three bytes for RGB and BGR, four for the formats with an
/// extra byte, one for the planar YUV formats.
pub proof fn lemma_pixel_sizes()
    ensures
        spec_bytes_per_pixel(PixelFormat::Rgb) == 3 && spec_bytes_per_pixel(PixelFormat::Bgr) == 3,
        spec_bytes_per_pixel(PixelFormat::Rgbx) == 4 && spec_bytes_per_pixel(PixelFormat::Rgba) == 4,
        spec_bytes_per_pixel(PixelFormat::Bgrx) == 4 && spec_bytes_per_pixel(PixelFormat::Bgra) == 4,
        spec_bytes_per_pixel(PixelFormat::Xrgb) == 4 && spec_bytes_per_pixel(PixelFormat::Xbgr) == 4,
        spec_bytes_per_pixel(PixelFormat::Argb) == 4 && spec_bytes_per_pixel(PixelFormat::Abgr) == 4,
        spec_bytes_per_pixel(PixelFormat::Nv12) == 1 && spec_bytes_per_pixel(PixelFormat::Nv21) == 1
            && spec_bytes_per_pixel(PixelFormat::I420) == 1,
{
}

/// A plane, when there is one, lies inside the buffer and the chunk and is
/// not empty, and its rows are at least as long as the chunk says and at
/// least `width` pixels; there is none exactly when the chunk starts at or
/// after the end of its data.
pub proof fn lemma_raw_plane_bounds(chunk_stride: i32, chunk_offset: u32, chunk_size: u32, data_len: int, width: u32, f: PixelFormat)
    ensures
        spec_raw_plane(chunk_stride, chunk_offset, chunk_size, data_len, width, f) matches Some((a, b, st)) ==> {
            &&& a == chunk_offset
            &&& a < b
            &&& b <= data_len
            &&& b <= chunk_offset + chunk_size
            &&& (b == data_len || b == chunk_offset + chunk_size)
            &&& st >= width * spec_bytes_per_pixel(f)
            &&& st >= chunk_stride && st >= -chunk_stride
        },
        spec_raw_plane(chunk_stride, chunk_offset, chunk_size, data_len, width, f) is None <==> (data_len <= chunk_offset
            || chunk_size == 0),
{
}

/// When the product fits, a row of `width` pixels takes `width` times
/// the pixel size in bytes.
pub proof fn lemma_stride_exact(f: PixelFormat, width: u32)
    requires
        width <= i32::MAX,
        width * spec_bytes_per_pixel(f) <= i32::MAX,
    ensures
        spec_stride_for(f, width) == width * spec_bytes_per_pixel(f),
{
    assert((width as i32) as int == width);
}

/// The average of a one-pixel rectangle inside the frame is that pixel.
pub proof fn lemma_single_pixel_average(frame: Seq<u8>, stride: int, f: PixelFormat, x: int, y: int)
    requires
        0 <= x,
        0 <= y,
        0 <= stride,
        y * stride + x * spec_bytes_per_pixel(f) + spec_bytes_per_pixel(f) <= frame.len(),
    ensures
        ({
            let p = spec_pixel(frame, y * stride + x * spec_bytes_per_pixel(f), f);
            spec_avg_rect(frame, stride, f, x, y, x + 1, y + 1) == seq![p.0, p.1, p.2]
        }),
{
    let z = ColorSum { r: 0, g: 0, b: 0, n: 0 };
    assert(rect_sum(frame, stride, f, x, x + 1, y, y) == z);
    assert(row_sum(frame, stride, f, y, x, x, z) == z);
    let p = spec_pixel(frame, y * stride + x * spec_bytes_per_pixel(f), f);
    assert(rect_sum(frame, stride, f, x, x + 1, y, y + 1) == (ColorSum { r: p.0 as int, g: p.1 as int, b: p.2 as int, n: 1 }));
    assert(spec_avg_rect(frame, stride, f, x, y, x + 1, y + 1) =~= seq![p.0, p.1, p.2]);
}

} // verus!
