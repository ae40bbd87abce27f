//! Decoding the core's framebuffer. A frame arrives as raw bytes in one of
//! three source formats; these routines convert it into the destination
//! layouts the embedding asks for. Every conversion walks the source and the
//! destination in lockstep and stops at whichever runs out first, exactly as
//! many pixels as both can hold.

use vstd::prelude::*;

use crate::pixels::argb555to888;
use crate::pixels::b5_of;
use crate::pixels::expand5;
use crate::pixels::expand6;
use crate::pixels::g5_of_555;
use crate::pixels::g6_of_565;
use crate::pixels::pack_rgb332;
use crate::pixels::r5_of_555;
use crate::pixels::r5_of_565;
use crate::pixels::rgb565to888;
use crate::pixels::rgb888_to_rgb332;

verus! {

/// The source pixel format of the core's frames, as negotiated through the
/// pixel-format environment command. `Unknown` stands for every format word
/// this frontend does not support.
#[derive(Clone, Copy, Debug, PartialEq, Eq, Structural, Hash)]
pub enum PixelFormat {
    ZeroRGB1555,
    XRGB8888,
    RGB565,
    Unknown,
}

impl PixelFormat {
    /// Bytes per source pixel: two for the 16-bit formats, four for XRGB8888.
    pub open spec fn bytes_per_pixel_spec(self) -> usize {
        match self {
            PixelFormat::ZeroRGB1555 => 2,
            PixelFormat::XRGB8888 => 4,
            PixelFormat::RGB565 => 2,
            PixelFormat::Unknown => 0,
        }
    }

    /// Bit depth of the format, as the pixel-format command reports it.
    pub open spec fn bit_depth_spec(self) -> usize {
        match self {
            PixelFormat::ZeroRGB1555 => 15,
            PixelFormat::XRGB8888 => 32,
            PixelFormat::RGB565 => 16,
            PixelFormat::Unknown => 0,
        }
    }

    /// The format a libretro pixel-format word stands for.
    pub open spec fn from_raw_spec(v: u32) -> PixelFormat {
        if v == 0 {
            PixelFormat::ZeroRGB1555
        } else if v == 1 {
            PixelFormat::XRGB8888
        } else if v == 2 {
            PixelFormat::RGB565
        } else {
            PixelFormat::Unknown
        }
    }

    pub fn from_raw(v: u32) -> (r: PixelFormat)
        ensures
            r == PixelFormat::from_raw_spec(v),
    {
        if v == 0 {
            PixelFormat::ZeroRGB1555
        } else if v == 1 {
            PixelFormat::XRGB8888
        } else if v == 2 {
            PixelFormat::RGB565
        } else {
            PixelFormat::Unknown
        }
    }

    pub fn bytes_per_pixel(self) -> (r: usize)
        ensures
            r == self.bytes_per_pixel_spec(),
    {
        match self {
            PixelFormat::ZeroRGB1555 => 2,
            PixelFormat::XRGB8888 => 4,
            PixelFormat::RGB565 => 2,
            PixelFormat::Unknown => 0,
        }
    }

    pub fn bit_depth(self) -> (r: usize)
        ensures
            r == self.bit_depth_spec(),
    {
        match self {
            PixelFormat::ZeroRGB1555 => 15,
            PixelFormat::XRGB8888 => 32,
            PixelFormat::RGB565 => 16,
            PixelFormat::Unknown => 0,
        }
    }
}

/// The alpha byte of a 0RGB1555 pixel: bit 7 of the high byte, expanded to
/// 0x00 or 0xFF.
pub open spec fn alpha_of_555(hi: u8) -> u8 {
    ((hi >> 7) * 255) as u8
}

/// Pixel `i` of a raw frame, decoded to four 8-bit channels (red, green,
/// blue, alpha). The 16-bit formats are little-endian: low byte first. Only
/// 0RGB1555 carries an alpha bit; the XRGB8888 high byte is discarded and
/// forced opaque, and RGB565 is always opaque.
pub open spec fn decoded_rgba(fb: Seq<u8>, fmt: PixelFormat, i: int) -> (u8, u8, u8, u8)
    recommends
        0 <= i,
        (i + 1) * fmt.bytes_per_pixel_spec() <= fb.len(),
{
    match fmt {
        PixelFormat::ZeroRGB1555 => {
            let lo = fb[2 * i];
            let hi = fb[2 * i + 1];
            (expand5(r5_of_555(hi)), expand5(g5_of_555(lo, hi)), expand5(b5_of(lo)), alpha_of_555(
                hi,
            ))
        },
        PixelFormat::RGB565 => {
            let lo = fb[2 * i];
            let hi = fb[2 * i + 1];
            (expand5(r5_of_565(hi)), expand6(g6_of_565(lo, hi)), expand5(b5_of(lo)), 255u8)
        },
        PixelFormat::XRGB8888 => (fb[4 * i + 1], fb[4 * i + 2], fb[4 * i + 3], 255u8),
        PixelFormat::Unknown => (0u8, 0u8, 0u8, 0u8),
    }
}

/// Decode pixel `i` of a raw frame into (red, green, blue, alpha).
pub fn decode_pixel(fb: &[u8], fmt: PixelFormat, i: usize) -> (p: (u8, u8, u8, u8))
    requires
        fmt != PixelFormat::Unknown,
        (i + 1) * fmt.bytes_per_pixel_spec() <= fb@.len(),
    ensures
        p == decoded_rgba(fb@, fmt, i as int),
{
    let _total = fb.len();
    match fmt {
        PixelFormat::ZeroRGB1555 => {
            assert((i + 1) * fmt.bytes_per_pixel_spec() == (i + 1) * 2);
            let lo = fb[2 * i];
            let hi = fb[2 * i + 1];
            let (r, g, b) = argb555to888(lo, hi);
            assert(hi >> 7 <= 1) by (bit_vector);
            let a = (hi >> 7) * 255;
            (r, g, b, a)
        },
        PixelFormat::RGB565 => {
            assert((i + 1) * fmt.bytes_per_pixel_spec() == (i + 1) * 2);
            let lo = fb[2 * i];
            let hi = fb[2 * i + 1];
            let (r, g, b) = rgb565to888(lo, hi);
            (r, g, b, 255)
        },
        PixelFormat::XRGB8888 => {
            assert((i + 1) * fmt.bytes_per_pixel_spec() == (i + 1) * 4);
            (fb[4 * i + 1], fb[4 * i + 2], fb[4 * i + 3], 255)
        },
        PixelFormat::Unknown => (0, 0, 0, 0),
    }
}

/// How many pixels a conversion writes: the source and the destination are
/// walked in lockstep, so it is the smaller of the two whole-pixel counts.
pub open spec fn converted_count(fb_len: int, fmt: PixelFormat, dst_len: int, out_bpp: int) -> int {
    let n_src = fb_len / fmt.bytes_per_pixel_spec() as int;
    let n_dst = dst_len / out_bpp;
    if n_src < n_dst {
        n_src
    } else {
        n_dst
    }
}

/// A packed 32-bit word with alpha in the top byte, then red, green, blue.
pub open spec fn argb32_word(p: (u8, u8, u8, u8)) -> u32 {
    (p.3 * 0x100_0000 + p.0 * 0x1_0000 + p.1 * 0x100 + p.2) as u32
}

/// A packed 32-bit word with red in the top byte, then green, blue, alpha.
pub open spec fn rgba32_word(p: (u8, u8, u8, u8)) -> u32 {
    (p.0 * 0x100_0000 + p.1 * 0x1_0000 + p.2 * 0x100 + p.3) as u32
}

fn pack_argb32(p: (u8, u8, u8, u8)) -> (w: u32)
    ensures
        w == argb32_word(p),
{
    let (r, g, b, a) = p;
    let w = ((a as u32) << 24) | ((r as u32) << 16) | ((g as u32) << 8) | (b as u32);
    assert(w == (a as u32) * 0x100_0000 + (r as u32) * 0x1_0000 + (g as u32) * 0x100 + (b as u32))
        by (bit_vector)
        requires
            w == ((a as u32) << 24) | ((r as u32) << 16) | ((g as u32) << 8) | (b as u32),
            a < 256 && r < 256 && g < 256 && b < 256,
    ;
    w
}

fn pack_rgba32(p: (u8, u8, u8, u8)) -> (w: u32)
    ensures
        w == rgba32_word(p),
{
    let (r, g, b, a) = p;
    let w = ((r as u32) << 24) | ((g as u32) << 16) | ((b as u32) << 8) | (a as u32);
    assert(w == (r as u32) * 0x100_0000 + (g as u32) * 0x1_0000 + (b as u32) * 0x100 + (a as u32))
        by (bit_vector)
        requires
            w == ((r as u32) << 24) | ((g as u32) << 16) | ((b as u32) << 8) | (a as u32),
            a < 256 && r < 256 && g < 256 && b < 256,
    ;
    w
}

/// `(i + 1) * bpp <= len` for every pixel the conversion touches: the whole
/// pixel lies inside the source.
proof fn lemma_pixel_in_source(fb_len: int, fmt: PixelFormat, i: int)
    requires
        fmt != PixelFormat::Unknown,
        0 <= i,
        i < fb_len / fmt.bytes_per_pixel_spec() as int,
    ensures
        (i + 1) * fmt.bytes_per_pixel_spec() <= fb_len,
{
    let b = fmt.bytes_per_pixel_spec() as int;
    if b == 2 {
        assert((i + 1) * 2 <= (fb_len / 2) * 2 <= fb_len);
    } else {
        assert((i + 1) * 4 <= (fb_len / 4) * 4 <= fb_len);
    }
}

/// The destination holds `out_bpp` bytes (or words) for each converted pixel.
proof fn lemma_pixel_in_dest(dst_len: int, out_bpp: int, n: int, i: int)
    requires
        1 <= out_bpp <= 4,
        0 <= i < n,
        n <= dst_len / out_bpp,
    ensures
        (i + 1) * out_bpp <= dst_len,
{
    if out_bpp == 1 {
        assert((i + 1) * 1 <= (dst_len / 1) * 1 <= dst_len);
    } else if out_bpp == 2 {
        assert((i + 1) * 2 <= (dst_len / 2) * 2 <= dst_len);
    } else if out_bpp == 3 {
        assert((i + 1) * 3 <= (dst_len / 3) * 3 <= dst_len);
    } else {
        assert((i + 1) * 4 <= (dst_len / 4) * 4 <= dst_len);
    }
}

/// Convert the frame into three bytes per pixel: red, green, blue.
pub fn copy_framebuffer_rgb888(fb: &[u8], fmt: PixelFormat, dst: &mut [u8])
    requires
        fmt != PixelFormat::Unknown,
    ensures
        final(dst)@.len() == old(dst)@.len(),
        forall|j: int|
            0 <= j < converted_count(fb@.len() as int, fmt, old(dst)@.len() as int, 3) ==> {
                let p = #[trigger] decoded_rgba(fb@, fmt, j);
                &&& final(dst)@[3 * j] == p.0
                &&& final(dst)@[3 * j + 1] == p.1
                &&& final(dst)@[3 * j + 2] == p.2
            },
        forall|k: int|
            converted_count(fb@.len() as int, fmt, old(dst)@.len() as int, 3) * 3 <= k
                < final(dst)@.len() ==> final(dst)@[k] == old(dst)@[k],
{
    let ghost n_spec = converted_count(fb@.len() as int, fmt, dst@.len() as int, 3);
    let bpp = fmt.bytes_per_pixel();
    let n_src = fb.len() / bpp;
    let dst_len = dst.len();
    let n_dst = dst_len / 3;
    let n = if n_src < n_dst {
        n_src
    } else {
        n_dst
    };
    let mut i: usize = 0;
    while i < n
        invariant
            fmt != PixelFormat::Unknown,
            bpp == fmt.bytes_per_pixel_spec(),
            n == n_spec,
            n_spec == converted_count(fb@.len() as int, fmt, old(dst)@.len() as int, 3),
            n <= fb@.len() as int / bpp as int,
            n <= old(dst)@.len() as int / 3,
            dst@.len() == old(dst)@.len(),
            dst_len == old(dst)@.len(),
            i <= n,
            forall|j: int|
                0 <= j < i ==> {
                    let p = #[trigger] decoded_rgba(fb@, fmt, j);
                    &&& dst@[3 * j] == p.0
                    &&& dst@[3 * j + 1] == p.1
                    &&& dst@[3 * j + 2] == p.2
                },
            forall|k: int| 3 * (i as int) <= k < dst@.len() ==> dst@[k] == old(dst)@[k],
        decreases n - i,
    {
        proof {
            lemma_pixel_in_source(fb@.len() as int, fmt, i as int);
            lemma_pixel_in_dest(dst@.len() as int, 3, n as int, i as int);
        }
        let p = decode_pixel(fb, fmt, i);
        dst[3 * i] = p.0;
        dst[3 * i + 1] = p.1;
        dst[3 * i + 2] = p.2;
        i += 1;
    }
}

/// Convert the frame into four bytes per pixel: red, green, blue, alpha.
pub fn copy_framebuffer_rgba8888(fb: &[u8], fmt: PixelFormat, dst: &mut [u8])
    requires
        fmt != PixelFormat::Unknown,
    ensures
        final(dst)@.len() == old(dst)@.len(),
        forall|j: int|
            0 <= j < converted_count(fb@.len() as int, fmt, old(dst)@.len() as int, 4) ==> {
                let p = #[trigger] decoded_rgba(fb@, fmt, j);
                &&& final(dst)@[4 * j] == p.0
                &&& final(dst)@[4 * j + 1] == p.1
                &&& final(dst)@[4 * j + 2] == p.2
                &&& final(dst)@[4 * j + 3] == p.3
            },
        forall|k: int|
            converted_count(fb@.len() as int, fmt, old(dst)@.len() as int, 4) * 4 <= k
                < final(dst)@.len() ==> final(dst)@[k] == old(dst)@[k],
{
    let ghost n_spec = converted_count(fb@.len() as int, fmt, dst@.len() as int, 4);
    let bpp = fmt.bytes_per_pixel();
    let n_src = fb.len() / bpp;
    let dst_len = dst.len();
    let n_dst = dst_len / 4;
    let n = if n_src < n_dst {
        n_src
    } else {
        n_dst
    };
    let mut i: usize = 0;
    while i < n
        invariant
            fmt != PixelFormat::Unknown,
            bpp == fmt.bytes_per_pixel_spec(),
            n == n_spec,
            n_spec == converted_count(fb@.len() as int, fmt, old(dst)@.len() as int, 4),
            n <= fb@.len() as int / bpp as int,
            n <= old(dst)@.len() as int / 4,
            dst@.len() == old(dst)@.len(),
            dst_len == old(dst)@.len(),
            i <= n,
            forall|j: int|
                0 <= j < i ==> {
                    let p = #[trigger] decoded_rgba(fb@, fmt, j);
                    &&& dst@[4 * j] == p.0
                    &&& dst@[4 * j + 1] == p.1
                    &&& dst@[4 * j + 2] == p.2
                    &&& dst@[4 * j + 3] == p.3
                },
            forall|k: int| 4 * (i as int) <= k < dst@.len() ==> dst@[k] == old(dst)@[k],
        decreases n - i,
    {
        proof {
            lemma_pixel_in_source(fb@.len() as int, fmt, i as int);
            lemma_pixel_in_dest(dst@.len() as int, 4, n as int, i as int);
        }
        let p = decode_pixel(fb, fmt, i);
        dst[4 * i] = p.0;
        dst[4 * i + 1] = p.1;
        dst[4 * i + 2] = p.2;
        dst[4 * i + 3] = p.3;
        i += 1;
    }
}

/// Convert the frame into one RGB332 byte per pixel.
pub fn copy_framebuffer_rgb332(fb: &[u8], fmt: PixelFormat, dst: &mut [u8])
    requires
        fmt != PixelFormat::Unknown,
    ensures
        final(dst)@.len() == old(dst)@.len(),
        forall|j: int|
            0 <= j < converted_count(fb@.len() as int, fmt, old(dst)@.len() as int, 1) ==> {
                let p = #[trigger] decoded_rgba(fb@, fmt, j);
                final(dst)@[j] == pack_rgb332(p.0, p.1, p.2)
            },
        forall|k: int|
            converted_count(fb@.len() as int, fmt, old(dst)@.len() as int, 1) <= k
                < final(dst)@.len() ==> final(dst)@[k] == old(dst)@[k],
{
    let ghost n_spec = converted_count(fb@.len() as int, fmt, dst@.len() as int, 1);
    let bpp = fmt.bytes_per_pixel();
    let n_src = fb.len() / bpp;
    let dst_len = dst.len();
    let n_dst = dst_len;
    let n = if n_src < n_dst {
        n_src
    } else {
        n_dst
    };
    let mut i: usize = 0;
    while i < n
        invariant
            fmt != PixelFormat::Unknown,
            bpp == fmt.bytes_per_pixel_spec(),
            n == n_spec,
            n_spec == converted_count(fb@.len() as int, fmt, old(dst)@.len() as int, 1),
            n <= fb@.len() as int / bpp as int,
            n <= old(dst)@.len(),
            dst@.len() == old(dst)@.len(),
            dst_len == old(dst)@.len(),
            i <= n,
            forall|j: int|
                0 <= j < i ==> {
                    let p = #[trigger] decoded_rgba(fb@, fmt, j);
                    dst@[j] == pack_rgb332(p.0, p.1, p.2)
                },
            forall|k: int| i as int <= k < dst@.len() ==> dst@[k] == old(dst)@[k],
        decreases n - i,
    {
        proof {
            lemma_pixel_in_source(fb@.len() as int, fmt, i as int);
        }
        let p = decode_pixel(fb, fmt, i);
        dst[i] = rgb888_to_rgb332(p.0, p.1, p.2);
        i += 1;
    }
}

/// Convert the frame into packed 32-bit words with alpha in the high byte.
pub fn copy_framebuffer_argb32(fb: &[u8], fmt: PixelFormat, dst: &mut [u32])
    requires
        fmt != PixelFormat::Unknown,
    ensures
        final(dst)@.len() == old(dst)@.len(),
        forall|j: int|
            0 <= j < converted_count(fb@.len() as int, fmt, old(dst)@.len() as int, 1) ==> {
                let p = #[trigger] decoded_rgba(fb@, fmt, j);
                final(dst)@[j] == argb32_word(p)
            },
        forall|k: int|
            converted_count(fb@.len() as int, fmt, old(dst)@.len() as int, 1) <= k
                < final(dst)@.len() ==> final(dst)@[k] == old(dst)@[k],
{
    let ghost n_spec = converted_count(fb@.len() as int, fmt, dst@.len() as int, 1);
    let bpp = fmt.bytes_per_pixel();
    let n_src = fb.len() / bpp;
    let dst_len = dst.len();
    let n_dst = dst_len;
    let n = if n_src < n_dst {
        n_src
    } else {
        n_dst
    };
    let mut i: usize = 0;
    while i < n
        invariant
            fmt != PixelFormat::Unknown,
            bpp == fmt.bytes_per_pixel_spec(),
            n == n_spec,
            n_spec == converted_count(fb@.len() as int, fmt, old(dst)@.len() as int, 1),
            n <= fb@.len() as int / bpp as int,
            n <= old(dst)@.len(),
            dst@.len() == old(dst)@.len(),
            dst_len == old(dst)@.len(),
            i <= n,
            forall|j: int|
                0 <= j < i ==> {
                    let p = #[trigger] decoded_rgba(fb@, fmt, j);
                    dst@[j] == argb32_word(p)
                },
            forall|k: int| i as int <= k < dst@.len() ==> dst@[k] == old(dst)@[k],
        decreases n - i,
    {
        proof {
            lemma_pixel_in_source(fb@.len() as int, fmt, i as int);
        }
        let p = decode_pixel(fb, fmt, i);
        dst[i] = pack_argb32(p);
        i += 1;
    }
}

/// Convert the frame into packed 32-bit words with red in the high byte.
pub fn copy_framebuffer_rgba32(fb: &[u8], fmt: PixelFormat, dst: &mut [u32])
    requires
        fmt != PixelFormat::Unknown,
    ensures
        final(dst)@.len() == old(dst)@.len(),
        forall|j: int|
            0 <= j < converted_count(fb@.len() as int, fmt, old(dst)@.len() as int, 1) ==> {
                let p = #[trigger] decoded_rgba(fb@, fmt, j);
                final(dst)@[j] == rgba32_word(p)
            },
        forall|k: int|
            converted_count(fb@.len() as int, fmt, old(dst)@.len() as int, 1) <= k
                < final(dst)@.len() ==> final(dst)@[k] == old(dst)@[k],
{
    let ghost n_spec = converted_count(fb@.len() as int, fmt, dst@.len() as int, 1);
    let bpp = fmt.bytes_per_pixel();
    let n_src = fb.len() / bpp;
    let dst_len = dst.len();
    let n_dst = dst_len;
    let n = if n_src < n_dst {
        n_src
    } else {
        n_dst
    };
    let mut i: usize = 0;
    while i < n
        invariant
            fmt != PixelFormat::Unknown,
            bpp == fmt.bytes_per_pixel_spec(),
            n == n_spec,
            n_spec == converted_count(fb@.len() as int, fmt, old(dst)@.len() as int, 1),
            n <= fb@.len() as int / bpp as int,
            n <= old(dst)@.len(),
            dst@.len() == old(dst)@.len(),
            dst_len == old(dst)@.len(),
            i <= n,
            forall|j: int|
                0 <= j < i ==> {
                    let p = #[trigger] decoded_rgba(fb@, fmt, j);
                    dst@[j] == rgba32_word(p)
                },
            forall|k: int| i as int <= k < dst@.len() ==> dst@[k] == old(dst)@[k],
        decreases n - i,
    {
        proof {
            lemma_pixel_in_source(fb@.len() as int, fmt, i as int);
        }
        let p = decode_pixel(fb, fmt, i);
        dst[i] = pack_rgba32(p);
        i += 1;
    }
}

/// The red, green and blue of the pixel at column `x`, row `y` of a frame
/// whose rows are `w` pixels wide and packed without padding.
pub fn get_pixel(fb: &[u8], fmt: PixelFormat, w: usize, x: usize, y: usize) -> (p: (u8, u8, u8))
    requires
        fmt != PixelFormat::Unknown,
        x < w,
        (y * w + x + 1) * fmt.bytes_per_pixel_spec() <= fb@.len(),
    ensures
        ({
            let d = decoded_rgba(fb@, fmt, y * w + x);
            p == (d.0, d.1, d.2)
        }),
{
    let total = fb.len();
    proof {
        let b = fmt.bytes_per_pixel_spec() as int;
        assert(b >= 2);
        assert(y * w + x + 1 <= (y * w + x + 1) * b) by (nonlinear_arith)
            requires
                y * w + x + 1 >= 1,
                b >= 1,
        ;
        assert(y * w + x + 1 <= total);
    }
    let i = y * w + x;
    let p = decode_pixel(fb, fmt, i);
    (p.0, p.1, p.2)
}

/// The arguments `for_each_pixel` hands to its visitor at column `x`, row
/// `y`: the coordinates and the decoded red, green and blue of that pixel.
pub open spec fn visited_pixel(fb: Seq<u8>, fmt: PixelFormat, w: usize, x: usize, y: usize) -> (
    usize,
    usize,
    u8,
    u8,
    u8,
) {
    let d = decoded_rgba(fb, fmt, y * w + x);
    (x, y, d.0, d.1, d.2)
}

/// Call `f` once for every pixel of the frame, in row-major order: column,
/// row, red, green, blue — each call carrying exactly the decoded values of
/// its pixel, as `visited_pixel` states them, so `f` may demand them. The
/// frame must hold exactly `w * h` packed pixels; the traversal is proved to
/// visit each of them exactly once.
pub fn for_each_pixel<F: FnMut(usize, usize, u8, u8, u8)>(
    fb: &[u8],
    w: usize,
    h: usize,
    fmt: PixelFormat,
    f: F,
)
    requires
        fmt != PixelFormat::Unknown,
        fb@.len() == w * h * fmt.bytes_per_pixel_spec(),
        w == 0 ==> h == 0,
        forall|x: usize, y: usize|
            x < w && y < h ==> call_requires(f, #[trigger] visited_pixel(fb@, fmt, w, x, y)),
{
    let mut f = f;
    let total = fb.len();
    let bpp = fmt.bytes_per_pixel();
    proof {
        assert(w * h <= w * h * bpp) by (nonlinear_arith)
            requires
                bpp >= 1,
                w >= 0 && h >= 0,
        ;
        assert(w * h <= total);
        assert(w * h > 0 ==> (w > 0 && h > 0)) by (nonlinear_arith);
        assert(w * h == 0 && w == 0 ==> h == 0);
        assert(w * h == 0 && w != 0 ==> h == 0) by (nonlinear_arith);
    }
    let n = w * h;
    let mut x: usize = 0;
    let mut y: usize = 0;
    let mut i: usize = 0;
    while i < n
        invariant
            fmt != PixelFormat::Unknown,
            bpp == fmt.bytes_per_pixel_spec(),
            fb@.len() == w * h * bpp,
            n == w * h,
            w == 0 ==> h == 0,
            i <= n,
            i == y * w + x,
            x < w || (x == 0 && w == 0),
            i < n ==> y < h,
            i == n ==> x == 0 && y == h,
            forall|xq: usize, yq: usize|
                xq < w && yq < h ==> call_requires(f, #[trigger] visited_pixel(fb@, fmt, w, xq, yq)),
        decreases n - i,
    {
        proof {
            assert(w > 0 && h > 0) by (nonlinear_arith)
                requires
                    0 <= i < n,
                    n == w * h,
            ;
            assert((i + 1) * bpp <= n * bpp && n * bpp == w * h * bpp) by (nonlinear_arith)
                requires
                    0 <= i + 1 <= n,
                    bpp >= 0,
                    n == w * h,
            ;
        }
        let p = decode_pixel(fb, fmt, i);
        proof {
            assert(call_requires(f, visited_pixel(fb@, fmt, w, x, y)));
            assert(visited_pixel(fb@, fmt, w, x, y) == (x, y, p.0, p.1, p.2));
        }
        f(x, y, p.0, p.1, p.2);
        x = x + 1;
        i = i + 1;
        if x >= w {
            y = y + 1;
            x = 0;
            proof {
                assert(i == y * w) by (nonlinear_arith)
                    requires
                        i == (y - 1) * w + w,
                ;
            }
        }
        proof {
            if i < n {
                assert(y < h) by (nonlinear_arith)
                    requires
                        i == y * w + x,
                        0 <= i < n,
                        n == w * h,
                        0 <= x,
                        0 <= y,
                        0 < w,
                ;
            }
            if i == n {
                assert(x == 0 && y == h) by (nonlinear_arith)
                    requires
                        i == y * w + x,
                        i == n,
                        n == w * h,
                        0 <= x < w,
                        0 <= y,
                ;
            }
        }
    }
    assert(x == 0);
    assert(y == h);
}

} // verus!
