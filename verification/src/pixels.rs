//! Pixel codecs: pure conversions between the little-endian source pixel
//! formats a libretro core emits (0RGB1555, RGB565, XRGB8888) and the
//! destination layouts the embedding asks for (RGB888, RGB332).

use vstd::prelude::*;

verus! {

/// Widen a 5-bit component to 8 bits by replicating its high bits into the
/// empty low bits.
pub open spec fn expand5(x: u8) -> u8 {
    (x << 3) | (x >> 2)
}

/// Widen a 6-bit component to 8 bits by replicating its high bits into the
/// empty low bits.
pub open spec fn expand6(x: u8) -> u8 {
    (x << 2) | (x >> 4)
}

/// The red component, before widening, of a 0RGB1555 pixel given its high byte.
pub open spec fn r5_of_555(hi: u8) -> u8 {
    (hi >> 2) & 0x1f
}

/// The green component, before widening, of a 0RGB1555 pixel.
pub open spec fn g5_of_555(lo: u8, hi: u8) -> u8 {
    ((hi & 3) << 3) | ((lo >> 5) & 7)
}

/// The blue component, before widening, of a 0RGB1555 or RGB565 pixel.
pub open spec fn b5_of(lo: u8) -> u8 {
    lo & 0x1f
}

/// The red component, before widening, of an RGB565 pixel given its high byte.
pub open spec fn r5_of_565(hi: u8) -> u8 {
    (hi >> 3) & 0x1f
}

/// The green component, before widening, of an RGB565 pixel (6 bits).
pub open spec fn g6_of_565(lo: u8, hi: u8) -> u8 {
    ((hi & 7) << 3) | ((lo >> 5) & 7)
}

/// Decode a 0RGB1555 pixel (low byte, then high byte) to 8-bit RGB.
pub fn argb555to888(lo: u8, hi: u8) -> (rgb: (u8, u8, u8))
    ensures
        rgb.0 == expand5(r5_of_555(hi)),
        rgb.1 == expand5(g5_of_555(lo, hi)),
        rgb.2 == expand5(b5_of(lo)),
{
    assert(((hi & 0b0000_0011) << 3) + ((lo & 0b1110_0000) >> 5) < 32) by (bit_vector);
    let r = (hi & 0b0111_1100) >> 2;
    let g = ((hi & 0b0000_0011) << 3) + ((lo & 0b1110_0000) >> 5);
    let b = lo & 0b0001_1111;
    assert(r == r5_of_555(hi) && g == g5_of_555(lo, hi) && b == b5_of(lo)) by (bit_vector)
        requires
            r == (hi & 0b0111_1100) >> 2,
            g == ((hi & 0b0000_0011) << 3) + ((lo & 0b1110_0000) >> 5),
            b == lo & 0b0001_1111,
    ;
    let r = (r << 3) | (r >> 2);
    let g = (g << 3) | (g >> 2);
    let b = (b << 3) | (b >> 2);
    (r, g, b)
}

/// Decode an RGB565 pixel (low byte, then high byte) to 8-bit RGB.
pub fn rgb565to888(lo: u8, hi: u8) -> (rgb: (u8, u8, u8))
    ensures
        rgb.0 == expand5(r5_of_565(hi)),
        rgb.1 == expand6(g6_of_565(lo, hi)),
        rgb.2 == expand5(b5_of(lo)),
{
    assert(((hi & 0b0000_0111) << 3) + ((lo & 0b1110_0000) >> 5) < 64) by (bit_vector);
    let r = (hi & 0b1111_1000) >> 3;
    let g = ((hi & 0b0000_0111) << 3) + ((lo & 0b1110_0000) >> 5);
    let b = lo & 0b0001_1111;
    assert(r == r5_of_565(hi) && g == g6_of_565(lo, hi) && b == b5_of(lo)) by (bit_vector)
        requires
            r == (hi & 0b1111_1000) >> 3,
            g == ((hi & 0b0000_0111) << 3) + ((lo & 0b1110_0000) >> 5),
            b == lo & 0b0001_1111,
    ;
    let r = (r << 3) | (r >> 2);
    let g = (g << 2) | (g >> 4);
    let b = (b << 3) | (b >> 2);
    (r, g, b)
}

/// The red or green field of an RGB332 byte, scaled to 8 bits as
/// `field * 255 / 8`.
pub open spec fn scale3to8(x: u8) -> u8
    recommends
        x <= 7,
{
    ((x * 255) / 8) as u8
}

/// The blue field of an RGB332 byte, scaled to 8 bits as `field * 255 / 4`.
pub open spec fn scale2to8(x: u8) -> u8
    recommends
        x <= 3,
{
    ((x * 255) / 4) as u8
}

/// Decode an RGB332 byte (3 bits red, 3 green, 2 blue) to 8-bit RGB.
pub fn rgb332_to_rgb888(col: u8) -> (rgb: (u8, u8, u8))
    ensures
        rgb.0 == scale3to8((col >> 5) & 7),
        rgb.1 == scale3to8((col >> 2) & 7),
        rgb.2 == scale2to8(col & 3),
{
    let x = (col >> 5) & 7;
    let y = (col >> 2) & 7;
    let z = col & 3;
    assert(x <= 7 && y <= 7 && z <= 3) by (bit_vector)
        requires
            x == (col >> 5) & 7,
            y == (col >> 2) & 7,
            z == col & 3,
    ;
    let r = ((x as u32) * 255) / 8;
    let g = ((y as u32) * 255) / 8;
    let b = ((z as u32) * 255) / 4;
    (r as u8, g as u8, b as u8)
}

/// What an 8-bit RGB triple packs to in RGB332: each component quantized to
/// its field width, red in the top three bits, green below it, blue at the
/// bottom.
pub open spec fn pack_rgb332(r: u8, g: u8, b: u8) -> u8 {
    ((r / 32) * 32 + (g / 32) * 4 + b / 64) as u8
}

/// Pack an 8-bit RGB triple into one RGB332 byte.
pub fn rgb888_to_rgb332(r: u8, g: u8, b: u8) -> (col: u8)
    ensures
        col == pack_rgb332(r, g, b),
{
    assert(((r as u32) * 8) / 256 == (r as u32) / 32 && ((g as u32) * 8) / 256 == (g as u32) / 32
        && ((b as u32) * 4) / 256 == (b as u32) / 64) by (bit_vector);
    let rq = ((u32::from(r) * 8) / 256) as u8;
    let gq = ((u32::from(g) * 8) / 256) as u8;
    let bq = ((u32::from(b) * 4) / 256) as u8;
    assert(rq <= 7 && gq <= 7 && bq <= 3);
    assert((rq << 5) == rq * 32 && (gq << 2) == gq * 4) by (bit_vector)
        requires
            rq <= 7 && gq <= 7,
    ;
    (rq << 5) + (gq << 2) + bq
}

/// Quantizing an 8-bit triple that sits exactly on RGB332 bucket boundaries
/// and widening it back lands within one bucket of where it started: the
/// decoded component never exceeds the original and falls short of it by at
/// most one.
pub proof fn lemma_rgb332_round_trip(r: u8, g: u8, b: u8)
    requires
        r <= 7,
        g <= 7,
        b <= 3,
    ensures
        ({
            let packed = pack_rgb332((r * 32) as u8, (g * 32) as u8, (b * 64) as u8);
            let rr = scale3to8((packed >> 5) & 7);
            let gg = scale3to8((packed >> 2) & 7);
            let bb = scale2to8(packed & 3);
            &&& rr <= r * 32 && r * 32 - rr <= 1
            &&& gg <= g * 32 && g * 32 - gg <= 1
            &&& bb <= b * 64 && b * 64 - bb <= 1
        }),
{
    assert(({
        let packed = pack_rgb332((r * 32) as u8, (g * 32) as u8, (b * 64) as u8);
        let rr = scale3to8((packed >> 5) & 7);
        let gg = scale3to8((packed >> 2) & 7);
        let bb = scale2to8(packed & 3);
        &&& rr <= r * 32 && r * 32 - rr <= 1
        &&& gg <= g * 32 && g * 32 - gg <= 1
        &&& bb <= b * 64 && b * 64 - bb <= 1
    })) by (bit_vector)
        requires
            r <= 7,
            g <= 7,
            b <= 3,
    ;
}

} // verus!
