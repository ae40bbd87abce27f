use retro_rs::pixels::argb555to888;
use retro_rs::pixels::rgb332_to_rgb888;
use retro_rs::pixels::rgb565to888;
use retro_rs::pixels::rgb888_to_rgb332;

#[test]
fn rgb1555_decode() {
    // lo = 0x1F, hi = 0x7C is the pixel 0x7C1F: red and blue fields full,
    // green field (bits 5..9) zero.
    assert_eq!(argb555to888(0x1F, 0x7C), (0xFF, 0x00, 0xFF));
    // Full white has every field full: pixel 0x7FFF.
    assert_eq!(argb555to888(0xFF, 0x7F), (0xFF, 0xFF, 0xFF));
    assert_eq!(argb555to888(0x00, 0x00), (0x00, 0x00, 0x00));
    // A lone green field: pixel 0x03E0.
    assert_eq!(argb555to888(0xE0, 0x03), (0x00, 0xFF, 0x00));
}

#[test]
fn rgb565_decode() {
    assert_eq!(rgb565to888(0x00, 0xF8), (0xFF, 0x00, 0x00));
    assert_eq!(rgb565to888(0xFF, 0xFF), (0xFF, 0xFF, 0xFF));
    // A lone green field: pixel 0x07E0 expands 6 bits to a full byte.
    assert_eq!(rgb565to888(0xE0, 0x07), (0x00, 0xFF, 0x00));
    assert_eq!(rgb565to888(0x1F, 0x00), (0x00, 0x00, 0xFF));
}

#[test]
fn rgb332_exact_values() {
    assert_eq!(rgb332_to_rgb888(0xFF), (223, 223, 191));
    assert_eq!(rgb332_to_rgb888(0x00), (0, 0, 0));
    // Red field 0b111, green 0b000, blue 0b11.
    assert_eq!(rgb332_to_rgb888(0b1110_0011), (223, 0, 191));
    assert_eq!(rgb888_to_rgb332(255, 255, 255), 0xFF);
    assert_eq!(rgb888_to_rgb332(0, 0, 0), 0x00);
    assert_eq!(rgb888_to_rgb332(224, 224, 192), 0xFF);
    assert_eq!(rgb888_to_rgb332(32, 64, 128), (1 << 5) + (2 << 2) + 2);
}

#[test]
fn rgb332_round_trip_within_one_bucket() {
    for r in 0u32..8 {
        for g in 0u32..8 {
            for b in 0u32..4 {
                let packed = rgb888_to_rgb332((r * 32) as u8, (g * 32) as u8, (b * 64) as u8);
                let (rr, gg, bb) = rgb332_to_rgb888(packed);
                let (rr, gg, bb) = (u32::from(rr), u32::from(gg), u32::from(bb));
                assert!(rr <= r * 32 && r * 32 - rr <= 1);
                assert!(gg <= g * 32 && g * 32 - gg <= 1);
                assert!(bb <= b * 64 && b * 64 - bb <= 1);
                // And quantizing again lands in a bucket within one of the start.
                let again = rgb888_to_rgb332(rr as u8, gg as u8, bb as u8);
                let (r2, g2, b2) = (u32::from(again) >> 5, (u32::from(again) >> 2) & 7, u32::from(again) & 3);
                assert!(r.abs_diff(r2) <= 1 && g.abs_diff(g2) <= 1 && b.abs_diff(b2) <= 1);
            }
        }
    }
}
