use retro_rs::Buttons;
use retro_rs::FrontendState;
use retro_rs::MemoryDescriptor;
use retro_rs::PixelFormat;
use retro_rs::framebuffer::copy_framebuffer_rgb888;
use retro_rs::state::serialize_buffer_ok;

#[test]
fn audio_accumulates_across_callbacks() {
    let mut s = FrontendState::new();
    s.begin_frame([Buttons::new(), Buttons::new()]);
    s.push_audio_sample(1, -1);
    s.push_audio_batch(&[2, -2, 3, -3]);
    s.push_audio_sample(4, -4);
    // Four stereo frames emitted: eight buffered values, in arrival order.
    assert_eq!(s.audio_sample, vec![1, -1, 2, -2, 3, -3, 4, -4]);
    // The next frame starts from an empty buffer.
    s.begin_frame([Buttons::new(), Buttons::new()]);
    assert_eq!(s.audio_sample.len(), 0);
}

#[test]
fn bitmask_query_returns_raw_mask() {
    let mut s = FrontendState::new();
    s.begin_frame([Buttons::new().right(true).a(true), Buttons::new()]);
    // Right and A are joypad ids 7 and 8.
    let mask = s.input_state(0, 1, 0, 16);
    assert_eq!(mask, (1 << 7) | (1 << 8));
    assert_eq!(mask, i16::from(Buttons::new().right(true).a(true)));
}

#[test]
fn input_state_reads_single_buttons() {
    let mut s = FrontendState::new();
    s.begin_frame([Buttons::new().start(true), Buttons::new().up(true)]);
    assert_eq!(s.input_state(0, 1, 0, 3), 1);
    assert_eq!(s.input_state(0, 1, 0, 4), 0);
    assert_eq!(s.input_state(1, 1, 0, 4), 1);
    assert_eq!(s.input_state(1, 1, 0, 3), 0);
    // Unsupported port, device or index read as released.
    assert_eq!(s.input_state(2, 1, 0, 3), 0);
    assert_eq!(s.input_state(0, 2, 0, 3), 0);
    assert_eq!(s.input_state(0, 1, 1, 3), 0);
    // Ids beyond the bitmask id read as released too; no query panics.
    assert_eq!(s.input_state(0, 1, 0, 17), 0);
    assert_eq!(s.input_state(0, 1, 0, 256), 0);
    assert_eq!(s.input_state(0, 1, 0, u32::MAX), 0);
}

#[test]
fn pixel_format_command() {
    let mut s = FrontendState::new();
    assert_eq!(s.pixfmt, PixelFormat::ZeroRGB1555);
    assert!(s.set_pixel_format(2));
    assert_eq!(s.pixfmt, PixelFormat::RGB565);
    assert_eq!(s.image_depth, 16);
    assert!(s.set_pixel_format(1));
    assert_eq!(s.pixfmt, PixelFormat::XRGB8888);
    assert_eq!(s.image_depth, 32);
    assert!(s.set_pixel_format(0));
    assert_eq!(s.pixfmt, PixelFormat::ZeroRGB1555);
    assert_eq!(s.image_depth, 15);
    // An unknown format word is refused and changes nothing.
    assert!(!s.set_pixel_format(7));
    assert_eq!(s.pixfmt, PixelFormat::ZeroRGB1555);
    assert_eq!(s.image_depth, 15);
}

#[test]
fn memory_maps_replace_whole_table() {
    let mut s = FrontendState::new();
    let first = vec![MemoryDescriptor {
        flags: 0,
        offset: 0,
        start: 0,
        select: 0,
        disconnect: 0,
        len: 0x800,
        name: String::new(),
    }];
    s.set_memory_maps(first.clone());
    assert_eq!(s.memory_map, first);
    let second = Vec::new();
    s.set_memory_maps(second);
    assert_eq!(s.memory_map.len(), 0);
}

#[test]
fn software_video_refresh_records_geometry() {
    let mut s = FrontendState::new();
    assert!(!s.frame_present);
    let realloc = s.video_refresh(false, 256, 240, 512);
    assert!(!realloc);
    assert!(s.frame_present);
    assert_eq!((s.frame_width, s.frame_height, s.frame_pitch), (256, 240, 512));
    // A zero pitch is read as four bytes per pixel.
    let realloc = s.video_refresh(false, 256, 240, 0);
    assert!(!realloc);
    assert_eq!(s.frame_pitch, 1024);
    assert_eq!(s.pixfmt, PixelFormat::ZeroRGB1555);
}

#[test]
fn hardware_video_refresh_owns_a_buffer() {
    let mut s = FrontendState::new();
    s.set_pixel_format(2);
    // The core renders into its own framebuffer object: the frontend must
    // allocate a buffer of height * pitch bytes, and the format becomes
    // XRGB8888.
    let realloc = s.video_refresh(true, 4, 3, 16);
    assert!(realloc);
    assert_eq!(s.pixfmt, PixelFormat::XRGB8888);
    assert!(s.frame_present);
    let fb = vec![255u8; s.frame_height as usize * s.frame_pitch];
    // Converting that buffer succeeds and fills the destination.
    let mut out = vec![0u8; 4 * 3 * 3];
    copy_framebuffer_rgb888(&fb, s.pixfmt, &mut out);
    assert!(out.iter().all(|&b| b == 255));
    // The same geometry again needs no new buffer, and the format stays
    // forced to XRGB8888.
    let realloc = s.video_refresh(true, 4, 3, 16);
    assert!(!realloc);
    assert_eq!(s.pixfmt, PixelFormat::XRGB8888);
    // A new width does.
    let realloc = s.video_refresh(true, 8, 3, 32);
    assert!(realloc);
}

#[test]
fn reset_clears_frame_and_inputs() {
    let mut s = FrontendState::new();
    s.begin_frame([Buttons::new().a(true), Buttons::new()]);
    s.push_audio_sample(9, 9);
    s.video_refresh(false, 256, 240, 512);
    s.reset();
    assert_eq!(s.audio_sample.len(), 0);
    assert_eq!(i16::from(s.buttons[0]), 0);
    assert_eq!(i16::from(s.buttons[1]), 0);
    assert!(!s.frame_present);
}

#[test]
fn save_needs_a_big_enough_buffer() {
    assert!(serialize_buffer_ok(100, 100));
    assert!(serialize_buffer_ok(101, 100));
    assert!(!serialize_buffer_ok(99, 100));
    assert!(serialize_buffer_ok(0, 0));
}
