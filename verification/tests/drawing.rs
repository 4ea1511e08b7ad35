//! Framebuffer drawing and the display writer, on small in-memory buffers.

use caffeine::display::DisplayWriter;
use caffeine::vga_buffer::BackgroundColor;
use caffeine::vga_buffer::ColorCode;
use caffeine::vga_buffer::ForegroundColor;
use caffeine::video::clear_screen;
use caffeine::video::draw_line;
use caffeine::video::draw_line_horizontal;
use caffeine::video::draw_pixel;
use caffeine::video::draw_rect;
use caffeine::video::Color;
use caffeine::video::Framebuffer;

/// A 4 by 3 framebuffer, 4 bytes per pixel, one pixel of row padding.
fn small_framebuffer() -> Framebuffer {
    // stride of 5 pixels = 20 bytes per row, 3 rows
    Framebuffer::new(vec![0u8; 60], 3, 4, 5, 4)
}

fn pixel_bytes(fb: &Framebuffer, x: usize, y: usize) -> (u8, u8, u8) {
    let offset = y * fb.stride + x * fb.bytes_per_pixel;
    (
        fb.buffer[offset],
        fb.buffer[offset + 1],
        fb.buffer[offset + 2],
    )
}

#[test]
fn color_from_keeps_the_channels() {
    let c = Color::from(255, 0, 0);
    assert_eq!((c.red, c.green, c.blue), (255, 0, 0));
}

#[test]
fn color_hex_unpacks_the_channels() {
    let pink = Color::hex(0xffc0cb);
    assert_eq!((pink.red, pink.green, pink.blue), (0xff, 0xc0, 0xcb));
    let purple = Color::hex(0xa020f0);
    assert_eq!((purple.red, purple.green, purple.blue), (0xa0, 0x20, 0xf0));
}

#[test]
fn draw_pixel_writes_blue_green_red() {
    let mut fb = small_framebuffer();
    draw_pixel(&mut fb, 1, 1, Color::from(10, 20, 30));
    // offset 1 * 20 + 1 * 4 = 24; layout is blue, green, red
    assert_eq!(&fb.buffer[24..27], &[30, 20, 10]);
    let untouched = fb.buffer.iter().enumerate().all(|(k, &v)| (24..27).contains(&k) || v == 0);
    assert!(untouched);
}

#[test]
fn horizontal_line_paints_the_run() {
    let mut fb = small_framebuffer();
    draw_line_horizontal(&mut fb, 1, 2, 3, Color::from(1, 2, 3));
    for x in 1..4 {
        assert_eq!(pixel_bytes(&fb, x, 2), (3, 2, 1));
    }
    assert_eq!(pixel_bytes(&fb, 0, 2), (0, 0, 0));
    assert_eq!(pixel_bytes(&fb, 1, 1), (0, 0, 0));
}

#[test]
fn rect_paints_exactly_its_pixels() {
    let mut fb = small_framebuffer();
    draw_rect(&mut fb, 1, 0, 2, 2, Color::from(9, 8, 7));
    for x in 1..3 {
        for y in 0..2 {
            assert_eq!(pixel_bytes(&fb, x, y), (7, 8, 9));
        }
    }
    assert_eq!(pixel_bytes(&fb, 0, 0), (0, 0, 0));
    assert_eq!(pixel_bytes(&fb, 3, 0), (0, 0, 0));
    assert_eq!(pixel_bytes(&fb, 1, 2), (0, 0, 0));
}

#[test]
fn clear_screen_blanks_the_packed_pixel_run() {
    let mut fb = Framebuffer::new(vec![0xff; 60], 3, 4, 5, 4);
    clear_screen(&mut fb);
    // 12 packed slots of 4 bytes: three color bytes blanked, the fourth kept
    for p in 0..12 {
        assert_eq!(&fb.buffer[p * 4..p * 4 + 3], &[0, 0, 0]);
        assert_eq!(fb.buffer[p * 4 + 3], 0xff);
    }
    // the trailing row padding is untouched
    for k in 48..60 {
        assert_eq!(fb.buffer[k], 0xff);
    }
}

#[test]
fn diagonal_line_paints_both_endpoints_and_stays_in_the_box() {
    let mut fb = small_framebuffer();
    draw_line(&mut fb, 0, 0, 2, 2, Color::from(5, 6, 7));
    assert_eq!(pixel_bytes(&fb, 0, 0), (7, 6, 5));
    assert_eq!(pixel_bytes(&fb, 1, 1), (7, 6, 5));
    assert_eq!(pixel_bytes(&fb, 2, 2), (7, 6, 5));
    // nothing outside the bounding box is touched
    assert_eq!(pixel_bytes(&fb, 3, 0), (0, 0, 0));
    assert_eq!(pixel_bytes(&fb, 3, 1), (0, 0, 0));
    assert_eq!(pixel_bytes(&fb, 3, 2), (0, 0, 0));
}

#[test]
fn single_pixel_line_is_a_dot() {
    let mut fb = small_framebuffer();
    draw_line(&mut fb, 2, 1, 2, 1, Color::from(4, 4, 4));
    assert_eq!(pixel_bytes(&fb, 2, 1), (4, 4, 4));
    let offset = 1 * fb.stride + 2 * fb.bytes_per_pixel;
    let untouched = fb
        .buffer
        .iter()
        .enumerate()
        .all(|(k, &v)| (offset..offset + 3).contains(&k) || v == 0);
    assert!(untouched);
}

#[test]
fn display_writer_clear_blanks_every_byte() {
    let mut writer = DisplayWriter::new(vec![0xab; 16]);
    writer.clear();
    assert_eq!(writer.framebuffer.len(), 16);
    assert!(writer.framebuffer.iter().all(|&b| b == 0));
}

#[test]
fn color_code_packs_background_high_and_foreground_low() {
    let code = ColorCode::new(ForegroundColor::Yellow, BackgroundColor::Black);
    assert_eq!(code.0, 14);
    let code = ColorCode::new(ForegroundColor::White, BackgroundColor::Blue);
    assert_eq!(code.0, (1 << 4) | 15);
}
