//! The text console writer: placing bytes, scrolling, wrapping, filtering.

use caffeine::vga_buffer::{
    BackgroundColor, ColorCode, ForegroundColor, Writer, BUFFER_HEIGHT, BUFFER_WIDTH,
};

fn fresh_writer() -> Writer {
    Writer::new(ColorCode::new(ForegroundColor::Yellow, BackgroundColor::Black))
}

fn glyph_at(w: &Writer, row: usize, col: usize) -> u8 {
    w.buffer.chars[row * BUFFER_WIDTH + col].ascii_character
}

#[test]
fn new_writer_is_blank() {
    let w = fresh_writer();
    assert_eq!(w.current_col, 0);
    assert_eq!(w.buffer.chars.len(), BUFFER_HEIGHT * BUFFER_WIDTH);
    assert!(w.buffer.chars.iter().all(|c| c.ascii_character == b' '));
}

#[test]
fn bytes_land_in_the_bottom_row() {
    let mut w = fresh_writer();
    w.write_byte(b'h');
    w.write_byte(b'i');
    assert_eq!(glyph_at(&w, BUFFER_HEIGHT - 1, 0), b'h');
    assert_eq!(glyph_at(&w, BUFFER_HEIGHT - 1, 1), b'i');
    assert_eq!(w.current_col, 2);
}

#[test]
fn newline_scrolls_one_row_up() {
    let mut w = fresh_writer();
    w.write_byte(b'x');
    w.write_byte(b'\n');
    assert_eq!(glyph_at(&w, BUFFER_HEIGHT - 2, 0), b'x');
    assert_eq!(glyph_at(&w, BUFFER_HEIGHT - 1, 0), b' ');
    assert_eq!(w.current_col, 0);
}

#[test]
fn a_full_row_wraps_before_the_next_byte() {
    let mut w = fresh_writer();
    for _ in 0..BUFFER_WIDTH {
        w.write_byte(b'a');
    }
    assert_eq!(w.current_col, BUFFER_WIDTH);
    w.write_byte(b'b');
    assert_eq!(w.current_col, 1);
    assert_eq!(glyph_at(&w, BUFFER_HEIGHT - 2, 0), b'a');
    assert_eq!(glyph_at(&w, BUFFER_HEIGHT - 2, BUFFER_WIDTH - 1), b'a');
    assert_eq!(glyph_at(&w, BUFFER_HEIGHT - 1, 0), b'b');
}

#[test]
fn write_string_prints_and_scrolls() {
    let mut w = fresh_writer();
    w.write_string("ab\ncd");
    assert_eq!(glyph_at(&w, BUFFER_HEIGHT - 2, 0), b'a');
    assert_eq!(glyph_at(&w, BUFFER_HEIGHT - 2, 1), b'b');
    assert_eq!(glyph_at(&w, BUFFER_HEIGHT - 1, 0), b'c');
    assert_eq!(glyph_at(&w, BUFFER_HEIGHT - 1, 1), b'd');
    assert_eq!(w.current_col, 2);
}

#[test]
fn unprintable_bytes_show_the_fallback_glyph() {
    let mut w = fresh_writer();
    w.write_string("\u{1}");
    assert_eq!(glyph_at(&w, BUFFER_HEIGHT - 1, 0), 0xfe);
}

#[test]
fn clear_row_blanks_only_that_row() {
    let mut w = fresh_writer();
    w.write_byte(b'z');
    w.write_byte(b'\n');
    w.write_byte(b'q');
    // row 23 holds z, row 24 holds q; blank row 23
    w.clear_row(BUFFER_HEIGHT - 2);
    assert_eq!(glyph_at(&w, BUFFER_HEIGHT - 2, 0), b' ');
    assert_eq!(glyph_at(&w, BUFFER_HEIGHT - 1, 0), b'q');
}

#[test]
fn set_color_changes_later_cells_only() {
    let mut w = fresh_writer();
    let red = ColorCode::new(ForegroundColor::Red, BackgroundColor::Black);
    w.write_byte(b'a');
    w.set_color(red);
    w.write_byte(b'b');
    assert_eq!(w.buffer.chars[(BUFFER_HEIGHT - 1) * BUFFER_WIDTH].color_code.0, 14);
    assert_eq!(w.buffer.chars[(BUFFER_HEIGHT - 1) * BUFFER_WIDTH + 1].color_code, red);
    assert_eq!(red.0, 4);
}
