//! Screen writer tests: colors, cursor movement, wrapping, scrolling,
//! unprintable-byte replacement.

use chronos::vga_buffer::Color;
use chronos::vga_buffer::ColorCode;
use chronos::vga_buffer::Writer;

fn yellow_on_black() -> ColorCode {
    ColorCode::new(Color::Yellow, Color::Black)
}

#[test]
fn color_codes_pack_background_high_foreground_low() {
    assert_eq!(ColorCode::new(Color::Yellow, Color::Black).0, 0x0E);
    assert_eq!(ColorCode::new(Color::White, Color::Blue).0, 0x1F);
    assert_eq!(ColorCode::new(Color::Black, Color::Black).0, 0x00);
    assert_eq!(ColorCode::new(Color::White, Color::White).0, 0xFF);
}

#[test]
fn new_writer_is_blank() {
    let w = Writer::new(yellow_on_black());
    assert_eq!(w.column_position, 0);
    assert_eq!(w.buffer.len(), 25);
    for row in &w.buffer {
        assert_eq!(row.len(), 80);
        for cell in row {
            assert_eq!(cell.ascii_character, b' ');
        }
    }
}

#[test]
fn bytes_land_on_the_bottom_row() {
    let mut w = Writer::new(yellow_on_black());
    w.write_byte(b'H');
    w.write_byte(b'i');
    assert_eq!(w.column_position, 2);
    assert_eq!(w.buffer[24][0].ascii_character, b'H');
    assert_eq!(w.buffer[24][1].ascii_character, b'i');
    assert_eq!(w.buffer[24][0].color_code, yellow_on_black());
}

#[test]
fn newline_scrolls_the_screen_up() {
    let mut w = Writer::new(yellow_on_black());
    w.write_byte(b'X');
    w.write_byte(b'\n');
    assert_eq!(w.column_position, 0);
    // The line moved up one row; the bottom row is blank again.
    assert_eq!(w.buffer[23][0].ascii_character, b'X');
    assert_eq!(w.buffer[24][0].ascii_character, b' ');
}

#[test]
fn long_line_wraps_at_the_row_width() {
    let mut w = Writer::new(yellow_on_black());
    for _ in 0..80 {
        w.write_byte(b'a');
    }
    assert_eq!(w.column_position, 80);
    w.write_byte(b'b');
    // The full row scrolled up and the overflow byte starts the new row.
    assert_eq!(w.column_position, 1);
    assert_eq!(w.buffer[23][79].ascii_character, b'a');
    assert_eq!(w.buffer[24][0].ascii_character, b'b');
}

#[test]
fn strings_are_written_in_order() {
    let mut w = Writer::new(yellow_on_black());
    w.write_string("Hello");
    assert_eq!(w.column_position, 5);
    let text: Vec<u8> = w.buffer[24][..5].iter().map(|c| c.ascii_character).collect();
    assert_eq!(text, b"Hello");
}

#[test]
fn unprintable_bytes_are_replaced() {
    let mut w = Writer::new(yellow_on_black());
    w.write_string("a\u{7f}b");
    assert_eq!(w.buffer[24][0].ascii_character, b'a');
    assert_eq!(w.buffer[24][1].ascii_character, 0xFE);
    assert_eq!(w.buffer[24][2].ascii_character, b'b');
}

#[test]
fn string_newlines_scroll() {
    let mut w = Writer::new(yellow_on_black());
    w.write_string("one\ntwo");
    assert_eq!(w.column_position, 3);
    let upper: Vec<u8> = w.buffer[23][..3].iter().map(|c| c.ascii_character).collect();
    let lower: Vec<u8> = w.buffer[24][..3].iter().map(|c| c.ascii_character).collect();
    assert_eq!(upper, b"one");
    assert_eq!(lower, b"two");
}
