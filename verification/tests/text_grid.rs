//! The text-grid writer: characters land in the bottom row, newlines and
//! full rows scroll, tabs pad to their stops, and clearing blanks the grid.

use flario::vga::{Color, ColorCode, Writer, BUFFER_HEIGHT, BUFFER_WIDTH};

fn fresh() -> Writer {
    Writer::new(ColorCode::new(Color::Yellow, Color::Black))
}

#[test]
fn characters_fill_the_bottom_row() {
    let mut w = fresh();
    w.write_byte(b'A');
    w.write_byte(b'B');
    assert_eq!(w.column_position, 2);
    assert_eq!(w.buffer.read(BUFFER_HEIGHT - 1, 0).ascii_character, b'A');
    assert_eq!(w.buffer.read(BUFFER_HEIGHT - 1, 1).ascii_character, b'B');
}

#[test]
fn newline_scrolls_the_grid() {
    let mut w = fresh();
    w.write_string("hi\n");
    assert_eq!(w.column_position, 0);
    assert_eq!(w.buffer.read(BUFFER_HEIGHT - 2, 0).ascii_character, b'h');
    assert_eq!(w.buffer.read(BUFFER_HEIGHT - 2, 1).ascii_character, b'i');
    assert_eq!(w.buffer.read(BUFFER_HEIGHT - 1, 0).ascii_character, b' ');
}

#[test]
fn a_full_row_wraps() {
    let mut w = fresh();
    for _ in 0..BUFFER_WIDTH {
        w.write_byte(b'x');
    }
    assert_eq!(w.column_position, BUFFER_WIDTH);
    w.write_byte(b'y');
    assert_eq!(w.column_position, 1);
    assert_eq!(w.buffer.read(BUFFER_HEIGHT - 2, 0).ascii_character, b'x');
    assert_eq!(w.buffer.read(BUFFER_HEIGHT - 1, 0).ascii_character, b'y');
}

#[test]
fn tabs_pad_to_their_stop() {
    let mut w = fresh();
    w.write_byte(b'a');
    w.write_string("\t");
    assert_eq!(w.column_position % 4, 0);
    assert_eq!(w.column_position, 4);
}

#[test]
fn unprintable_bytes_show_the_replacement_glyph() {
    let mut w = fresh();
    w.write_string("\u{1}");
    assert_eq!(w.buffer.read(BUFFER_HEIGHT - 1, 0).ascii_character, 0xfe);
}

#[test]
fn clearing_blanks_everything() {
    let mut w = fresh();
    w.write_string("some text");
    w.clear_row(BUFFER_HEIGHT - 1);
    assert_eq!(w.buffer.read(BUFFER_HEIGHT - 1, 0).ascii_character, b' ');

    w.write_string("more\nlines");
    w.clear_screen();
    assert_eq!(w.column_position, 0);
    for row in 0..BUFFER_HEIGHT {
        assert_eq!(w.buffer.read(row, 0).ascii_character, b' ');
    }
}
