//! The text-grid color model: the classic 16-color palette, a packed
//! foreground/background color code, and the character cell written to the
//! grid. The grid itself is memory-mapped hardware and lives outside the
//! library.

use vstd::prelude::*;

verus! {

/// The 16 hardware text colors, in palette order starting at 0.
#[derive(Debug, Clone, Copy, PartialEq, Eq, Structural)]
pub enum Color {
    Black,
    Blue,
    Green,
    Cyan,
    Red,
    Magenta,
    Brown,
    LightGrey,
    DarkGrey,
    LightBlue,
    LightGreen,
    LightCyan,
    LightRed,
    Pink,
    Yellow,
    White,
}

impl Color {
    /// The palette number of this color.
    pub open spec fn spec_code(self) -> u8 {
        match self {
            Color::Black => 0x00,
            Color::Blue => 0x01,
            Color::Green => 0x02,
            Color::Cyan => 0x03,
            Color::Red => 0x04,
            Color::Magenta => 0x05,
            Color::Brown => 0x06,
            Color::LightGrey => 0x07,
            Color::DarkGrey => 0x08,
            Color::LightBlue => 0x09,
            Color::LightGreen => 0x0a,
            Color::LightCyan => 0x0b,
            Color::LightRed => 0x0c,
            Color::Pink => 0x0d,
            Color::Yellow => 0x0e,
            Color::White => 0x0f,
        }
    }

    /// The palette number, as the hardware takes it.
    pub fn code(self) -> (r: u8)
        ensures
            r == self.spec_code(),
    {
        match self {
            Color::Black => 0x00,
            Color::Blue => 0x01,
            Color::Green => 0x02,
            Color::Cyan => 0x03,
            Color::Red => 0x04,
            Color::Magenta => 0x05,
            Color::Brown => 0x06,
            Color::LightGrey => 0x07,
            Color::DarkGrey => 0x08,
            Color::LightBlue => 0x09,
            Color::LightGreen => 0x0a,
            Color::LightCyan => 0x0b,
            Color::LightRed => 0x0c,
            Color::Pink => 0x0d,
            Color::Yellow => 0x0e,
            Color::White => 0x0f,
        }
    }
}

/// A packed color byte: background color in the high four bits, foreground
/// in the low four.
#[derive(Debug, Clone, Copy, PartialEq, Eq, Structural)]
pub struct ColorCode(u8);

impl ColorCode {
    /// The packed byte.
    pub closed spec fn spec_raw(self) -> u8 {
        self.0
    }

    /// Packs a foreground and a background color into one byte.
    pub fn new(foreground: Color, background: Color) -> (r: ColorCode)
        ensures
            r.spec_raw() == background.spec_code() * 16 + foreground.spec_code(),
    {
        let fg = foreground.code();
        let bg = background.code();
        let packed = (bg << 4) | fg;
        proof {
            assert((bg << 4) | fg == bg * 16 + fg) by (bit_vector)
                requires
                    fg < 16 && bg < 16,
            ;
        }
        ColorCode(packed)
    }
}

/// One character cell of the text grid: the character byte and its colors.
#[derive(Debug, Clone, Copy, PartialEq, Eq, Structural)]
pub struct ScreenChar {
    pub ascii_character: u8,
    pub color_code: ColorCode,
}

/// The text grid's height in rows.
pub const BUFFER_HEIGHT: usize = 25;

/// The text grid's width in columns.
pub const BUFFER_WIDTH: usize = 80;

/// A blank cell: a space in the given colors.
pub open spec fn spec_blank(color: ColorCode) -> ScreenChar {
    ScreenChar { ascii_character: 32, color_code: color }
}

/// A blank row.
pub open spec fn spec_blank_row(color: ColorCode) -> Seq<ScreenChar> {
    Seq::new(BUFFER_WIDTH as nat, |i: int| spec_blank(color))
}

/// The grid scrolled up one row: every row moves up, and a blank row
/// appears at the bottom.
pub open spec fn spec_scrolled(grid: Seq<Seq<ScreenChar>>, color: ColorCode) -> Seq<
    Seq<ScreenChar>,
> {
    grid.drop_first().push(spec_blank_row(color))
}

/// The character grid the writer renders into. On hardware this is the
/// memory-mapped text buffer; here it is an owned grid of the same shape.
#[derive(Debug)]
pub struct Buffer {
    rows: Vec<Vec<ScreenChar>>,
}

impl View for Buffer {
    type V = Seq<Seq<ScreenChar>>;

    closed spec fn view(&self) -> Seq<Seq<ScreenChar>> {
        self.rows@.map_values(|r: Vec<ScreenChar>| r@)
    }
}

impl Buffer {
    /// The grid has exactly the hardware's dimensions.
    pub open spec fn wf(&self) -> bool {
        self@.len() == BUFFER_HEIGHT && (forall|i: int|
            0 <= i < self@.len() ==> (#[trigger] self@[i]).len() == BUFFER_WIDTH)
    }

    /// A blank grid in the given colors.
    pub fn new(color: ColorCode) -> (b: Buffer)
        ensures
            b.wf(),
            b@ == Seq::new(BUFFER_HEIGHT as nat, |i: int| spec_blank_row(color)),
    {
        let mut rows: Vec<Vec<ScreenChar>> = Vec::new();
        let mut i: usize = 0;
        while i < BUFFER_HEIGHT
            invariant
                i <= BUFFER_HEIGHT,
                rows@.len() == i,
                forall|k: int| 0 <= k < i ==> (#[trigger] rows@[k])@ == spec_blank_row(color),
            decreases BUFFER_HEIGHT - i,
        {
            rows.push(Self::blank_row(color));
            i = i + 1;
        }
        let b = Buffer { rows };
        proof {
            assert(b@ =~= Seq::new(BUFFER_HEIGHT as nat, |k: int| spec_blank_row(color)));
        }
        b
    }

    /// One blank row.
    fn blank_row(color: ColorCode) -> (r: Vec<ScreenChar>)
        ensures
            r@ == spec_blank_row(color),
    {
        let mut row: Vec<ScreenChar> = Vec::new();
        let mut i: usize = 0;
        while i < BUFFER_WIDTH
            invariant
                i <= BUFFER_WIDTH,
                row@.len() == i,
                forall|k: int| 0 <= k < i ==> row@[k] == spec_blank(color),
            decreases BUFFER_WIDTH - i,
        {
            row.push(ScreenChar { ascii_character: 32, color_code: color });
            i = i + 1;
        }
        proof {
            assert(row@ =~= spec_blank_row(color));
        }
        row
    }

    /// The cell at the given position.
    pub fn read(&self, row: usize, col: usize) -> (r: ScreenChar)
        requires
            self.wf(),
            row < BUFFER_HEIGHT,
            col < BUFFER_WIDTH,
        ensures
            r == self@[row as int][col as int],
    {
        proof {
            assert(self.rows@.len() == self@.len());
            assert(self.rows@[row as int]@ == self@[row as int]);
        }
        self.rows[row][col]
    }
}

/// The text writer: the current column in the bottom row, the colors it
/// writes with, and the grid it writes into. Text always enters the bottom
/// row; a full row or a newline scrolls the grid up.
#[derive(Debug)]
pub struct Writer {
    pub column_position: usize,
    pub color_code: ColorCode,
    pub buffer: Buffer,
}

impl Writer {
    /// The grid has the hardware's shape and the column stays on it.
    pub open spec fn wf(&self) -> bool {
        self.buffer.wf() && self.column_position <= BUFFER_WIDTH
    }

    /// A writer over a blank grid.
    pub fn new(color: ColorCode) -> (w: Writer)
        ensures
            w.wf(),
            w.column_position == 0,
            w.color_code == color,
            w.buffer@ == Seq::new(BUFFER_HEIGHT as nat, |i: int| spec_blank_row(color)),
    {
        Writer { column_position: 0, color_code: color, buffer: Buffer::new(color) }
    }

    /// Scrolls the grid up one row and returns to the first column.
    pub fn new_line(&mut self)
        requires
            old(self).wf(),
        ensures
            final(self).wf(),
            final(self).buffer@ == spec_scrolled(old(self).buffer@, old(self).color_code),
            final(self).column_position == 0,
            final(self).color_code == old(self).color_code,
    {
        let ghost pre = self.buffer@;
        let _ = self.buffer.rows.remove(0);
        self.buffer.rows.push(Buffer::blank_row(self.color_code));
        self.column_position = 0;
        proof {
            assert(self.buffer@ =~= spec_scrolled(pre, self.color_code));
        }
    }

    /// Blanks one row in place.
    pub fn clear_row(&mut self, row: usize)
        requires
            old(self).wf(),
            row < BUFFER_HEIGHT,
        ensures
            final(self).wf(),
            final(self).buffer@ == old(self).buffer@.update(
                row as int,
                spec_blank_row(old(self).color_code),
            ),
            final(self).column_position == old(self).column_position,
            final(self).color_code == old(self).color_code,
    {
        let ghost pre = self.buffer@;
        let _ = self.buffer.rows.remove(row);
        self.buffer.rows.insert(row, Buffer::blank_row(self.color_code));
        proof {
            assert(self.buffer@ =~= pre.update(row as int, spec_blank_row(self.color_code)));
        }
    }

    /// Scrolls everything away: after one full screen of newlines the grid
    /// is blank and the column is at the start.
    pub fn clear_screen(&mut self)
        requires
            old(self).wf(),
        ensures
            final(self).wf(),
            final(self).buffer@ == Seq::new(
                BUFFER_HEIGHT as nat,
                |i: int| spec_blank_row(old(self).color_code),
            ),
            final(self).column_position == 0,
            final(self).color_code == old(self).color_code,
    {
        let mut i: usize = 0;
        while i < BUFFER_HEIGHT
            invariant
                self.wf(),
                i <= BUFFER_HEIGHT,
                self.color_code == old(self).color_code,
                i > 0 ==> self.column_position == 0,
                forall|k: int|
                    BUFFER_HEIGHT - i <= k < BUFFER_HEIGHT ==> (#[trigger] self.buffer@[k])
                        == spec_blank_row(old(self).color_code),
            decreases BUFFER_HEIGHT - i,
        {
            self.new_line();
            i = i + 1;
        }
        proof {
            assert(self.buffer@ =~= Seq::new(
                BUFFER_HEIGHT as nat,
                |k: int| spec_blank_row(old(self).color_code),
            ));
        }
        if self.column_position != 0 {
            self.column_position = 0;
        }
    }

    /// Where one byte lands: a newline scrolls; anything else goes into the
    /// bottom row at the current column, scrolling first when the row is
    /// full, and advances the column.
    pub open spec fn spec_after_byte(grid: Seq<Seq<ScreenChar>>, col: int, color: ColorCode, byte: u8)
        -> (Seq<Seq<ScreenChar>>, int) {
        if byte == 10 {
            (spec_scrolled(grid, color), 0)
        } else {
            let (g, c) = if col >= BUFFER_WIDTH {
                (spec_scrolled(grid, color), 0int)
            } else {
                (grid, col)
            };
            let row = BUFFER_HEIGHT - 1;
            (
                g.update(
                    row,
                    g[row].update(c, ScreenChar { ascii_character: byte, color_code: color }),
                ),
                c + 1,
            )
        }
    }

    /// Writes one byte.
    pub fn write_byte(&mut self, byte: u8)
        requires
            old(self).wf(),
        ensures
            final(self).wf(),
            final(self).color_code == old(self).color_code,
            (final(self).buffer@, final(self).column_position as int) == Self::spec_after_byte(
                old(self).buffer@,
                old(self).column_position as int,
                old(self).color_code,
                byte,
            ),
    {
        if byte == 10 {
            self.new_line();
            return ;
        }
        if self.column_position >= BUFFER_WIDTH {
            self.new_line();
        }
        let row = BUFFER_HEIGHT - 1;
        let col = self.column_position;
        let color_code = self.color_code;
        let ghost pre = self.buffer@;
        let mut bottom = match self.buffer.rows.pop() {
            Some(r) => r,
            None => {
                // unreachable: the grid always has its full height
                proof {
                    assert(false);
                }
                Vec::new()
            },
        };
        proof {
            assert(bottom@ == pre[row as int]);
        }
        let _ = bottom.remove(col);
        bottom.insert(col, ScreenChar { ascii_character: byte, color_code });
        proof {
            assert(bottom@ =~= pre[row as int].update(
                col as int,
                ScreenChar { ascii_character: byte, color_code },
            ));
        }
        self.buffer.rows.push(bottom);
        self.column_position = col + 1;
        proof {
            assert(self.buffer@ =~= pre.update(
                row as int,
                pre[row as int].update(
                    col as int,
                    ScreenChar { ascii_character: byte, color_code },
                ),
            ));
        }
    }

    /// Writes a space, then pads with spaces to the next tab stop of four
    /// columns.
    pub fn write_tab(&mut self)
        requires
            old(self).wf(),
        ensures
            final(self).wf(),
            final(self).color_code == old(self).color_code,
            final(self).column_position % 4 == 0,
    {
        self.write_byte(32);
        while self.column_position % 4 != 0
            invariant
                self.wf(),
                self.color_code == old(self).color_code,
            decreases (4 - self.column_position % 4) % 4,
        {
            proof {
                assert(self.column_position < BUFFER_WIDTH);
            }
            self.write_byte(32);
        }
    }

    /// Writes a string: printable bytes and newlines go through as they
    /// are, tabs pad to the next tab stop, and anything else prints the
    /// replacement glyph.
    pub fn write_string(&mut self, s: &str)
        requires
            old(self).wf(),
        ensures
            final(self).wf(),
            final(self).color_code == old(self).color_code,
    {
        let bytes = s.as_bytes();
        let mut i: usize = 0;
        while i < bytes.len()
            invariant
                self.wf(),
                self.color_code == old(self).color_code,
                i <= bytes@.len(),
            decreases bytes@.len() - i,
        {
            let byte = bytes[i];
            if (0x20 <= byte && byte <= 0x7e) || byte == 10 {
                self.write_byte(byte);
            } else if byte == 9 {
                self.write_tab();
            } else {
                self.write_byte(0xfe);
            }
            i = i + 1;
        }
    }
}

} // verus!
