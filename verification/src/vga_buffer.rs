//! Model of the text-mode screen writer.
//!
//! The writer keeps a cursor on the last row of a fixed 25-by-80 character
//! grid, wraps long lines, scrolls on newline, and replaces unprintable
//! bytes.  The real screen is a memory-mapped hardware buffer written by
//! the unverified shell; this model owns the grid and pins down exactly
//! what every write does to it.

use vstd::prelude::*;
use vstd::string::StringSliceAdditionalSpecFns;

verus! {

/// Number of text rows on the screen.
pub const BUFFER_HEIGHT: usize = 25;

/// Number of text columns on the screen.
pub const BUFFER_WIDTH: usize = 80;

/// The newline byte.
pub const NEWLINE: u8 = 0x0A;

/// Byte written in place of an unprintable one.
pub const UNPRINTABLE: u8 = 0xFE;

/// The standard 16-color text-mode palette.
#[derive(Debug, Clone, Copy, PartialEq, Eq, Structural)]
pub enum Color {
    Black,
    Blue,
    Green,
    Cyan,
    Red,
    Magenta,
    Brown,
    LightGray,
    DarkGray,
    LightBlue,
    LightGreen,
    LightCyan,
    LightRed,
    Pink,
    Yellow,
    White,
}

impl Color {
    /// The palette number of this color.
    pub open spec fn spec_as_u8(self) -> u8 {
        match self {
            Color::Black => 0,
            Color::Blue => 1,
            Color::Green => 2,
            Color::Cyan => 3,
            Color::Red => 4,
            Color::Magenta => 5,
            Color::Brown => 6,
            Color::LightGray => 7,
            Color::DarkGray => 8,
            Color::LightBlue => 9,
            Color::LightGreen => 10,
            Color::LightCyan => 11,
            Color::LightRed => 12,
            Color::Pink => 13,
            Color::Yellow => 14,
            Color::White => 15,
        }
    }

    /// Return the palette number of this color.
    pub fn as_u8(self) -> (r: u8)
        ensures
            r == self.spec_as_u8(),
            r <= 15,
    {
        match self {
            Color::Black => 0,
            Color::Blue => 1,
            Color::Green => 2,
            Color::Cyan => 3,
            Color::Red => 4,
            Color::Magenta => 5,
            Color::Brown => 6,
            Color::LightGray => 7,
            Color::DarkGray => 8,
            Color::LightBlue => 9,
            Color::LightGreen => 10,
            Color::LightCyan => 11,
            Color::LightRed => 12,
            Color::Pink => 13,
            Color::Yellow => 14,
            Color::White => 15,
        }
    }
}

/// A packed color: background palette number in the upper four bits,
/// foreground in the lower four.
#[derive(Debug, Clone, Copy, PartialEq, Eq, Structural)]
pub struct ColorCode(pub u8);

impl ColorCode {
    /// Pack a foreground and a background color.
    pub fn new(foreground: Color, background: Color) -> (r: ColorCode)
        ensures
            r.0 == background.spec_as_u8() * 16 + foreground.spec_as_u8(),
    {
        let fg = foreground.as_u8();
        let bg = background.as_u8();
        let value = (bg << 4) | fg;
        proof {
            assert((bg << 4) | fg == bg * 16 + fg) by (bit_vector)
                requires
                    bg <= 15,
                    fg <= 15,
            ;
        }
        ColorCode(value)
    }
}

/// One character cell: a byte of text and its color.
#[derive(Debug, Clone, Copy, PartialEq, Eq, Structural)]
pub struct ScreenChar {
    /// The character byte.
    pub ascii_character: u8,
    /// The cell's color.
    pub color_code: ColorCode,
}

/// A blank cell in the given color.
pub open spec fn blank_char(color: ColorCode) -> ScreenChar {
    ScreenChar { ascii_character: 0x20, color_code: color }
}

/// A full row of blank cells.
pub open spec fn blank_row(color: ColorCode) -> Seq<ScreenChar> {
    Seq::new(BUFFER_WIDTH as nat, |i: int| blank_char(color))
}

/// The abstract screen: cursor column, current color, and the character
/// grid, rows top to bottom.
pub ghost struct ScreenView {
    /// Cursor column on the last row.
    pub column: nat,
    /// Current color.
    pub color: ColorCode,
    /// The grid: `rows[r][c]` is the cell at row `r`, column `c`.
    pub rows: Seq<Seq<ScreenChar>>,
}

/// Scrolling: every row moves up by one, the bottom row is cleared in the
/// current color, and the cursor returns to the first column.
pub open spec fn spec_new_line(w: ScreenView) -> ScreenView {
    ScreenView {
        column: 0,
        color: w.color,
        rows: w.rows.subrange(1, BUFFER_HEIGHT as int).push(blank_row(w.color)),
    }
}

/// Writing one byte: a newline scrolls; any other byte lands at the cursor
/// on the bottom row (after scrolling first if the row is full) and
/// advances the cursor.
pub open spec fn spec_write_byte(w: ScreenView, byte: u8) -> ScreenView {
    if byte == NEWLINE {
        spec_new_line(w)
    } else {
        let base = if w.column >= BUFFER_WIDTH {
            spec_new_line(w)
        } else {
            w
        };
        let cell = ScreenChar { ascii_character: byte, color_code: base.color };
        ScreenView {
            column: base.column + 1,
            color: base.color,
            rows: base.rows.update(
                BUFFER_HEIGHT - 1,
                base.rows[BUFFER_HEIGHT - 1].update(base.column as int, cell),
            ),
        }
    }
}

/// Printable bytes and newlines pass through; everything else becomes the
/// replacement byte.
pub open spec fn sanitize(byte: u8) -> u8 {
    if (0x20 <= byte && byte <= 0x7E) || byte == NEWLINE {
        byte
    } else {
        UNPRINTABLE
    }
}

/// Writing a string: each byte is sanitized and written in order.
pub open spec fn spec_write_string(w: ScreenView, bytes: Seq<u8>) -> ScreenView
    decreases bytes.len(),
{
    if bytes.len() == 0 {
        w
    } else {
        spec_write_string(spec_write_byte(w, sanitize(bytes[0])), bytes.drop_first())
    }
}

/// Writing the bytes then one more equals writing the bytes and then the
/// last byte.
pub proof fn lemma_write_string_snoc(w: ScreenView, bytes: Seq<u8>, byte: u8)
    ensures
        spec_write_string(w, bytes.push(byte)) == spec_write_byte(
            spec_write_string(w, bytes),
            sanitize(byte),
        ),
    decreases bytes.len(),
{
    if bytes.len() == 0 {
        let one = bytes.push(byte);
        let w1 = spec_write_byte(w, sanitize(byte));
        assert(one[0] == byte);
        assert(one.drop_first() =~= Seq::<u8>::empty());
        assert(spec_write_string(w1, one.drop_first()) == w1);
        assert(spec_write_string(w, one) == spec_write_string(w1, one.drop_first()));
        assert(spec_write_string(w, bytes) == w);
    } else {
        let longer = bytes.push(byte);
        let w0 = spec_write_byte(w, sanitize(bytes[0]));
        assert(longer[0] == bytes[0]);
        assert(longer.drop_first() =~= bytes.drop_first().push(byte));
        assert(spec_write_string(w, longer) == spec_write_string(w0, longer.drop_first()));
        assert(spec_write_string(w, bytes) == spec_write_string(w0, bytes.drop_first()));
        lemma_write_string_snoc(w0, bytes.drop_first(), byte);
    }
}

/// The screen writer: cursor, color, and the owned character grid.
pub struct Writer {
    /// Cursor column on the last row.
    pub column_position: usize,
    /// Color applied to everything written.
    pub color_code: ColorCode,
    /// The character grid.
    pub buffer: Vec<Vec<ScreenChar>>,
}

impl Writer {
    /// The grid has its fixed size and the cursor is within the row.
    pub open spec fn wf(self) -> bool {
        &&& self.buffer@.len() == BUFFER_HEIGHT
        &&& forall|r: int|
            0 <= r < BUFFER_HEIGHT ==> (#[trigger] self.buffer@[r])@.len() == BUFFER_WIDTH
        &&& self.column_position <= BUFFER_WIDTH
    }

    /// The abstract screen this writer shows.
    pub open spec fn view(self) -> ScreenView {
        ScreenView {
            column: self.column_position as nat,
            color: self.color_code,
            rows: self.buffer@.map_values(|row: Vec<ScreenChar>| row@),
        }
    }

    /// A writer over a blank screen in the given color.
    pub fn new(color_code: ColorCode) -> (w: Writer)
        ensures
            w.wf(),
            w.view().column == 0,
            w.view().color == color_code,
            w.view().rows =~~= Seq::new(BUFFER_HEIGHT as nat, |r: int| blank_row(color_code)),
    {
        let mut buffer: Vec<Vec<ScreenChar>> = Vec::new();
        let mut r: usize = 0;
        while r < BUFFER_HEIGHT
            invariant
                r <= BUFFER_HEIGHT,
                buffer@.len() == r,
                forall|i: int| 0 <= i < r ==> (#[trigger] buffer@[i])@ =~= blank_row(color_code),
            decreases BUFFER_HEIGHT - r,
        {
            let mut row: Vec<ScreenChar> = Vec::new();
            let mut c: usize = 0;
            while c < BUFFER_WIDTH
                invariant
                    c <= BUFFER_WIDTH,
                    row@.len() == c,
                    forall|j: int| 0 <= j < c ==> row@[j] == blank_char(color_code),
                decreases BUFFER_WIDTH - c,
            {
                row.push(ScreenChar { ascii_character: 0x20, color_code });
                c = c + 1;
            }
            proof {
                assert(row@ =~= blank_row(color_code));
            }
            buffer.push(row);
            r = r + 1;
        }
        Writer { column_position: 0, color_code, buffer }
    }

    /// Clear one row to blanks in the current color.
    fn clear_row(&mut self, row: usize)
        requires
            old(self).wf(),
            row < BUFFER_HEIGHT,
        ensures
            final(self).wf(),
            final(self).column_position == old(self).column_position,
            final(self).color_code == old(self).color_code,
            final(self).view().rows =~~= old(self).view().rows.update(
                row as int,
                blank_row(old(self).color_code),
            ),
    {
        let color = self.color_code;
        let mut c: usize = 0;
        while c < BUFFER_WIDTH
            invariant
                self.wf(),
                old(self).wf(),
                c <= BUFFER_WIDTH,
                row < BUFFER_HEIGHT,
                self.column_position == old(self).column_position,
                self.color_code == old(self).color_code,
                color == old(self).color_code,
                forall|i: int|
                    0 <= i < BUFFER_HEIGHT && i != row ==> (#[trigger] self.buffer@[i])@ == old(
                        self,
                    ).buffer@[i]@,
                forall|j: int|
                    0 <= j < c ==> (#[trigger] self.buffer@[row as int]@[j]) == blank_char(color),
                forall|j: int|
                    c <= j < BUFFER_WIDTH ==> (#[trigger] self.buffer@[row as int]@[j]) == old(
                        self,
                    ).buffer@[row as int]@[j],
            decreases BUFFER_WIDTH - c,
        {
            self.buffer[row][c] = ScreenChar { ascii_character: 0x20, color_code: color };
            c = c + 1;
        }
    }

    /// Scroll the screen up one line and return the cursor to column 0.
    fn new_line(&mut self)
        requires
            old(self).wf(),
        ensures
            final(self).wf(),
            final(self).view() == spec_new_line(old(self).view()),
    {
        let mut row: usize = 1;
        while row < BUFFER_HEIGHT
            invariant
                self.wf(),
                old(self).wf(),
                1 <= row <= BUFFER_HEIGHT,
                self.column_position == old(self).column_position,
                self.color_code == old(self).color_code,
                forall|r: int|
                    0 <= r < row - 1 ==> (#[trigger] self.buffer@[r])@ == old(self).buffer@[r + 1]@,
                forall|r: int|
                    row - 1 <= r < BUFFER_HEIGHT ==> (#[trigger] self.buffer@[r])@ == old(
                        self,
                    ).buffer@[r]@,
            decreases BUFFER_HEIGHT - row,
        {
            let mut col: usize = 0;
            while col < BUFFER_WIDTH
                invariant
                    self.wf(),
                    old(self).wf(),
                    1 <= row < BUFFER_HEIGHT,
                    col <= BUFFER_WIDTH,
                    self.column_position == old(self).column_position,
                    self.color_code == old(self).color_code,
                    forall|r: int|
                        0 <= r < row - 1 ==> (#[trigger] self.buffer@[r])@ == old(
                            self,
                        ).buffer@[r + 1]@,
                    forall|r: int|
                        row <= r < BUFFER_HEIGHT ==> (#[trigger] self.buffer@[r])@ == old(
                            self,
                        ).buffer@[r]@,
                    forall|j: int|
                        0 <= j < col ==> (#[trigger] self.buffer@[row - 1]@[j]) == old(
                            self,
                        ).buffer@[row as int]@[j],
                    forall|j: int|
                        col <= j < BUFFER_WIDTH ==> (#[trigger] self.buffer@[row - 1]@[j]) == old(
                            self,
                        ).buffer@[row - 1]@[j],
                decreases BUFFER_WIDTH - col,
            {
                let character = self.buffer[row][col];
                self.buffer[row - 1][col] = character;
                col = col + 1;
            }
            proof {
                assert(self.buffer@[row - 1]@ =~= old(self).buffer@[row as int]@);
            }
            row = row + 1;
        }
        self.clear_row(BUFFER_HEIGHT - 1);
        self.column_position = 0;
        proof {
            assert(self.view().rows =~~= spec_new_line(old(self).view()).rows);
        }
    }

    /// Write one byte at the cursor, scrolling on a newline or a full row.
    pub fn write_byte(&mut self, byte: u8)
        requires
            old(self).wf(),
        ensures
            final(self).wf(),
            final(self).view() == spec_write_byte(old(self).view(), byte),
    {
        if byte == NEWLINE {
            self.new_line();
        } else {
            if self.column_position >= BUFFER_WIDTH {
                self.new_line();
            }
            let row = BUFFER_HEIGHT - 1;
            let col = self.column_position;
            let color = self.color_code;
            self.buffer[row][col] = ScreenChar { ascii_character: byte, color_code: color };
            self.column_position = col + 1;
            proof {
                let target = spec_write_byte(old(self).view(), byte);
                assert(self.view().rows =~~= target.rows);
            }
        }
    }

    /// Write a string: printable bytes and newlines as they are, anything
    /// else as the replacement byte.
    pub fn write_string(&mut self, s: &str)
        requires
            old(self).wf(),
        ensures
            final(self).wf(),
            final(self).view() == spec_write_string(old(self).view(), s.spec_bytes()),
    {
        let bytes = s.as_bytes();
        let n = bytes.len();
        let mut i: usize = 0;
        while i < n
            invariant
                self.wf(),
                n == bytes@.len(),
                bytes@ == s.spec_bytes(),
                i <= n,
                self.view() == spec_write_string(old(self).view(), bytes@.subrange(0, i as int)),
            decreases n - i,
        {
            let byte = bytes[i];
            if (0x20 <= byte && byte <= 0x7E) || byte == NEWLINE {
                self.write_byte(byte);
            } else {
                self.write_byte(UNPRINTABLE);
            }
            proof {
                assert(bytes@.subrange(0, i + 1) =~= bytes@.subrange(0, i as int).push(bytes@[i as int]));
                lemma_write_string_snoc(
                    old(self).view(),
                    bytes@.subrange(0, i as int),
                    bytes@[i as int],
                );
            }
            i = i + 1;
        }
        proof {
            assert(bytes@.subrange(0, n as int) =~= bytes@);
        }
    }
}

} // verus!
