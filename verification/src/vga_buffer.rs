//! Text-mode screen: a grid of coloured cells that scrolls upwards.

use vstd::prelude::*;
use vstd::string::StringSliceAdditionalSpecFns;

verus! {

/// Number of text rows on the screen.
pub const BUFFER_HEIGHT: usize = 25;

/// Number of cells in a row.
pub const BUFFER_WIDTH: usize = 80;

/// Shown in place of a byte that is neither printable ASCII nor a newline.
pub const UNRECOGNIZED_CHAR: u8 = 0xfe;

/// The byte that ends a line.
pub const NEWLINE: u8 = 0x0a;

/// The byte that fills an empty cell.
pub const SPACE: u8 = 0x20;

/// The sixteen colours of the standard text-mode palette.
#[derive(Debug, Clone, Copy, PartialEq, Eq, Structural)]
pub enum Color {
    Black,
    Blue,
    Green,
    Cyan,
    Red,
    Magenta,
    Brown,
    LightGray,
    DarkGray,
    LightBlue,
    LightGreen,
    LightCyan,
    LightRed,
    Pink,
    Yellow,
    White,
}

impl Color {
    /// Palette index of the colour.
    pub open spec fn value(self) -> u8 {
        match self {
            Color::Black => 0,
            Color::Blue => 1,
            Color::Green => 2,
            Color::Cyan => 3,
            Color::Red => 4,
            Color::Magenta => 5,
            Color::Brown => 6,
            Color::LightGray => 7,
            Color::DarkGray => 8,
            Color::LightBlue => 9,
            Color::LightGreen => 10,
            Color::LightCyan => 11,
            Color::LightRed => 12,
            Color::Pink => 13,
            Color::Yellow => 14,
            Color::White => 15,
        }
    }

    /// Palette index of the colour, as the hardware expects it.
    pub fn as_u8(self) -> (v: u8)
        ensures
            v == self.value(),
            v < 16,
    {
        match self {
            Color::Black => 0,
            Color::Blue => 1,
            Color::Green => 2,
            Color::Cyan => 3,
            Color::Red => 4,
            Color::Magenta => 5,
            Color::Brown => 6,
            Color::LightGray => 7,
            Color::DarkGray => 8,
            Color::LightBlue => 9,
            Color::LightGreen => 10,
            Color::LightCyan => 11,
            Color::LightRed => 12,
            Color::Pink => 13,
            Color::Yellow => 14,
            Color::White => 15,
        }
    }
}

/// Attribute byte of a cell: background in the high nibble, foreground in the
/// low nibble.
#[derive(Debug, Clone, Copy, PartialEq, Eq, Structural)]
pub struct ColorCode(pub u8);

impl ColorCode {
    /// The attribute byte for a pair of colours.
    pub open spec fn of(foreground: Color, background: Color) -> ColorCode {
        ColorCode((background.value() * 16 + foreground.value()) as u8)
    }

    /// Combines a foreground and a background colour into one attribute byte.
    pub fn new(foreground: Color, background: Color) -> (code: ColorCode)
        ensures
            code == ColorCode::of(foreground, background),
            code.0 / 16 == background.value(),
            code.0 % 16 == foreground.value(),
    {
        let fg: u8 = foreground.as_u8();
        let bg: u8 = background.as_u8();
        assert((bg << 4 | fg) == bg * 16 + fg) by (bit_vector)
            requires
                fg < 16,
                bg < 16,
        ;
        ColorCode(bg << 4 | fg)
    }
}

/// One cell of the screen.
#[derive(Debug, Clone, Copy, PartialEq, Eq, Structural)]
pub struct ScreenChar {
    pub ascii_character: u8,
    pub color_code: ColorCode,
}

/// A space in the given colours.
pub open spec fn blank(color_code: ColorCode) -> ScreenChar {
    ScreenChar { ascii_character: SPACE, color_code }
}

/// A row of spaces in the given colours.
pub open spec fn blank_row(color_code: ColorCode) -> Seq<ScreenChar> {
    Seq::new(BUFFER_WIDTH as nat, |col: int| blank(color_code))
}

/// The byte that is shown for `byte`: the byte itself where it is printable
/// ASCII or a newline, the placeholder otherwise.
pub open spec fn displayed(byte: u8) -> u8 {
    if (0x20 <= byte && byte <= 0x7e) || byte == NEWLINE {
        byte
    } else {
        UNRECOGNIZED_CHAR
    }
}

/// What the screen shows: its rows from top to bottom and the column at which
/// the next byte is put.
pub struct Screen {
    pub rows: Seq<Seq<ScreenChar>>,
    pub column: nat,
}

impl Screen {
    /// All rows are there and full, and the cursor is inside or just behind
    /// the bottom row.
    pub open spec fn wf(self) -> bool {
        &&& self.rows.len() == BUFFER_HEIGHT
        &&& forall|row: int| 0 <= row < BUFFER_HEIGHT ==> (#[trigger] self.rows[row]).len() == BUFFER_WIDTH
        &&& self.column <= BUFFER_WIDTH
    }

    /// A screen of spaces with the cursor at the left.
    pub open spec fn cleared(color_code: ColorCode) -> Screen {
        Screen {
            rows: Seq::new(BUFFER_HEIGHT as nat, |row: int| blank_row(color_code)),
            column: 0,
        }
    }

    /// Row `row` replaced by spaces.
    pub open spec fn clear_row(self, row: int, color_code: ColorCode) -> Screen {
        Screen { rows: self.rows.update(row, blank_row(color_code)), column: self.column }
    }

    /// Every row moved up by one, the top row dropped, a row of spaces at the
    /// bottom, the cursor at the left.
    pub open spec fn new_line(self, color_code: ColorCode) -> Screen {
        Screen {
            rows: self.rows.subrange(1, BUFFER_HEIGHT as int).push(blank_row(color_code)),
            column: 0,
        }
    }

    /// `byte` put at the cursor in the bottom row, the cursor moved right.
    pub open spec fn put(self, byte: u8, color_code: ColorCode) -> Screen {
        let bottom = BUFFER_HEIGHT - 1;
        Screen {
            rows: self.rows.update(
                bottom,
                self.rows[bottom].update(
                    self.column as int,
                    ScreenChar { ascii_character: byte, color_code },
                ),
            ),
            column: self.column + 1,
        }
    }

    /// The screen after one byte: a newline scrolls, any other byte is put at
    /// the cursor, after a scroll where the bottom row is full.
    pub open spec fn write_byte(self, byte: u8, color_code: ColorCode) -> Screen {
        if byte == NEWLINE {
            self.new_line(color_code)
        } else if self.column >= BUFFER_WIDTH {
            self.new_line(color_code).put(byte, color_code)
        } else {
            self.put(byte, color_code)
        }
    }

    /// The screen after the bytes of a text, each shown as `displayed` says.
    pub open spec fn write_bytes(self, bytes: Seq<u8>, color_code: ColorCode) -> Screen
        decreases bytes.len(),
    {
        if bytes.len() == 0 {
            self
        } else {
            self.write_bytes(bytes.drop_last(), color_code).write_byte(
                displayed(bytes.last()),
                color_code,
            )
        }
    }
}

/// Writes bytes to the bottom row of the screen and scrolls when the row is
/// full or a newline comes.
pub struct Writer {
    column_pos: usize,
    color_code: ColorCode,
    buffer: Vec<ScreenChar>,
}

impl View for Writer {
    type V = Screen;

    closed spec fn view(&self) -> Screen {
        Screen {
            rows: Seq::new(
                BUFFER_HEIGHT as nat,
                |row: int| Seq::new(BUFFER_WIDTH as nat, |col: int| self.buffer@[row * BUFFER_WIDTH + col]),
            ),
            column: self.column_pos as nat,
        }
    }
}

impl Writer {
    /// The buffer holds every cell of the screen and the cursor is in range.
    pub closed spec fn wf(&self) -> bool {
        &&& self.buffer@.len() == BUFFER_HEIGHT * BUFFER_WIDTH
        &&& self.column_pos <= BUFFER_WIDTH
    }

    /// The colours in which this writer writes.
    pub closed spec fn color(&self) -> ColorCode {
        self.color_code
    }

    /// A writer on a screen of spaces.
    pub fn new(color_code: ColorCode) -> (writer: Writer)
        ensures
            writer.wf(),
            writer.color() == color_code,
            writer@ == Screen::cleared(color_code),
            writer@.wf(),
    {
        let space = ScreenChar { ascii_character: SPACE, color_code };
        let mut buffer: Vec<ScreenChar> = Vec::new();
        let mut i: usize = 0;
        while i < BUFFER_HEIGHT * BUFFER_WIDTH
            invariant
                i <= BUFFER_HEIGHT * BUFFER_WIDTH,
                buffer@.len() == i,
                space == blank(color_code),
                forall|k: int| 0 <= k < i ==> buffer@[k] == space,
            decreases BUFFER_HEIGHT * BUFFER_WIDTH - i,
        {
            buffer.push(space);
            i += 1;
        }
        let writer = Writer { column_pos: 0, color_code, buffer };
        proof {
            let shown = writer@;
            let wanted = Screen::cleared(color_code);
            assert forall|row: int| 0 <= row < BUFFER_HEIGHT implies shown.rows[row]
                == wanted.rows[row] by {
                assert forall|col: int| 0 <= col < BUFFER_WIDTH implies shown.rows[row][col]
                    == wanted.rows[row][col] by {
                    lemma_cell_index(row, col);
                }
                assert(shown.rows[row] =~= wanted.rows[row]);
            }
            assert(shown.rows =~= wanted.rows);
        }
        writer
    }

    /// The column at which the next byte is put.
    pub fn column_position(&self) -> (column: usize)
        requires
            self.wf(),
        ensures
            column == self@.column,
            column <= BUFFER_WIDTH,
    {
        self.column_pos
    }

    /// The colours in which this writer writes.
    pub fn color_code(&self) -> (code: ColorCode)
        ensures
            code == self.color(),
    {
        self.color_code
    }

    /// The cell at `row` and `col`.
    pub fn read(&self, row: usize, col: usize) -> (cell: ScreenChar)
        requires
            self.wf(),
            row < BUFFER_HEIGHT,
            col < BUFFER_WIDTH,
        ensures
            cell == self@.rows[row as int][col as int],
    {
        proof {
            lemma_cell_index(row as int, col as int);
        }
        self.buffer[row * BUFFER_WIDTH + col]
    }

    /// Overwrites `row` with spaces in the writer's colours.
    pub fn clear_row(&mut self, row: usize)
        requires
            old(self).wf(),
            row < BUFFER_HEIGHT,
        ensures
            final(self).wf(),
            final(self).color() == old(self).color(),
            final(self)@ == old(self)@.clear_row(row as int, old(self).color()),
            final(self)@.wf(),
    {
        let space = ScreenChar { ascii_character: SPACE, color_code: self.color_code };
        let start: usize = row * BUFFER_WIDTH;
        let mut col: usize = 0;
        while col < BUFFER_WIDTH
            invariant
                col <= BUFFER_WIDTH,
                row < BUFFER_HEIGHT,
                start == row * BUFFER_WIDTH,
                space == blank(old(self).color_code),
                self.column_pos == old(self).column_pos,
                self.color_code == old(self).color_code,
                self.buffer@.len() == BUFFER_HEIGHT * BUFFER_WIDTH,
                forall|k: int| start <= k < start + col ==> self.buffer@[k] == space,
                forall|k: int|
                    0 <= k < BUFFER_HEIGHT * BUFFER_WIDTH && !(start <= k < start + col)
                        ==> self.buffer@[k] == old(self).buffer@[k],
            decreases BUFFER_WIDTH - col,
        {
            self.buffer.set(start + col, space);
            col += 1;
        }
        proof {
            let shown = self@;
            let wanted = old(self)@.clear_row(row as int, old(self).color());
            assert forall|r: int| 0 <= r < BUFFER_HEIGHT implies shown.rows[r] == wanted.rows[r] by {
                assert forall|c: int| 0 <= c < BUFFER_WIDTH implies shown.rows[r][c]
                    == wanted.rows[r][c] by {
                    lemma_cell_index(r, c);
                    lemma_cell_row(r, c, row as int);
                }
                assert(shown.rows[r] =~= wanted.rows[r]);
            }
            assert(shown.rows =~= wanted.rows);
        }
    }

    /// Moves every row up by one, clears the bottom row and puts the cursor
    /// at its left.
    pub fn new_line(&mut self)
        requires
            old(self).wf(),
        ensures
            final(self).wf(),
            final(self).color() == old(self).color(),
            final(self)@ == old(self)@.new_line(old(self).color()),
            final(self)@.wf(),
    {
        let mut row: usize = 1;
        while row < BUFFER_HEIGHT
            invariant
                1 <= row <= BUFFER_HEIGHT,
                self.column_pos == old(self).column_pos,
                self.color_code == old(self).color_code,
                self.buffer@.len() == BUFFER_HEIGHT * BUFFER_WIDTH,
                forall|k: int|
                    0 <= k < (row - 1) * BUFFER_WIDTH ==> self.buffer@[k] == old(self).buffer@[k
                        + BUFFER_WIDTH],
                forall|k: int|
                    (row - 1) * BUFFER_WIDTH <= k < BUFFER_HEIGHT * BUFFER_WIDTH
                        ==> self.buffer@[k] == old(self).buffer@[k],
            decreases BUFFER_HEIGHT - row,
        {
            let mut col: usize = 0;
            while col < BUFFER_WIDTH
                invariant
                    1 <= row < BUFFER_HEIGHT,
                    col <= BUFFER_WIDTH,
                    self.column_pos == old(self).column_pos,
                    self.color_code == old(self).color_code,
                    self.buffer@.len() == BUFFER_HEIGHT * BUFFER_WIDTH,
                    forall|k: int|
                        0 <= k < (row - 1) * BUFFER_WIDTH + col ==> self.buffer@[k] == old(
                            self,
                        ).buffer@[k + BUFFER_WIDTH],
                    forall|k: int|
                        (row - 1) * BUFFER_WIDTH + col <= k < BUFFER_HEIGHT * BUFFER_WIDTH
                            ==> self.buffer@[k] == old(self).buffer@[k],
                decreases BUFFER_WIDTH - col,
            {
                let character = self.buffer[row * BUFFER_WIDTH + col];
                self.buffer.set((row - 1) * BUFFER_WIDTH + col, character);
                col += 1;
            }
            row += 1;
        }
        let ghost moved = self@;
        self.clear_row(BUFFER_HEIGHT - 1);
        self.column_pos = 0;
        proof {
            let shown = self@;
            let wanted = old(self)@.new_line(old(self).color());
            assert forall|r: int| 0 <= r < BUFFER_HEIGHT implies shown.rows[r] == wanted.rows[r] by {
                if r < BUFFER_HEIGHT - 1 {
                    assert forall|c: int| 0 <= c < BUFFER_WIDTH implies shown.rows[r][c]
                        == wanted.rows[r][c] by {
                        lemma_cell_index(r, c);
                        lemma_cell_index(r + 1, c);
                        assert(moved.rows[r][c] == old(self).buffer@[r * BUFFER_WIDTH + c
                            + BUFFER_WIDTH]);
                    }
                    assert(shown.rows[r] =~= wanted.rows[r]);
                }
            }
            assert(shown.rows =~= wanted.rows);
        }
    }

    /// Writes one byte at the cursor. A newline scrolls the screen; any other
    /// byte goes to the bottom row, after a scroll where that row is full.
    pub fn write_byte(&mut self, byte: u8)
        requires
            old(self).wf(),
        ensures
            final(self).wf(),
            final(self).color() == old(self).color(),
            final(self)@ == old(self)@.write_byte(byte, old(self).color()),
            final(self)@.wf(),
    {
        if byte == NEWLINE {
            self.new_line();
        } else {
            if self.column_pos >= BUFFER_WIDTH {
                self.new_line();
            }
            let row: usize = BUFFER_HEIGHT - 1;
            let col: usize = self.column_pos;
            let color_code = self.color_code;
            let ghost before = self@;
            let ghost cells = self.buffer@;
            self.buffer.set(row * BUFFER_WIDTH + col, ScreenChar { ascii_character: byte, color_code });
            self.column_pos += 1;
            proof {
                let shown = self@;
                let wanted = before.put(byte, color_code);
                assert forall|r: int| 0 <= r < BUFFER_HEIGHT implies shown.rows[r]
                    == wanted.rows[r] by {
                    assert forall|c: int| 0 <= c < BUFFER_WIDTH implies shown.rows[r][c]
                        == wanted.rows[r][c] by {
                        lemma_cell_index(r, c);
                        lemma_cell_row(r, c, row as int);
                        assert(before.rows[r][c] == cells[r * BUFFER_WIDTH + c]);
                    }
                    assert(shown.rows[r] =~= wanted.rows[r]);
                }
                assert(shown.rows =~= wanted.rows);
            }
        }
    }

    /// Writes a text byte by byte. A byte that is neither printable ASCII nor
    /// a newline is shown as the placeholder.
    pub fn write_string(&mut self, s: &str)
        requires
            old(self).wf(),
        ensures
            final(self).wf(),
            final(self).color() == old(self).color(),
            final(self)@ == old(self)@.write_bytes(s.spec_bytes(), old(self).color()),
            final(self)@.wf(),
    {
        let bytes = s.as_bytes();
        let mut i: usize = 0;
        while i < bytes.len()
            invariant
                i <= bytes@.len(),
                bytes@ == s.spec_bytes(),
                self.wf(),
                self.color() == old(self).color(),
                self@ == old(self)@.write_bytes(bytes@.take(i as int), old(self).color()),
            decreases bytes@.len() - i,
        {
            let byte: u8 = bytes[i];
            proof {
                assert(bytes@.take(i + 1).drop_last() =~= bytes@.take(i as int));
                assert(bytes@.take(i + 1).last() == byte);
            }
            if (0x20 <= byte && byte <= 0x7e) || byte == NEWLINE {
                self.write_byte(byte);
            } else {
                self.write_byte(UNRECOGNIZED_CHAR);
            }
            i += 1;
        }
        proof {
            assert(bytes@.take(bytes@.len() as int) =~= bytes@);
        }
    }
}

/// The cell at `row` and `col` lies inside the buffer.
proof fn lemma_cell_index(row: int, col: int)
    requires
        0 <= row < BUFFER_HEIGHT,
        0 <= col < BUFFER_WIDTH,
    ensures
        0 <= row * BUFFER_WIDTH + col < BUFFER_HEIGHT * BUFFER_WIDTH,
{
}

/// A cell lies in the stretch of the buffer that holds `row` exactly when it
/// is a cell of `row`.
proof fn lemma_cell_row(r: int, c: int, row: int)
    requires
        0 <= r < BUFFER_HEIGHT,
        0 <= c < BUFFER_WIDTH,
        0 <= row < BUFFER_HEIGHT,
    ensures
        (row * BUFFER_WIDTH <= r * BUFFER_WIDTH + c < row * BUFFER_WIDTH + BUFFER_WIDTH) <==> r == row,
{
}

} // verus!
