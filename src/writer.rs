use vstd::prelude::*;
use vstd::string::StringSliceAdditionalSpecFns;
use crate::buffer::{fill_byte, fill_row, put_cell, Buffer, BUFFER_BYTES, BUFFER_HEIGHT, BUFFER_WIDTH, ROW_BYTES};
use crate::color::{Color, ColorCode, ScreenChar, pack};

verus! {

/// The byte that ends a line.
pub const NEWLINE: u8 = 0x0a;

/// The character of a blank cell.
pub const SPACE: u8 = 0x20;

/// The row that the writer appends to.
pub const LAST_ROW: usize = 24;

/// Offset of the first byte of the last row.
pub const LAST_ROW_START: usize = 3840;

/// Every row moved up by one, the top row lost, and the last row blank in `attr`.
pub open spec fn scrolled(s: Seq<u8>, attr: u8) -> Seq<u8> {
    Seq::new(
        s.len(),
        |i: int|
            if i < LAST_ROW_START {
                s[i + ROW_BYTES]
            } else {
                fill_byte(i, SPACE, attr)
            },
    )
}

/// Every cell of the grid is a space in `attr`.
pub open spec fn is_blank(s: Seq<u8>, attr: u8) -> bool {
    &&& s.len() == BUFFER_BYTES
    &&& forall|i: int| 0 <= i < BUFFER_BYTES ==> #[trigger] s[i] == fill_byte(i, SPACE, attr)
}

/// Grid and column after writing `byte` in `attr` to grid `s` at column `col`.
pub open spec fn write_step(s: Seq<u8>, col: int, attr: u8, byte: u8) -> (Seq<u8>, int) {
    if byte == NEWLINE {
        (scrolled(s, attr), 0)
    } else if col >= BUFFER_WIDTH {
        (put_cell(scrolled(s, attr), LAST_ROW as int, 0, byte, attr), 1)
    } else {
        (put_cell(s, LAST_ROW as int, col, byte, attr), col + 1)
    }
}

/// Grid and column after writing each of `bytes` in order.
pub open spec fn write_all(s: Seq<u8>, col: int, attr: u8, bytes: Seq<u8>) -> (Seq<u8>, int)
    decreases bytes.len(),
{
    if bytes.len() == 0 {
        (s, col)
    } else {
        let prev = write_all(s, col, attr, bytes.drop_last());
        write_step(prev.0, prev.1, attr, bytes.last())
    }
}

/// Appends text on the bottom row of a grid, scrolling when a line ends or the row is full.
pub struct Writer {
    column_position: usize,
    color_code: ColorCode,
    buffer: Buffer,
}

impl Writer {
    /// The column at which the next byte goes.
    pub closed spec fn column(&self) -> int {
        self.column_position as int
    }

    /// The attribute given to written cells.
    pub closed spec fn color(&self) -> ColorCode {
        self.color_code
    }

    /// The bytes of the grid.
    pub closed spec fn screen(&self) -> Seq<u8> {
        self.buffer@
    }

    /// The column stays within the row, and the grid has its full size.
    pub open spec fn wf(&self) -> bool {
        &&& 0 <= self.column() <= BUFFER_WIDTH
        &&& self.screen().len() == BUFFER_BYTES
    }

    /// A writer over `buffer`, at column 0, writing light green on black.
    pub fn new(buffer: Buffer) -> (r: Writer)
        requires
            buffer.wf(),
        ensures
            r.wf(),
            r.column() == 0,
            r.color().value() == pack(Color::LightGreen, Color::Black),
            r.screen() == buffer@,
    {
        Writer { column_position: 0, color_code: ColorCode::new(Color::LightGreen, Color::Black), buffer }
    }

    /// The column at which the next byte goes.
    pub fn column_position(&self) -> (r: usize)
        ensures
            r == self.column(),
    {
        self.column_position
    }

    /// The current attribute.
    pub fn color_code(&self) -> (r: ColorCode)
        ensures
            r == self.color(),
    {
        self.color_code
    }

    /// Changes the attribute of cells written from now on.
    pub fn set_color(&mut self, foreground: Color, background: Color)
        ensures
            final(self).color().value() == pack(foreground, background),
            final(self).column() == old(self).column(),
            final(self).screen() == old(self).screen(),
    {
        self.color_code = ColorCode::new(foreground, background);
    }

    /// The grid, for reading.
    pub fn buffer(&self) -> (r: &Buffer)
        ensures
            r@ == self.screen(),
    {
        &self.buffer
    }

    /// Writes one byte: a newline scrolls; any other byte goes into the last row at the
    /// current column, after a scroll if the row is full.
    pub fn write_byte(&mut self, byte: u8)
        requires
            old(self).wf(),
        ensures
            final(self).wf(),
            final(self).color() == old(self).color(),
            (final(self).screen(), final(self).column()) == write_step(
                old(self).screen(),
                old(self).column(),
                old(self).color().value(),
                byte,
            ),
    {
        if byte == NEWLINE {
            self.new_line();
        } else {
            if self.column_position >= BUFFER_WIDTH {
                self.new_line();
            }
            let row = BUFFER_HEIGHT - 1;
            let col = self.column_position;
            let cell = ScreenChar { ascii_character: byte, color_code: self.color_code };
            self.buffer.write_cell(row, col, cell);
            self.column_position = self.column_position + 1;
        }
    }

    /// Writes each byte of `s` in order.
    pub fn write_str(&mut self, s: &str)
        requires
            old(self).wf(),
        ensures
            final(self).wf(),
            final(self).color() == old(self).color(),
            (final(self).screen(), final(self).column()) == write_all(
                old(self).screen(),
                old(self).column(),
                old(self).color().value(),
                s.spec_bytes(),
            ),
    {
        let bytes = s.as_bytes();
        let ghost s0 = self.screen();
        let ghost c0 = self.column();
        let mut i: usize = 0;
        while i < bytes.len()
            invariant
                i <= bytes@.len(),
                bytes@ == s.spec_bytes(),
                self.wf(),
                self.color() == old(self).color(),
                s0 == old(self).screen(),
                c0 == old(self).column(),
                (self.screen(), self.column()) == write_all(
                    s0,
                    c0,
                    self.color().value(),
                    bytes@.take(i as int),
                ),
            decreases bytes@.len() - i,
        {
            assert(bytes@.take(i + 1).drop_last() =~= bytes@.take(i as int));
            self.write_byte(bytes[i]);
            i = i + 1;
        }
        assert(bytes@.take(bytes@.len() as int) =~= bytes@);
    }

    /// Moves every row up by one, blanks the last row and returns to column 0.
    pub fn new_line(&mut self)
        requires
            old(self).wf(),
        ensures
            final(self).wf(),
            final(self).column() == 0,
            final(self).color() == old(self).color(),
            final(self).screen() == scrolled(old(self).screen(), old(self).color().value()),
    {
        let ghost before = self.screen();
        let mut row: usize = 0;
        while row < BUFFER_HEIGHT - 1
            invariant
                row <= BUFFER_HEIGHT - 1,
                self.column() == old(self).column(),
                self.color() == old(self).color(),
                before == old(self).screen(),
                before.len() == BUFFER_BYTES,
                self.screen().len() == BUFFER_BYTES,
                forall|i: int|
                    0 <= i < BUFFER_BYTES ==> #[trigger] self.screen()[i] == if i < row
                        * ROW_BYTES {
                        before[i + ROW_BYTES]
                    } else {
                        before[i]
                    },
            decreases BUFFER_HEIGHT - 1 - row,
        {
            self.buffer.copy_row(row, row + 1);
            row = row + 1;
        }
        self.clear_row(BUFFER_HEIGHT - 1);
        self.column_position = 0;
        assert(self.screen() =~= scrolled(before, self.color().value()));
    }

    /// Sets every cell of row `row` to a space in the current attribute.
    pub fn clear_row(&mut self, row: usize)
        requires
            old(self).wf(),
            row < BUFFER_HEIGHT,
        ensures
            final(self).wf(),
            final(self).column() == old(self).column(),
            final(self).color() == old(self).color(),
            final(self).screen() == fill_row(
                old(self).screen(),
                row as int,
                SPACE,
                old(self).color().value(),
            ),
    {
        let blank = ScreenChar { ascii_character: SPACE, color_code: self.color_code };
        self.buffer.fill_row(row, blank);
    }
}

/// Writes `BUFFER_HEIGHT` newlines, which leaves every cell a space in the current
/// attribute and the column at 0, whatever the grid held before.
pub fn clear_screen(writer: &mut Writer)
    requires
        old(writer).wf(),
    ensures
        final(writer).wf(),
        final(writer).column() == 0,
        final(writer).color() == old(writer).color(),
        is_blank(final(writer).screen(), old(writer).color().value()),
{
    let ghost attr = writer.color().value();
    let mut n: usize = 0;
    while n < BUFFER_HEIGHT
        invariant
            n <= BUFFER_HEIGHT,
            writer.wf(),
            writer.color() == old(writer).color(),
            attr == writer.color().value(),
            n > 0 ==> writer.column() == 0,
            forall|i: int|
                (BUFFER_HEIGHT - n) * ROW_BYTES <= i < BUFFER_BYTES ==> #[trigger] writer.screen()[i]
                    == fill_byte(i, SPACE, attr),
        decreases BUFFER_HEIGHT - n,
    {
        writer.write_byte(NEWLINE);
        n = n + 1;
    }
}

} // verus!
