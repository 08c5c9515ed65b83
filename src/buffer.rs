use vstd::prelude::*;
use crate::color::ScreenChar;

verus! {

/// Rows on screen.
pub const BUFFER_HEIGHT: usize = 25;

/// Columns on screen.
pub const BUFFER_WIDTH: usize = 80;

/// Bytes in one row: two per cell, no padding.
pub const ROW_BYTES: usize = 160;

/// Bytes in the whole grid.
pub const BUFFER_BYTES: usize = 4000;

/// Cells that one raw positional print covers.
pub const RAW_PRINT_CELLS: usize = 12;

/// Bytes that one raw positional print covers.
pub const RAW_PRINT_BYTES: usize = 24;

/// Byte offset of the character byte of cell (`row`, `col`); its attribute follows it.
pub open spec fn cell_offset(row: int, col: int) -> int {
    2 * (row * BUFFER_WIDTH + col)
}

/// The byte at offset `i` of a row filled with the cell (`ch`, `attr`).
pub open spec fn fill_byte(i: int, ch: u8, attr: u8) -> u8 {
    if i % 2 == 0 {
        ch
    } else {
        attr
    }
}

/// `s` with cell (`row`, `col`) set to (`ch`, `attr`).
pub open spec fn put_cell(s: Seq<u8>, row: int, col: int, ch: u8, attr: u8) -> Seq<u8> {
    s.update(cell_offset(row, col), ch).update(cell_offset(row, col) + 1, attr)
}

/// `s` with row `dst` holding a copy of row `src`.
pub open spec fn copy_row(s: Seq<u8>, dst: int, src: int) -> Seq<u8> {
    Seq::new(
        s.len(),
        |i: int|
            if dst * ROW_BYTES <= i < dst * ROW_BYTES + ROW_BYTES {
                s[i - dst * ROW_BYTES + src * ROW_BYTES]
            } else {
                s[i]
            },
    )
}

/// `s` with every cell of row `row` set to (`ch`, `attr`).
pub open spec fn fill_row(s: Seq<u8>, row: int, ch: u8, attr: u8) -> Seq<u8> {
    Seq::new(
        s.len(),
        |i: int|
            if row * ROW_BYTES <= i < row * ROW_BYTES + ROW_BYTES {
                fill_byte(i, ch, attr)
            } else {
                s[i]
            },
    )
}

/// The bytes that a raw positional print of `text` in color `attr` at byte offset `pos`
/// leaves: characters at the even offsets of the span, `attr` everywhere else in it.
pub open spec fn raw_printed(s: Seq<u8>, attr: u8, text: Seq<u8>, pos: int) -> Seq<u8> {
    Seq::new(
        s.len(),
        |i: int|
            if pos <= i < pos + RAW_PRINT_BYTES {
                if (i - pos) % 2 == 0 && (i - pos) / 2 < text.len() {
                    text[(i - pos) / 2]
                } else {
                    attr
                }
            } else {
                s[i]
            },
    )
}

/// The character grid in its hardware layout: row-major, two bytes per cell.
pub struct Buffer {
    bytes: Vec<u8>,
}

impl View for Buffer {
    type V = Seq<u8>;

    closed spec fn view(&self) -> Seq<u8> {
        self.bytes@
    }
}

impl Buffer {
    /// The grid holds exactly one byte pair per cell.
    pub open spec fn wf(&self) -> bool {
        self@.len() == BUFFER_BYTES
    }

    /// A grid whose bytes are all zero.
    pub fn new() -> (r: Buffer)
        ensures
            r.wf(),
            r@ == Seq::new(BUFFER_BYTES as nat, |i: int| 0u8),
    {
        let mut bytes: Vec<u8> = Vec::new();
        let mut i: usize = 0;
        while i < BUFFER_BYTES
            invariant
                i <= BUFFER_BYTES,
                bytes@ == Seq::new(i as nat, |k: int| 0u8),
            decreases BUFFER_BYTES - i,
        {
            bytes.push(0u8);
            i = i + 1;
        }
        Buffer { bytes }
    }

    /// The byte at offset `i`.
    pub fn byte_at(&self, i: usize) -> (r: u8)
        requires
            i < self@.len(),
        ensures
            r == self@[i as int],
    {
        self.bytes[i]
    }

    /// The character byte of cell (`row`, `col`).
    pub fn char_at(&self, row: usize, col: usize) -> (r: u8)
        requires
            self.wf(),
            row < BUFFER_HEIGHT,
            col < BUFFER_WIDTH,
        ensures
            r == self@[cell_offset(row as int, col as int)],
    {
        self.bytes[2 * (row * BUFFER_WIDTH + col)]
    }

    /// The attribute byte of cell (`row`, `col`).
    pub fn attr_at(&self, row: usize, col: usize) -> (r: u8)
        requires
            self.wf(),
            row < BUFFER_HEIGHT,
            col < BUFFER_WIDTH,
        ensures
            r == self@[cell_offset(row as int, col as int) + 1],
    {
        self.bytes[2 * (row * BUFFER_WIDTH + col) + 1]
    }

    /// All bytes of the grid, as the hardware lays them out.
    pub fn as_bytes(&self) -> (r: &[u8])
        ensures
            r@ == self@,
    {
        self.bytes.as_slice()
    }

    /// Stores `cell` at (`row`, `col`).
    pub fn write_cell(&mut self, row: usize, col: usize, cell: ScreenChar)
        requires
            old(self).wf(),
            row < BUFFER_HEIGHT,
            col < BUFFER_WIDTH,
        ensures
            final(self)@ == put_cell(
                old(self)@,
                row as int,
                col as int,
                cell.ascii_character,
                cell.color_code.value(),
            ),
    {
        let (ch, attr) = cell.to_bytes();
        let offset = 2 * (row * BUFFER_WIDTH + col);
        self.bytes.set(offset, ch);
        self.bytes.set(offset + 1, attr);
    }

    /// Overwrites row `dst` with the contents of row `src`.
    pub fn copy_row(&mut self, dst: usize, src: usize)
        requires
            old(self).wf(),
            dst < BUFFER_HEIGHT,
            src < BUFFER_HEIGHT,
            dst != src,
        ensures
            final(self)@ == copy_row(old(self)@, dst as int, src as int),
    {
        let ghost before = self.bytes@;
        let dst_start = dst * ROW_BYTES;
        let src_start = src * ROW_BYTES;
        let mut j: usize = 0;
        while j < ROW_BYTES
            invariant
                j <= ROW_BYTES,
                dst < BUFFER_HEIGHT,
                src < BUFFER_HEIGHT,
                dst != src,
                dst_start == dst * ROW_BYTES,
                src_start == src * ROW_BYTES,
                before.len() == BUFFER_BYTES,
                self.bytes@.len() == BUFFER_BYTES,
                forall|i: int|
                    0 <= i < BUFFER_BYTES ==> #[trigger] self.bytes@[i] == if dst_start <= i
                        < dst_start + j {
                        before[i - dst_start + src_start]
                    } else {
                        before[i]
                    },
            decreases ROW_BYTES - j,
        {
            let b = self.bytes[src_start + j];
            self.bytes.set(dst_start + j, b);
            j = j + 1;
        }
        assert(self.bytes@ =~= copy_row(before, dst as int, src as int));
    }

    /// Sets every cell of row `row` to `cell`.
    pub fn fill_row(&mut self, row: usize, cell: ScreenChar)
        requires
            old(self).wf(),
            row < BUFFER_HEIGHT,
        ensures
            final(self)@ == fill_row(
                old(self)@,
                row as int,
                cell.ascii_character,
                cell.color_code.value(),
            ),
    {
        let ghost before = self.bytes@;
        let ghost ch = cell.ascii_character;
        let ghost attr = cell.color_code.value();
        let start = row * ROW_BYTES;
        let mut col: usize = 0;
        while col < BUFFER_WIDTH
            invariant
                col <= BUFFER_WIDTH,
                row < BUFFER_HEIGHT,
                start == row * ROW_BYTES,
                ch == cell.ascii_character,
                attr == cell.color_code.value(),
                before.len() == BUFFER_BYTES,
                self@.len() == BUFFER_BYTES,
                forall|i: int|
                    0 <= i < BUFFER_BYTES ==> #[trigger] self@[i] == if start <= i < start + 2
                        * col {
                        fill_byte(i, ch, attr)
                    } else {
                        before[i]
                    },
            decreases BUFFER_WIDTH - col,
        {
            self.write_cell(row, col, cell);
            col = col + 1;
        }
        assert(self@ =~= fill_row(before, row as int, ch, attr));
    }
}

/// Writes `string` straight into `buffer` at byte offset `position`, in color `color_code`,
/// bypassing any writer: a span of twelve cells whose character bytes come from `string`
/// and whose other bytes hold `color_code`.
pub fn raw_print(buffer: &mut Buffer, color_code: u8, string: &[u8], position: i64)
    requires
        old(buffer).wf(),
        string@.len() <= RAW_PRINT_CELLS,
        0 <= position,
        position + RAW_PRINT_BYTES <= BUFFER_BYTES,
    ensures
        final(buffer)@ == raw_printed(old(buffer)@, color_code, string@, position as int),
{
    let mut output_colored: Vec<u8> = Vec::new();
    let mut k: usize = 0;
    while k < RAW_PRINT_BYTES
        invariant
            k <= RAW_PRINT_BYTES,
            output_colored@ == Seq::new(k as nat, |i: int| color_code),
        decreases RAW_PRINT_BYTES - k,
    {
        output_colored.push(color_code);
        k = k + 1;
    }
    let mut n: usize = 0;
    while n < string.len()
        invariant
            n <= string@.len(),
            string@.len() <= RAW_PRINT_CELLS,
            output_colored@.len() == RAW_PRINT_BYTES,
            forall|i: int|
                0 <= i < RAW_PRINT_BYTES ==> #[trigger] output_colored@[i] == if i % 2 == 0 && i
                    / 2 < n {
                    string@[i / 2]
                } else {
                    color_code
                },
        decreases string@.len() - n,
    {
        output_colored.set(n * 2, string[n]);
        n = n + 1;
    }
    let ghost before = buffer@;
    let start = position as usize;
    let mut j: usize = 0;
    while j < RAW_PRINT_BYTES
        invariant
            j <= RAW_PRINT_BYTES,
            start == position,
            start + RAW_PRINT_BYTES <= BUFFER_BYTES,
            output_colored@.len() == RAW_PRINT_BYTES,
            before.len() == BUFFER_BYTES,
            buffer@.len() == BUFFER_BYTES,
            forall|i: int|
                0 <= i < BUFFER_BYTES ==> #[trigger] buffer@[i] == if start <= i < start + j {
                    output_colored@[i - start]
                } else {
                    before[i]
                },
        decreases RAW_PRINT_BYTES - j,
    {
        buffer.bytes.set(start + j, output_colored[j]);
        j = j + 1;
    }
    assert(buffer@ =~= raw_printed(before, color_code, string@, position as int));
}

} // verus!
