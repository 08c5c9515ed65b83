use vstd::prelude::*;
use crate::buffer::{cell_offset, put_cell, BUFFER_BYTES, BUFFER_WIDTH, ROW_BYTES};
use crate::color::{background_of, color_index, color_of_index, foreground_of, pack, Color};
use crate::writer::{scrolled, write_all, write_step, LAST_ROW, NEWLINE};

verus! {

/// Decoding a packed attribute gives back the foreground and background it was packed from.
pub proof fn lemma_color_code_round_trip(foreground: Color, background: Color)
    ensures
        foreground_of(pack(foreground, background)) == foreground,
        background_of(pack(foreground, background)) == background,
{
    let f = color_index(foreground);
    let b = color_index(background);
    assert(color_of_index(f) == foreground);
    assert(color_of_index(b) == background);
    assert((b * 16 + f) % 16 == f && (b * 16 + f) / 16 == b) by (nonlinear_arith)
        requires
            f < 16,
            b < 16,
    ;
}

/// Distinct palette pairs pack to distinct attribute bytes.
pub proof fn lemma_pack_injective(f1: Color, b1: Color, f2: Color, b2: Color)
    requires
        pack(f1, b1) == pack(f2, b2),
    ensures
        f1 == f2,
        b1 == b2,
{
    lemma_color_code_round_trip(f1, b1);
    lemma_color_code_round_trip(f2, b2);
}

/// A newline scrolls and returns to column 0, at any column.
pub proof fn lemma_newline_scrolls(s: Seq<u8>, col: int, attr: u8)
    ensures
        write_step(s, col, attr, NEWLINE) == (scrolled(s, attr), 0int),
{
}

/// Bytes without a newline that fit in the rest of the row read back, in order, from the
/// last row starting at the current column; the column advances by their count and no
/// other byte of the grid changes.
pub proof fn lemma_short_write_reads_back(s: Seq<u8>, col: int, attr: u8, bytes: Seq<u8>)
    requires
        s.len() == BUFFER_BYTES,
        0 <= col,
        col + bytes.len() <= BUFFER_WIDTH,
        forall|k: int| 0 <= k < bytes.len() ==> bytes[k] != NEWLINE,
    ensures
        write_all(s, col, attr, bytes).1 == col + bytes.len(),
        write_all(s, col, attr, bytes).0.len() == BUFFER_BYTES,
        forall|k: int|
            0 <= k < bytes.len() ==> #[trigger] write_all(s, col, attr, bytes).0[cell_offset(
                LAST_ROW as int,
                col + k,
            )] == bytes[k] && write_all(s, col, attr, bytes).0[cell_offset(LAST_ROW as int, col + k)
                + 1] == attr,
        forall|i: int|
            0 <= i < BUFFER_BYTES && !(cell_offset(LAST_ROW as int, col) <= i < cell_offset(
                LAST_ROW as int,
                col + bytes.len(),
            )) ==> #[trigger] write_all(s, col, attr, bytes).0[i] == s[i],
    decreases bytes.len(),
{
    if bytes.len() > 0 {
        let init = bytes.drop_last();
        assert forall|k: int| 0 <= k < init.len() implies init[k] != NEWLINE by {
            assert(init[k] == bytes[k]);
        };
        lemma_short_write_reads_back(s, col, attr, init);
        let prev = write_all(s, col, attr, init);
        assert(bytes.last() == bytes[bytes.len() - 1]);
        assert(write_all(s, col, attr, bytes) == write_step(prev.0, prev.1, attr, bytes.last()));
        assert forall|k: int| 0 <= k < bytes.len() - 1 implies init[k] == bytes[k] by {};
    }
}

/// After a full row of bytes without a newline, one more byte scrolls exactly once: it
/// lands at column 0 of the last row, the full row sits one row up, and every row above
/// holds what was one row below it before.
pub proof fn lemma_wrap_scrolls_once(s: Seq<u8>, attr: u8, bytes: Seq<u8>)
    requires
        s.len() == BUFFER_BYTES,
        bytes.len() == BUFFER_WIDTH + 1,
        forall|k: int| 0 <= k < bytes.len() ==> bytes[k] != NEWLINE,
    ensures
        write_all(s, 0, attr, bytes).1 == 1,
        write_all(s, 0, attr, bytes).0 == put_cell(
            scrolled(write_all(s, 0, attr, bytes.take(BUFFER_WIDTH as int)).0, attr),
            LAST_ROW as int,
            0,
            bytes[BUFFER_WIDTH as int],
            attr,
        ),
        write_all(s, 0, attr, bytes).0[cell_offset(LAST_ROW as int, 0)] == bytes[BUFFER_WIDTH as int],
        forall|k: int|
            0 <= k < BUFFER_WIDTH ==> #[trigger] write_all(s, 0, attr, bytes).0[cell_offset(
                LAST_ROW - 1,
                k,
            )] == bytes[k],
        forall|i: int|
            0 <= i < cell_offset(LAST_ROW - 1, 0) ==> #[trigger] write_all(s, 0, attr, bytes).0[i]
                == s[i + ROW_BYTES],
{
    let row = bytes.take(BUFFER_WIDTH as int);
    assert(bytes.drop_last() =~= row);
    assert forall|k: int| 0 <= k < row.len() implies row[k] != NEWLINE by {
        assert(row[k] == bytes[k]);
    };
    lemma_short_write_reads_back(s, 0, attr, row);
    let full = write_all(s, 0, attr, row);
    assert(bytes.last() == bytes[BUFFER_WIDTH as int]);
    assert(write_all(s, 0, attr, bytes) == write_step(full.0, full.1, attr, bytes.last()));
    let t = write_all(s, 0, attr, bytes).0;
    assert forall|k: int| 0 <= k < BUFFER_WIDTH implies #[trigger] t[cell_offset(
        LAST_ROW - 1,
        k,
    )] == bytes[k] by {
        assert(full.0[cell_offset(LAST_ROW as int, 0 + k)] == row[k]);
    };
    assert forall|i: int| 0 <= i < cell_offset(LAST_ROW - 1, 0) implies #[trigger] t[i] == s[i
        + ROW_BYTES] by {
        assert(full.0[i + ROW_BYTES] == s[i + ROW_BYTES]);
    };
}

} // verus!
