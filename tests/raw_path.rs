use vga_text::{raw_print, Buffer, Color, ScreenChar, ColorCode};

#[test]
fn raw_print_hi_at_start() {
    let mut b = Buffer::new();
    raw_print(&mut b, 0x0F, b"Hi", 0);
    let bytes = b.as_bytes();
    assert_eq!(bytes[0], b'H');
    assert_eq!(bytes[1], 0x0F);
    assert_eq!(bytes[2], b'i');
    assert_eq!(bytes[3], 0x0F);
    for i in 4..24 {
        assert_eq!(bytes[i], 0x0F, "byte {}", i);
    }
    for i in 24..4000 {
        assert_eq!(bytes[i], 0, "byte {}", i);
    }
}

#[test]
fn raw_print_at_offset_leaves_rest_untouched() {
    let mut b = Buffer::new();
    b.write_cell(0, 0, ScreenChar { ascii_character: b'q', color_code: ColorCode::new(Color::White, Color::Black) });
    raw_print(&mut b, 0x2E, b"OK", 160);
    assert_eq!(b.char_at(0, 0), b'q');
    assert_eq!(b.attr_at(0, 0), 0x0F);
    assert_eq!(b.char_at(1, 0), b'O');
    assert_eq!(b.attr_at(1, 0), 0x2E);
    assert_eq!(b.char_at(1, 1), b'K');
    assert_eq!(b.byte_at(159), 0);
    assert_eq!(b.byte_at(184), 0);
}

#[test]
fn raw_print_full_span_fills_twelve_cells() {
    let mut b = Buffer::new();
    raw_print(&mut b, 0x07, b"abcdefghijkl", 3976);
    for i in 0..12 {
        assert_eq!(b.byte_at(3976 + 2 * i), b'a' + i as u8);
        assert_eq!(b.byte_at(3977 + 2 * i), 0x07);
    }
    assert_eq!(b.byte_at(3975), 0);
}

#[test]
fn raw_print_of_nothing_fills_span_with_color() {
    let mut b = Buffer::new();
    raw_print(&mut b, 0x1F, b"", 2);
    assert_eq!(b.byte_at(1), 0);
    for i in 2..26 {
        assert_eq!(b.byte_at(i), 0x1F);
    }
    assert_eq!(b.byte_at(26), 0);
}

#[test]
fn copy_and_fill_rows_work_on_whole_rows() {
    let mut b = Buffer::new();
    let cell = ScreenChar { ascii_character: b'#', color_code: ColorCode::new(Color::Cyan, Color::Black) };
    b.fill_row(3, cell);
    for col in 0..80 {
        assert_eq!(b.char_at(3, col), b'#');
        assert_eq!(b.attr_at(3, col), 0x03);
        assert_eq!(b.char_at(2, col), 0);
    }
    b.copy_row(7, 3);
    assert_eq!(b.char_at(7, 79), b'#');
    assert_eq!(b.attr_at(7, 0), 0x03);
    assert_eq!(b.char_at(8, 0), 0);
}
