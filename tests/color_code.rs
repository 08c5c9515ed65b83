use vga_text::{Color, ColorCode, ScreenChar};

const PALETTE: [Color; 16] = [
    Color::Black,
    Color::Blue,
    Color::Green,
    Color::Cyan,
    Color::Red,
    Color::Magenta,
    Color::Brown,
    Color::LightGray,
    Color::DarkGray,
    Color::LightBlue,
    Color::LightGreen,
    Color::LightCyan,
    Color::LightRed,
    Color::Pink,
    Color::Yellow,
    Color::White,
];

#[test]
fn light_green_on_black_packs_to_0x0a() {
    assert_eq!(ColorCode::new(Color::LightGreen, Color::Black).as_u8(), 0x0A);
}

#[test]
fn white_on_blue_packs_to_0x1f() {
    assert_eq!(ColorCode::new(Color::White, Color::Blue).as_u8(), 0x1F);
}

#[test]
fn background_goes_in_high_nibble() {
    assert_eq!(ColorCode::new(Color::Black, Color::Yellow).as_u8(), 0xE0);
    assert_eq!(ColorCode::new(Color::Pink, Color::Red).as_u8(), 0x4D);
}

#[test]
fn palette_indices_follow_hardware_order() {
    for (i, c) in PALETTE.iter().enumerate() {
        assert_eq!(c.index() as usize, i);
        assert_eq!(Color::from_index(i as u8), *c);
    }
}

#[test]
fn packing_round_trips_for_every_pair() {
    for fg in PALETTE.iter() {
        for bg in PALETTE.iter() {
            let code = ColorCode::new(*fg, *bg);
            assert_eq!(code.foreground(), *fg);
            assert_eq!(code.background(), *bg);
            assert_eq!(code.as_u8(), (bg.index() << 4) | fg.index());
        }
    }
}

#[test]
fn packing_is_injective_over_the_palette() {
    let mut seen = [false; 256];
    for fg in PALETTE.iter() {
        for bg in PALETTE.iter() {
            let v = ColorCode::new(*fg, *bg).as_u8() as usize;
            assert!(!seen[v]);
            seen[v] = true;
        }
    }
    assert!(seen.iter().all(|b| *b));
}

#[test]
fn cell_bytes_put_character_first() {
    let cell = ScreenChar {
        ascii_character: b'H',
        color_code: ColorCode::new(Color::LightGreen, Color::Black),
    };
    assert_eq!(cell.to_bytes(), (b'H', 0x0A));
}
