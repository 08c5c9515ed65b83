use vstd::prelude::*;

verus! {

/// The sixteen entries of the text-mode palette, in hardware order.
#[derive(Clone, Copy, Debug, PartialEq, Eq, Structural)]
pub enum Color {
    Black,
    Blue,
    Green,
    Cyan,
    Red,
    Magenta,
    Brown,
    LightGray,
    DarkGray,
    LightBlue,
    LightGreen,
    LightCyan,
    LightRed,
    Pink,
    Yellow,
    White,
}

/// The 4-bit palette index the hardware uses for a color.
pub open spec fn color_index(c: Color) -> u8 {
    match c {
        Color::Black => 0,
        Color::Blue => 1,
        Color::Green => 2,
        Color::Cyan => 3,
        Color::Red => 4,
        Color::Magenta => 5,
        Color::Brown => 6,
        Color::LightGray => 7,
        Color::DarkGray => 8,
        Color::LightBlue => 9,
        Color::LightGreen => 10,
        Color::LightCyan => 11,
        Color::LightRed => 12,
        Color::Pink => 13,
        Color::Yellow => 14,
        Color::White => 15,
    }
}

/// The color with palette index `n`; meaningful for `n < 16`.
pub open spec fn color_of_index(n: u8) -> Color {
    if n == 0 {
        Color::Black
    } else if n == 1 {
        Color::Blue
    } else if n == 2 {
        Color::Green
    } else if n == 3 {
        Color::Cyan
    } else if n == 4 {
        Color::Red
    } else if n == 5 {
        Color::Magenta
    } else if n == 6 {
        Color::Brown
    } else if n == 7 {
        Color::LightGray
    } else if n == 8 {
        Color::DarkGray
    } else if n == 9 {
        Color::LightBlue
    } else if n == 10 {
        Color::LightGreen
    } else if n == 11 {
        Color::LightCyan
    } else if n == 12 {
        Color::LightRed
    } else if n == 13 {
        Color::Pink
    } else if n == 14 {
        Color::Yellow
    } else {
        Color::White
    }
}

/// The packed attribute byte: background in the high nibble, foreground in the low one.
pub open spec fn pack(foreground: Color, background: Color) -> u8 {
    (color_index(background) * 16 + color_index(foreground)) as u8
}

/// The foreground color that an attribute byte selects.
pub open spec fn foreground_of(attr: u8) -> Color {
    color_of_index(attr % 16)
}

/// The background color that an attribute byte selects.
pub open spec fn background_of(attr: u8) -> Color {
    color_of_index(attr / 16)
}

impl Color {
    /// Palette index of this color.
    pub fn index(self) -> (r: u8)
        ensures
            r == color_index(self),
            r < 16,
    {
        match self {
            Color::Black => 0,
            Color::Blue => 1,
            Color::Green => 2,
            Color::Cyan => 3,
            Color::Red => 4,
            Color::Magenta => 5,
            Color::Brown => 6,
            Color::LightGray => 7,
            Color::DarkGray => 8,
            Color::LightBlue => 9,
            Color::LightGreen => 10,
            Color::LightCyan => 11,
            Color::LightRed => 12,
            Color::Pink => 13,
            Color::Yellow => 14,
            Color::White => 15,
        }
    }

    /// The color with palette index `n`.
    pub fn from_index(n: u8) -> (r: Color)
        requires
            n < 16,
        ensures
            r == color_of_index(n),
            color_index(r) == n,
    {
        if n == 0 {
            Color::Black
        } else if n == 1 {
            Color::Blue
        } else if n == 2 {
            Color::Green
        } else if n == 3 {
            Color::Cyan
        } else if n == 4 {
            Color::Red
        } else if n == 5 {
            Color::Magenta
        } else if n == 6 {
            Color::Brown
        } else if n == 7 {
            Color::LightGray
        } else if n == 8 {
            Color::DarkGray
        } else if n == 9 {
            Color::LightBlue
        } else if n == 10 {
            Color::LightGreen
        } else if n == 11 {
            Color::LightCyan
        } else if n == 12 {
            Color::LightRed
        } else if n == 13 {
            Color::Pink
        } else if n == 14 {
            Color::Yellow
        } else {
            Color::White
        }
    }
}

/// A packed foreground/background attribute byte.
#[derive(Clone, Copy, Debug, PartialEq, Eq, Structural)]
pub struct ColorCode(u8);

impl ColorCode {
    /// The attribute byte as the hardware reads it.
    pub closed spec fn value(self) -> u8 {
        self.0
    }

    /// Packs a palette pair as `(background << 4) | foreground`.
    pub fn new(foreground: Color, background: Color) -> (r: ColorCode)
        ensures
            r.value() == pack(foreground, background),
    {
        let f = foreground.index();
        let b = background.index();
        assert((b << 4u8) | f == b * 16 + f) by (bit_vector)
            requires
                b < 16,
                f < 16,
        ;
        ColorCode((b << 4u8) | f)
    }

    /// The attribute byte.
    pub fn as_u8(self) -> (r: u8)
        ensures
            r == self.value(),
    {
        self.0
    }

    /// The foreground color selected by the low nibble.
    pub fn foreground(self) -> (r: Color)
        ensures
            r == foreground_of(self.value()),
    {
        let v = self.0;
        assert(v & 15u8 == v % 16 && v & 15u8 < 16) by (bit_vector);
        Color::from_index(v & 15u8)
    }

    /// The background color selected by the high nibble.
    pub fn background(self) -> (r: Color)
        ensures
            r == background_of(self.value()),
    {
        let v = self.0;
        assert(v >> 4u8 == v / 16 && v >> 4u8 < 16) by (bit_vector);
        Color::from_index(v >> 4u8)
    }
}

/// One on-screen cell: the character byte, then its attribute byte.
#[derive(Clone, Copy, Debug, PartialEq, Eq, Structural)]
pub struct ScreenChar {
    pub ascii_character: u8,
    pub color_code: ColorCode,
}

impl ScreenChar {
    /// The two bytes of the cell in memory order: character first, attribute second.
    pub fn to_bytes(self) -> (r: (u8, u8))
        ensures
            r.0 == self.ascii_character,
            r.1 == self.color_code.value(),
    {
        (self.ascii_character, self.color_code.0)
    }
}

} // verus!
