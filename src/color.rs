use vstd::prelude::*;

verus! {

/// The sixteen colours of the text-mode palette.
#[derive(Clone, Copy, Debug, PartialEq, Eq, Structural)]
pub enum Color {
    Black,
    Blue,
    Green,
    Cyan,
    Red,
    Magenta,
    Brown,
    LightGrey,
    DarkGrey,
    LightBlue,
    LightGreen,
    LightCyan,
    LightRed,
    Pink,
    Yellow,
    White,
}

impl Color {
    /// The palette index of the colour, in `0..16`.
    pub open spec fn index(self) -> u8 {
        match self {
            Color::Black => 0,
            Color::Blue => 1,
            Color::Green => 2,
            Color::Cyan => 3,
            Color::Red => 4,
            Color::Magenta => 5,
            Color::Brown => 6,
            Color::LightGrey => 7,
            Color::DarkGrey => 8,
            Color::LightBlue => 9,
            Color::LightGreen => 10,
            Color::LightCyan => 11,
            Color::LightRed => 12,
            Color::Pink => 13,
            Color::Yellow => 14,
            Color::White => 15,
        }
    }

    /// The palette index of the colour.
    pub fn value(self) -> (r: u8)
        ensures
            r == self.index(),
            r < 16,
    {
        match self {
            Color::Black => 0,
            Color::Blue => 1,
            Color::Green => 2,
            Color::Cyan => 3,
            Color::Red => 4,
            Color::Magenta => 5,
            Color::Brown => 6,
            Color::LightGrey => 7,
            Color::DarkGrey => 8,
            Color::LightBlue => 9,
            Color::LightGreen => 10,
            Color::LightCyan => 11,
            Color::LightRed => 12,
            Color::Pink => 13,
            Color::Yellow => 14,
            Color::White => 15,
        }
    }
}

/// A packed attribute byte: background in the high nibble, foreground in
/// the low nibble. Every byte is a valid pair of palette indices.
#[derive(Clone, Copy, Debug, PartialEq, Eq, Structural)]
pub struct ColorCode(pub u8);

/// The attribute byte for a foreground and background colour.
pub open spec fn packed(fg: Color, bg: Color) -> u8 {
    (bg.index() * 16 + fg.index()) as u8
}

impl ColorCode {
    /// Packs a foreground and a background colour into one attribute byte.
    pub fn new(fg: Color, bg: Color) -> (r: ColorCode)
        ensures
            r.0 == packed(fg, bg),
            r.0 == (bg.index() << 4u8) | fg.index(),
    {
        let f = fg.value();
        let b = bg.value();
        let r = (b << 4u8) | f;
        assert(r == b * 16 + f && r == (b << 4u8) | f) by (bit_vector)
            requires
                f < 16,
                b < 16,
                r == (b << 4u8) | f,
        ;
        ColorCode(r)
    }

    /// The foreground palette index (low nibble).
    pub fn foreground(&self) -> (r: u8)
        ensures
            r == self.0 % 16,
    {
        self.0 % 16
    }

    /// The background palette index (high nibble).
    pub fn background(&self) -> (r: u8)
        ensures
            r == self.0 / 16,
    {
        self.0 / 16
    }
}

} // verus!
