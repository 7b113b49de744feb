//! VGA characters and colors.
use vstd::prelude::*;

verus! {

/// The color palette used by [`VGAChar`].
#[derive(Debug, Clone, Copy, PartialEq, Eq, Structural)]
pub enum Color {
    Black,
    Blue,
    Green,
    Cyan,
    Red,
    Purple,
    Brown,
    Grey,
    LightGrey,
    LightBlue,
    Lime,
    LightCyan,
    LightRed,
    Pink,
    Yellow,
    White,
}

/// The four bit value of a color.
pub open spec fn color_value(c: Color) -> u16 {
    match c {
        Color::Black => 0,
        Color::Blue => 1,
        Color::Green => 2,
        Color::Cyan => 3,
        Color::Red => 4,
        Color::Purple => 5,
        Color::Brown => 6,
        Color::Grey => 7,
        Color::LightGrey => 8,
        Color::LightBlue => 9,
        Color::Lime => 10,
        Color::LightCyan => 11,
        Color::LightRed => 12,
        Color::Pink => 13,
        Color::Yellow => 14,
        Color::White => 15,
    }
}

impl Color {
    /// Returns the four bit value of the color.
    pub fn value(self) -> (r: u16)
        ensures
            r == color_value(self),
            r < 16,
    {
        match self {
            Color::Black => 0,
            Color::Blue => 1,
            Color::Green => 2,
            Color::Cyan => 3,
            Color::Red => 4,
            Color::Purple => 5,
            Color::Brown => 6,
            Color::Grey => 7,
            Color::LightGrey => 8,
            Color::LightBlue => 9,
            Color::Lime => 10,
            Color::LightCyan => 11,
            Color::LightRed => 12,
            Color::Pink => 13,
            Color::Yellow => 14,
            Color::White => 15,
        }
    }

    /// Returns the color with the given four bit value, if there is one.
    pub fn from_value(v: u16) -> (r: Option<Color>)
        ensures
            v < 16 ==> (r matches Some(c) && color_value(c) == v),
            v >= 16 ==> r is None,
    {
        match v {
            0 => Some(Color::Black),
            1 => Some(Color::Blue),
            2 => Some(Color::Green),
            3 => Some(Color::Cyan),
            4 => Some(Color::Red),
            5 => Some(Color::Purple),
            6 => Some(Color::Brown),
            7 => Some(Color::Grey),
            8 => Some(Color::LightGrey),
            9 => Some(Color::LightBlue),
            10 => Some(Color::Lime),
            11 => Some(Color::LightCyan),
            12 => Some(Color::LightRed),
            13 => Some(Color::Pink),
            14 => Some(Color::Yellow),
            15 => Some(Color::White),
            _ => None,
        }
    }
}

/// The raw value of a character: the character in bits 0-7, the foreground color in
/// bits 8-11 and the background color in bits 12-15.
pub open spec fn vga_char_value(ch: u8, fg: Color, bg: Color) -> u16 {
    (ch + color_value(fg) * 256 + color_value(bg) * 4096) as u16
}

/// A character value supported by the VGA's text mode.
#[derive(Debug, Clone, Copy, PartialEq, Eq, Structural)]
pub struct VGAChar(u16);

impl View for VGAChar {
    type V = u16;

    closed spec fn view(&self) -> u16 {
        self.0
    }
}

impl VGAChar {
    /// The space character, white on black.
    pub fn space() -> (r: VGAChar)
        ensures
            r@ == vga_char_value(0x20, Color::White, Color::Black),
    {
        VGAChar(0x0F20)
    }

    /// The character drawn in the top left corner of the error screen's border.
    pub const TOPLEFT_CORNER: u8 = 0xC9;

    /// The character drawn in the bottom left corner of the error screen's border.
    pub const BOTTOMLEFT_CORNER: u8 = 0xC8;

    /// The character drawn in the top right corner of the error screen's border.
    pub const TOPRIGHT_CORNER: u8 = 0xBB;

    /// Constructs a new character using `fg` as the text color and `bg` as the background
    /// color.
    pub fn new(char: u8, fg: Color, bg: Color) -> (r: VGAChar)
        ensures
            r@ == vga_char_value(char, fg, bg),
    {
        let c = char as u16;
        let f = fg.value();
        let b = bg.value();
        let v = c | (b << 12u16) | (f << 8u16);
        assert(v == c + f * 256 + b * 4096) by (bit_vector)
            requires
                c < 256,
                f < 16,
                b < 16,
                v == c | (b << 12u16) | (f << 8u16),
        ;
        VGAChar(v)
    }

    /// Creates a character from its raw value.
    pub fn from_raw(raw: u16) -> (r: VGAChar)
        ensures
            r@ == raw,
    {
        VGAChar(raw)
    }

    /// Returns `self` as an int.
    pub fn as_raw(&self) -> (r: u16)
        ensures
            r == self@,
    {
        self.0
    }

    /// Returns a mutable reference to `self` as an int.
    pub fn as_raw_mut(&mut self) -> (r: &mut u16)
        ensures
            *r == old(self)@,
            final(self)@ == *final(r),
    {
        &mut self.0
    }

    /// Returns the character byte.
    pub fn char_byte(&self) -> (r: u8)
        ensures
            r == self@ % 256,
    {
        (self.0 % 256) as u8
    }

    /// Returns the same character with its foreground color bits replaced by `color`.
    pub fn with_fg_bits(&self, color: u16) -> (r: VGAChar)
        requires
            color < 16,
        ensures
            r@ == self@ % 256 + color * 256,
    {
        let low = self.0 % 256;
        VGAChar(low + color * 256)
    }
}

/// The memory addresses of the four corners of the VGA text buffer.
#[derive(Debug, PartialEq, Eq, Clone, Copy, Structural)]
pub enum Corner {
    TopLeft,
    TopRight,
    BottomLeft,
    BottomRight,
}

/// The address of a corner.
pub open spec fn corner_address(c: Corner) -> u64 {
    match c {
        Corner::TopLeft => 0xb8000,
        Corner::TopRight => 0xb809e,
        Corner::BottomLeft => 0xb8efe,
        Corner::BottomRight => 0xb903e,
    }
}

impl Corner {
    /// Returns the memory address of the corner.
    pub fn address(self) -> (r: u64)
        ensures
            r == corner_address(self),
    {
        match self {
            Corner::TopLeft => 0xb8000,
            Corner::TopRight => 0xb809e,
            Corner::BottomLeft => 0xb8efe,
            Corner::BottomRight => 0xb903e,
        }
    }
}

} // verus!
