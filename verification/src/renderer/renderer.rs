use vstd::prelude::*;

verus! {

/// The two-bit colour number of a pixel within its palette.
pub type ColorIndex = u8;

/// The number of a colour palette.
pub type PaletteIndex = u8;

/// A pixel position on the screen.
#[derive(Copy, Clone, PartialEq, Eq, Structural, Debug)]
pub struct Point {
    pub x: u8,
    pub y: u8,
}

/// Which of the two tile maps a layer draws from.
#[derive(Copy, Clone, PartialEq, Eq, Structural, Debug)]
pub enum TileMapIndex {
    TileMap1,
    TileMap2,
}

/// How tile numbers select tile data: unsigned from 0x8000, or signed around 0x9000.
#[derive(Copy, Clone, PartialEq, Eq, Structural, Debug)]
pub enum TileAddressingMode {
    Mode8000,
    Mode8800,
}

/// A colour with its channels, and whether it lets what lies behind show through.
#[derive(Copy, Clone, PartialEq, Eq, Structural, Debug)]
pub struct Color {
    pub red: u8,
    pub green: u8,
    pub blue: u8,
    pub transparent: bool,
}

/// The opaque colour of a 15-bit colour word: red in bits 0-4, green in 5-9, blue in 10-14.
pub open spec fn color_of_word(word: u16) -> Color {
    Color {
        red: (word & 0x1F) as u8,
        green: ((word >> 5) & 0x1F) as u8,
        blue: ((word >> 10) & 0x1F) as u8,
        transparent: false,
    }
}

/// The colour word of the low five bits of each channel.
pub open spec fn word_of_color(color: Color) -> u16 {
    ((color.red & 0x1F) as u16) | (((color.green & 0x1F) as u16) << 5u16) | (((color.blue & 0x1F) as u16) << 10u16)
}

/// An 8-bit channel cut to its high five bits.
pub open spec fn five_bit_channel(value: u8) -> u8 {
    value >> 3
}

/// A 5-bit channel widened to eight bits: zero stays zero, otherwise the low three bits are filled.
pub open spec fn eight_bit_channel(value: u8) -> u8 {
    if value == 0 {
        0
    } else {
        ((value << 3u8) | 0x07) as u8
    }
}

impl Color {
    pub fn from_word(color_word: u16) -> (r: Color)
        ensures
            r == color_of_word(color_word),
    {
        let r = Color {
            red: (color_word & 0x1F) as u8,
            green: ((color_word & 0x3E0) >> 5) as u8,
            blue: ((color_word & 0x7C00) >> 10) as u8,
            transparent: false,
        };
        assert((color_word & 0x3E0) >> 5 == (color_word >> 5) & 0x1F) by (bit_vector);
        assert((color_word & 0x7C00) >> 10 == (color_word >> 10) & 0x1F) by (bit_vector);
        r
    }

    pub fn from_rgb(red: u8, green: u8, blue: u8) -> (r: Color)
        ensures
            r == (Color { red, green, blue, transparent: false }),
    {
        Color { red, green, blue, transparent: false }
    }

    pub fn to_word(&self) -> (r: u16)
        ensures
            r == word_of_color(*self),
    {
        (self.red & 0x1F) as u16 | ((self.green & 0x1F) as u16) << 5u16 | ((self.blue & 0x1F) as u16) << 10u16
    }

    fn to_5_bit(value: u8) -> (r: u8)
        ensures
            r == five_bit_channel(value),
    {
        value >> 3
    }

    fn to_8_bit(value: u8) -> (r: u8)
        ensures
            r == eight_bit_channel(value),
    {
        if value == 0 {
            0
        } else {
            (value << 3u8) | (0x07)
        }
    }

    /// The colour with each channel cut to five bits.
    pub fn to_rgb555(&self) -> (r: Color)
        ensures
            r == (Color {
                red: five_bit_channel(self.red),
                green: five_bit_channel(self.green),
                blue: five_bit_channel(self.blue),
                transparent: self.transparent,
            }),
    {
        Color {
            red: Color::to_5_bit(self.red),
            green: Color::to_5_bit(self.green),
            blue: Color::to_5_bit(self.blue),
            transparent: self.transparent,
        }
    }

    /// The colour with each 5-bit channel widened to eight bits.
    pub fn to_rgb888(&self) -> (r: Color)
        ensures
            r == (Color {
                red: eight_bit_channel(self.red),
                green: eight_bit_channel(self.green),
                blue: eight_bit_channel(self.blue),
                transparent: self.transparent,
            }),
    {
        Color {
            red: Color::to_8_bit(self.red),
            green: Color::to_8_bit(self.green),
            blue: Color::to_8_bit(self.blue),
            transparent: self.transparent,
        }
    }

    /// The fully transparent colour.
    pub open spec fn transparent_spec() -> Color {
        Color { red: 0, green: 0, blue: 0, transparent: true }
    }

    /// The fully transparent colour.
    pub fn transparent() -> (r: Color)
        ensures
            r == Color::transparent_spec(),
    {
        Color { red: 0, green: 0, blue: 0, transparent: true }
    }
}

/// Decoding a colour word and encoding the colour again gives the word back, without its unused top bit.
pub proof fn law_word_round_trip(word: u16)
    ensures
        word_of_color(color_of_word(word)) == word & 0x7FFF,
{
    assert((((word & 0x1F) as u8 & 0x1F) as u16) | (((((word >> 5) & 0x1F) as u8 & 0x1F) as u16) << 5u16) | (
    ((((word >> 10) & 0x1F) as u8 & 0x1F) as u16) << 10u16) == word & 0x7FFF) by (bit_vector);
}

/// Encoding an opaque colour of 5-bit channels and decoding the word gives the colour back.
pub proof fn law_color_round_trip(color: Color)
    requires
        color.red < 32,
        color.green < 32,
        color.blue < 32,
        !color.transparent,
    ensures
        color_of_word(word_of_color(color)) == color,
{
    let (r, g, b) = (color.red, color.green, color.blue);
    assert(r < 32 && g < 32 && b < 32 ==> {
        let w = ((r & 0x1F) as u16) | (((g & 0x1F) as u16) << 5u16) | (((b & 0x1F) as u16) << 10u16);
        &&& (w & 0x1F) as u8 == r
        &&& ((w >> 5) & 0x1F) as u8 == g
        &&& ((w >> 10) & 0x1F) as u8 == b
    }) by (bit_vector);
}

/// Widening a 5-bit channel to eight bits and cutting it back gives the channel back.
pub proof fn law_channel_round_trip(value: u8)
    requires
        value < 32,
    ensures
        five_bit_channel(eight_bit_channel(value)) == value,
{
    if value == 0 {
        assert(0u8 >> 3u8 == 0u8) by (bit_vector);
    } else {
        assert(value < 32 ==> (((value << 3u8) | 0x07) as u8) >> 3u8 == value) by (bit_vector);
    }
}

/// Something that puts pixels on a screen.
pub trait Renderer {
    fn draw_pixel(&self, x: u8, y: u8, color: Color, draw_in_back: bool);
}

} // verus!
