//! The color model: an RGB triple with its derived representations — a
//! packed opaque color, the blitting API's byte order, a hex label, a
//! luminance-based contrast color, and the normalized form reported to
//! the caller.

use vstd::prelude::*;

use crate::constants::{
    COLOR_BLACK_REF, COLOR_WHITE_REF, LUMINANCE_BLUE_MILLI, LUMINANCE_GREEN_MILLI,
    LUMINANCE_RED_MILLI, LUMINANCE_THRESHOLD_MILLI,
};

verus! {

/// RGB color components, one byte per channel.
#[derive(Clone, Copy, Debug, PartialEq, Eq, Structural)]
pub struct RgbColor {
    pub r: u8,
    pub g: u8,
    pub b: u8,
}

/// The color a packed 0x00BBGGRR value stands for.
pub open spec fn spec_from_colorref(color: u32) -> RgbColor {
    RgbColor {
        r: (color & 0xFF) as u8,
        g: ((color >> 8) & 0xFF) as u8,
        b: ((color >> 16) & 0xFF) as u8,
    }
}

impl RgbColor {
    /// The fully opaque 0xAARRGGBB packing of this color.
    pub open spec fn spec_to_argb(self) -> u32 {
        0xFF000000u32 | ((self.r as u32) << 16) | ((self.g as u32) << 8) | (self.b as u32)
    }

    /// The 0x00BBGGRR packing of this color.
    pub open spec fn spec_to_colorref(self) -> u32 {
        ((self.b as u32) << 16) | ((self.g as u32) << 8) | (self.r as u32)
    }

    /// Rec. 601 luminance over 0-255 channels, scaled by 1000 so that it
    /// stays an exact integer.
    pub open spec fn spec_luminance_milli(self) -> int {
        LUMINANCE_RED_MILLI * self.r + LUMINANCE_GREEN_MILLI * self.g + LUMINANCE_BLUE_MILLI
            * self.b
    }

    /// The label text color legible on this background: black over light
    /// colors, white otherwise. The boundary at luminance exactly 128
    /// resolves to white.
    pub open spec fn spec_text_color(self) -> u32 {
        if self.spec_luminance_milli() > LUMINANCE_THRESHOLD_MILLI {
            COLOR_BLACK_REF
        } else {
            COLOR_WHITE_REF
        }
    }

    /// Create a new RGB color.
    pub fn new(r: u8, g: u8, b: u8) -> (c: Self)
        ensures
            c == (RgbColor { r, g, b }),
    {
        Self { r, g, b }
    }

    /// Extract the RGB channels from a packed 0x00BBGGRR value.
    pub fn from_colorref(color: u32) -> (c: Self)
        ensures
            c == spec_from_colorref(color),
            c.r == color % 256,
            c.g == (color / 256) % 256,
            c.b == (color / 65536) % 256,
    {
        proof {
            assert((color & 0xFF) == color % 256 && (color & 0xFF) < 256 && ((color >> 8) & 0xFF)
                == (color / 256) % 256 && ((color >> 8) & 0xFF) < 256 && ((color >> 16) & 0xFF) == (
            color / 65536) % 256 && ((color >> 16) & 0xFF) < 256) by (bit_vector);
        }
        Self {
            r: (color & 0xFF) as u8,
            g: ((color >> 8) & 0xFF) as u8,
            b: ((color >> 16) & 0xFF) as u8,
        }
    }

    /// Pack as fully opaque 0xAARRGGBB, the drawing API's format.
    pub fn to_argb(&self) -> (packed: u32)
        ensures
            packed == self.spec_to_argb(),
            packed == 0xFF000000u32 + (self.r as u32) * 65536 + (self.g as u32) * 256 + (
            self.b as u32),
    {
        let packed = 0xFF000000u32 | ((self.r as u32) << 16) | ((self.g as u32) << 8) | (
        self.b as u32);
        proof {
            let (r, g, b) = (self.r, self.g, self.b);
            assert((0xFF000000u32 | ((r as u32) << 16) | ((g as u32) << 8) | (b as u32))
                == 0xFF000000u32 + (r as u32) * 65536 + (g as u32) * 256 + (b as u32))
                by (bit_vector);
        }
        packed
    }

    /// Pack as 0x00BBGGRR, the byte order the blitting API uses.
    pub fn to_colorref(&self) -> (packed: u32)
        ensures
            packed == self.spec_to_colorref(),
            packed == (self.b as u32) * 65536 + (self.g as u32) * 256 + (self.r as u32),
    {
        let packed = ((self.b as u32) << 16) | ((self.g as u32) << 8) | (self.r as u32);
        proof {
            let (r, g, b) = (self.r, self.g, self.b);
            assert((((b as u32) << 16) | ((g as u32) << 8) | (r as u32)) == (b as u32) * 65536 + (
            g as u32) * 256 + (r as u32)) by (bit_vector);
        }
        packed
    }

    /// Rec. 601 luminance of this color, scaled by 1000.
    pub fn luminance(&self) -> (lum: u32)
        ensures
            lum == self.spec_luminance_milli(),
    {
        LUMINANCE_RED_MILLI * (self.r as u32) + LUMINANCE_GREEN_MILLI * (self.g as u32)
            + LUMINANCE_BLUE_MILLI * (self.b as u32)
    }

    /// The label text color (packed 0x00BBGGRR) legible on this
    /// background.
    pub fn text_color(&self) -> (packed: u32)
        ensures
            packed == self.spec_text_color(),
    {
        if self.luminance() > LUMINANCE_THRESHOLD_MILLI {
            COLOR_BLACK_REF
        } else {
            COLOR_WHITE_REF
        }
    }
}

/// The uppercase hexadecimal digit for a value below 16.
pub open spec fn spec_hex_digit(d: int) -> char {
    if d == 0 {
        '0'
    } else if d == 1 {
        '1'
    } else if d == 2 {
        '2'
    } else if d == 3 {
        '3'
    } else if d == 4 {
        '4'
    } else if d == 5 {
        '5'
    } else if d == 6 {
        '6'
    } else if d == 7 {
        '7'
    } else if d == 8 {
        '8'
    } else if d == 9 {
        '9'
    } else if d == 10 {
        'A'
    } else if d == 11 {
        'B'
    } else if d == 12 {
        'C'
    } else if d == 13 {
        'D'
    } else if d == 14 {
        'E'
    } else {
        'F'
    }
}

/// The two uppercase hexadecimal digits of one channel.
pub open spec fn spec_hex_byte(v: u8) -> Seq<char> {
    seq![spec_hex_digit(v as int / 16), spec_hex_digit(v as int % 16)]
}

/// The single-character string holding the uppercase hexadecimal digit
/// for a value below 16.
fn hex_digit_str(d: u8) -> (s: &'static str)
    requires
        d < 16,
    ensures
        s@ =~= seq![spec_hex_digit(d as int)],
{
    proof {
        reveal_strlit("0");
        reveal_strlit("1");
        reveal_strlit("2");
        reveal_strlit("3");
        reveal_strlit("4");
        reveal_strlit("5");
        reveal_strlit("6");
        reveal_strlit("7");
        reveal_strlit("8");
        reveal_strlit("9");
        reveal_strlit("A");
        reveal_strlit("B");
        reveal_strlit("C");
        reveal_strlit("D");
        reveal_strlit("E");
        reveal_strlit("F");
    }
    match d {
        0 => "0",
        1 => "1",
        2 => "2",
        3 => "3",
        4 => "4",
        5 => "5",
        6 => "6",
        7 => "7",
        8 => "8",
        9 => "9",
        10 => "A",
        11 => "B",
        12 => "C",
        13 => "D",
        14 => "E",
        _ => "F",
    }
}

impl RgbColor {
    /// The seven-character hex label of this color: a leading `#` and
    /// six uppercase digits, two per channel.
    pub open spec fn spec_hex_string(self) -> Seq<char> {
        seq!['#'] + spec_hex_byte(self.r) + spec_hex_byte(self.g) + spec_hex_byte(self.b)
    }

    /// Format as a hex label (#RRGGBB, uppercase digits).
    pub fn to_hex_string(&self) -> (s: String)
        ensures
            s@ =~= self.spec_hex_string(),
    {
        proof {
            reveal_strlit("#");
        }
        let mut s = String::from_str("#");
        s.append(hex_digit_str(self.r / 16));
        s.append(hex_digit_str(self.r % 16));
        s.append(hex_digit_str(self.g / 16));
        s.append(hex_digit_str(self.g % 16));
        s.append(hex_digit_str(self.b / 16));
        s.append(hex_digit_str(self.b % 16));
        s
    }
}

/// The color space tag that accompanies every reported result. There is
/// exactly one: standard RGB.
#[derive(Clone, Copy, Debug, PartialEq, Eq, Structural)]
pub enum ColorSpace {
    Srgb,
}

impl ColorSpace {
    /// The fixed literal tag identifying this color space.
    pub fn label(&self) -> (s: String)
        ensures
            s@ =~= "sRGB"@,
    {
        String::from_str("sRGB")
    }
}

/// The normalized form of a picked color, as reported to the caller:
/// each channel is the fraction `numerator / 255` of full intensity,
/// alpha is fixed at exactly 1, and the color space tag is fixed.
#[derive(Clone, Copy, Debug, PartialEq, Eq, Structural)]
pub struct ReportedColor {
    /// Numerator of the red fraction over the fixed denominator 255.
    pub red_255: u8,
    /// Numerator of the green fraction over the fixed denominator 255.
    pub green_255: u8,
    /// Numerator of the blue fraction over the fixed denominator 255.
    pub blue_255: u8,
    /// Numerator of the alpha fraction over the fixed denominator 255;
    /// always 255, that is, fully opaque.
    pub alpha_255: u8,
    /// Always standard RGB.
    pub color_space: ColorSpace,
}

impl RgbColor {
    /// The normalized report of this color: each sampled channel becomes
    /// the fraction of full intensity with the same numerator, alpha is
    /// pinned to 1, and the color space tag to standard RGB.
    pub open spec fn spec_reported(self) -> ReportedColor {
        ReportedColor {
            red_255: self.r,
            green_255: self.g,
            blue_255: self.b,
            alpha_255: 255,
            color_space: ColorSpace::Srgb,
        }
    }

    /// Normalize for the externally reported result.
    pub fn to_reported(&self) -> (rep: ReportedColor)
        ensures
            rep == self.spec_reported(),
    {
        ReportedColor {
            red_255: self.r,
            green_255: self.g,
            blue_255: self.b,
            alpha_255: 255,
            color_space: ColorSpace::Srgb,
        }
    }
}

/// Unpacking a packed 0x00BBGGRR value returns exactly the channels that
/// were packed into it.
pub proof fn lemma_colorref_round_trip(c: RgbColor)
    ensures
        spec_from_colorref(c.spec_to_colorref()) == c,
{
    let (r, g, b) = (c.r, c.g, c.b);
    assert(((((b as u32) << 16) | ((g as u32) << 8) | (r as u32)) & 0xFF) == r as u32 && (((((
    b as u32) << 16) | ((g as u32) << 8) | (r as u32)) >> 8) & 0xFF) == g as u32 && (((((b as u32)
        << 16) | ((g as u32) << 8) | (r as u32)) >> 16) & 0xFF) == b as u32) by (bit_vector);
}

/// Packing the channels unpacked from a 0x00BBGGRR value reproduces its
/// low three bytes.
pub proof fn lemma_colorref_repack(color: u32)
    ensures
        spec_from_colorref(color).spec_to_colorref() == color % 0x1000000,
{
    assert(((((color >> 16) & 0xFF) as u8 as u32) << 16) | ((((color >> 8) & 0xFF) as u8 as u32)
        << 8) | (((color & 0xFF) as u8 as u32)) == color % 0x1000000) by (bit_vector);
}

} // verus!
