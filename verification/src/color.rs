//! Screen colours and the texts that stand for them.

use crate::text::decimal;
use crate::text::hex_byte_lower;
use crate::text::hex_byte_upper;
use crate::text::push_char;
use crate::text::push_decimal;
use crate::text::push_hex_byte;
use vstd::prelude::*;

verus! {

/// What a pixel read answers when it failed.
pub const CLR_INVALID: u32 = 0xFFFF_FFFF;

/// A colour by its red, green and blue parts.
#[derive(Debug, Clone, Copy, PartialEq, Eq, Structural)]
pub struct Color {
    pub r: u8,
    pub g: u8,
    pub b: u8,
}

/// How a colour is written when it is shown or copied.
#[derive(Debug, Clone, Copy, PartialEq, Eq, Structural)]
pub enum OutputFormat {
    Rgb,
    Hex,
}

impl OutputFormat {
    /// The other format.
    pub open spec fn toggled(self) -> Self {
        match self {
            OutputFormat::Rgb => OutputFormat::Hex,
            OutputFormat::Hex => OutputFormat::Rgb,
        }
    }

    /// The other format.
    pub fn toggle(self) -> (other: Self)
        ensures
            other == self.toggled(),
    {
        match self {
            OutputFormat::Rgb => OutputFormat::Hex,
            OutputFormat::Hex => OutputFormat::Rgb,
        }
    }
}

/// The colour that a packed pixel value holds: red in the lowest byte, then
/// green, then blue. The highest byte is not looked at.
pub open spec fn color_of(colorref: u32) -> Color {
    Color {
        r: (colorref as int % 256) as u8,
        g: (colorref as int / 256 % 256) as u8,
        b: (colorref as int / 65536 % 256) as u8,
    }
}

/// The packed pixel value of a colour, its highest byte zero.
pub open spec fn colorref_of(color: Color) -> int {
    color.r as int + 256 * color.g as int + 65536 * color.b as int
}

impl Color {
    /// `#rrggbb`, letters in lower case.
    pub open spec fn hex_lower(self) -> Seq<char> {
        seq!['#'] + hex_byte_lower(self.r) + hex_byte_lower(self.g) + hex_byte_lower(self.b)
    }

    /// `#RRGGBB`, letters in upper case.
    pub open spec fn hex_upper(self) -> Seq<char> {
        seq!['#'] + hex_byte_upper(self.r) + hex_byte_upper(self.g) + hex_byte_upper(self.b)
    }

    /// `r, g, b` in decimal.
    pub open spec fn triple(self) -> Seq<char> {
        decimal(self.r as nat) + ", "@ + decimal(self.g as nat) + ", "@ + decimal(self.b as nat)
    }

    /// `rgb(r, g, b)` in decimal.
    pub open spec fn rgb_text(self) -> Seq<char> {
        "rgb("@ + self.triple() + ")"@
    }

    /// The text that goes to the clipboard: `rgb(r, g, b)` in the RGB format,
    /// `#RRGGBB` in the hexadecimal one.
    pub open spec fn clipboard_text(self, format: OutputFormat) -> Seq<char> {
        match format {
            OutputFormat::Rgb => self.rgb_text(),
            OutputFormat::Hex => self.hex_upper(),
        }
    }

    /// The line that the overlay shows: `RGB: (r, g, b)` or `HEX: #RRGGBB`.
    pub open spec fn overlay_text(self, format: OutputFormat) -> Seq<char> {
        match format {
            OutputFormat::Rgb => "RGB: ("@ + self.triple() + ")"@,
            OutputFormat::Hex => "HEX: "@ + self.hex_upper(),
        }
    }

    /// Unpacks a pixel value.
    pub fn from_colorref(colorref: u32) -> (color: Color)
        ensures
            color == color_of(colorref),
    {
        let r: u32 = colorref & 0xFF;
        let g: u32 = (colorref >> 8) & 0xFF;
        let b: u32 = (colorref >> 16) & 0xFF;
        assert(r == colorref % 256 && g == colorref / 256 % 256 && b == colorref / 65536 % 256)
            by (bit_vector)
            requires
                r == colorref & 0xFF,
                g == (colorref >> 8) & 0xFF,
                b == (colorref >> 16) & 0xFF,
        ;
        Color { r: r as u8, g: g as u8, b: b as u8 }
    }

    /// Packs the colour into a pixel value.
    pub fn to_colorref(&self) -> (colorref: u32)
        ensures
            colorref == colorref_of(*self),
            color_of(colorref) == *self,
    {
        let r: u32 = self.r as u32;
        let g: u32 = self.g as u32;
        let b: u32 = self.b as u32;
        let packed: u32 = r | (g << 8) | (b << 16);
        assert(packed == r + 256 * g + 65536 * b) by (bit_vector)
            requires
                packed == r | (g << 8) | (b << 16),
                r < 256,
                g < 256,
                b < 256,
        ;
        packed
    }

    fn push_hex(&self, text: &mut String, upper: bool)
        ensures
            final(text)@ == old(text)@ + if upper {
                self.hex_upper()
            } else {
                self.hex_lower()
            },
    {
        push_char(text, '#');
        push_hex_byte(text, self.r, upper);
        push_hex_byte(text, self.g, upper);
        push_hex_byte(text, self.b, upper);
    }

    fn push_triple(&self, text: &mut String)
        ensures
            final(text)@ == old(text)@ + self.triple(),
    {
        push_decimal(text, self.r as u64);
        text.append(", ");
        push_decimal(text, self.g as u64);
        text.append(", ");
        push_decimal(text, self.b as u64);
    }

    /// `#rrggbb`, letters in lower case: the form in which a picked colour
    /// is handed back.
    pub fn to_hex_lower(&self) -> (text: String)
        ensures
            text@ == self.hex_lower(),
    {
        let mut text = String::new();
        self.push_hex(&mut text, false);
        text
    }

    /// `#RRGGBB`, letters in upper case.
    pub fn to_hex_upper(&self) -> (text: String)
        ensures
            text@ == self.hex_upper(),
    {
        let mut text = String::new();
        self.push_hex(&mut text, true);
        text
    }

    /// `rgb(r, g, b)` in decimal.
    pub fn to_rgb_text(&self) -> (text: String)
        ensures
            text@ == self.rgb_text(),
    {
        let mut text = String::new();
        text.append("rgb(");
        self.push_triple(&mut text);
        text.append(")");
        text
    }

    /// The text that goes to the clipboard in `format`.
    pub fn to_clipboard_text(&self, format: OutputFormat) -> (text: String)
        ensures
            text@ == self.clipboard_text(format),
    {
        match format {
            OutputFormat::Rgb => self.to_rgb_text(),
            OutputFormat::Hex => self.to_hex_upper(),
        }
    }

    /// The line that the overlay shows in `format`.
    pub fn to_overlay_text(&self, format: OutputFormat) -> (text: String)
        ensures
            text@ == self.overlay_text(format),
    {
        let mut text = String::new();
        match format {
            OutputFormat::Rgb => {
                text.append("RGB: (");
                self.push_triple(&mut text);
                text.append(")");
            },
            OutputFormat::Hex => {
                text.append("HEX: ");
                self.push_hex(&mut text, true);
            },
        }
        text
    }
}

} // verus!
