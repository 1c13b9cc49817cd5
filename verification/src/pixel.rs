//! A pixel together with its nearest entry in each color table, and the
//! pair of pixels that one character cell shows.

use crate::palette::{
    lemma_nearest_exists, nearest_hex_color, nearest_index, ANSI232, ANSI256, RGB88, RGB99,
};
use vstd::prelude::*;

verus! {

/// The four color tables a pixel is matched against.
#[derive(Debug, Clone, Copy, PartialEq, Eq, Structural)]
pub enum Palette {
    /// The extended IRC palette.
    Irc99,
    /// The IRC palette without its gray ramp.
    Irc88,
    /// The ANSI palette.
    Ansi256,
    /// The ANSI palette without its gray ramp.
    Ansi232,
}

impl Palette {
    /// The colors of the table, in the order of their codes.
    pub open spec fn colors(self) -> Seq<u32> {
        match self {
            Palette::Irc99 => RGB99@,
            Palette::Irc88 => RGB88@,
            Palette::Ansi256 => ANSI256@,
            Palette::Ansi232 => ANSI232@,
        }
    }
}

/// A pixel and the code of its nearest color in each table.
#[derive(Debug, Clone, Copy, PartialEq, Eq, Structural)]
pub struct AnsiPixel {
    /// The color itself, red in bits 16 to 23, green in 8 to 15, blue in 0 to 7.
    pub orig: u32,
    /// Nearest code in the ANSI palette.
    pub ansi: u8,
    /// Nearest code in the ANSI palette without its gray ramp.
    pub ansi232: u8,
    /// Nearest code in the extended IRC palette.
    pub irc: u8,
    /// Nearest code in the IRC palette without its gray ramp.
    pub irc88: u8,
}

/// Two pixels of one column, one above the other: what a character cell
/// shows in its upper and its lower half.
#[derive(Debug, Clone, Copy, PartialEq, Eq, Structural)]
pub struct AnsiPixelPair {
    pub top: AnsiPixel,
    pub bottom: AnsiPixel,
}

/// The pixel of color `pixel` with its nearest code in every table.
pub open spec fn quantize(pixel: u32) -> AnsiPixel {
    AnsiPixel {
        orig: pixel,
        ansi: nearest_index(pixel, ANSI256@) as u8,
        ansi232: nearest_index(pixel, ANSI232@) as u8,
        irc: nearest_index(pixel, RGB99@) as u8,
        irc88: nearest_index(pixel, RGB88@) as u8,
    }
}

/// Every code of a matched pixel is a position in its table.
pub proof fn lemma_codes_in_range(pixel: u32, palette: Palette)
    ensures
        0 <= nearest_index(pixel, palette.colors()) < palette.colors().len(),
        quantize(pixel).code_in(palette) == nearest_index(pixel, palette.colors()),
        quantize(pixel).irc < 99,
        quantize(pixel).irc88 < 88,
        quantize(pixel).ansi232 < 232,
{
    lemma_nearest_exists(pixel, RGB99@);
    lemma_nearest_exists(pixel, RGB88@);
    lemma_nearest_exists(pixel, ANSI256@);
    lemma_nearest_exists(pixel, ANSI232@);
}

impl AnsiPixel {
    /// Matches a color against all four tables.
    pub fn new(pixel: &u32) -> (quantized: AnsiPixel)
        ensures
            quantized == quantize(*pixel),
            quantized.orig == *pixel,
            quantized.irc < 99,
            quantized.irc88 < 88,
            quantized.ansi232 < 232,
    {
        let irc = nearest_hex_color(*pixel, RGB99.as_slice());
        let irc88 = nearest_hex_color(*pixel, RGB88.as_slice());
        let ansi = nearest_hex_color(*pixel, ANSI256.as_slice());
        let ansi232 = nearest_hex_color(*pixel, ANSI232.as_slice());
        AnsiPixel { orig: *pixel, ansi, ansi232, irc, irc88 }
    }

    /// The code of this pixel in the given table.
    pub open spec fn code_in(self, palette: Palette) -> u8 {
        match palette {
            Palette::Irc99 => self.irc,
            Palette::Irc88 => self.irc88,
            Palette::Ansi256 => self.ansi,
            Palette::Ansi232 => self.ansi232,
        }
    }

    /// Reads the code of this pixel in the given table.
    pub fn code(&self, palette: Palette) -> (code: u8)
        ensures
            code == self.code_in(palette),
    {
        match palette {
            Palette::Irc99 => self.irc,
            Palette::Irc88 => self.irc88,
            Palette::Ansi256 => self.ansi,
            Palette::Ansi232 => self.ansi232,
        }
    }
}

} // verus!
