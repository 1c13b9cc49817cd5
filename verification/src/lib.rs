//! Renders a decoded image as text for character-cell displays: every
//! character stands for two or four pixels, painted with ANSI or IRC
//! color codes and Unicode block glyphs.

pub mod draw;
pub mod glyph;
pub mod grid;
pub mod palette;
pub mod photon;
pub mod pixel;
pub mod rgb;
pub mod text;
