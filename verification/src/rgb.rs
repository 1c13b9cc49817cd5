//! Packing three 8-bit channels into one 24-bit color value and back.

use vstd::prelude::*;

verus! {

/// The red channel of a packed color: bits 16 to 23.
pub open spec fn red(rgb: u32) -> int {
    (rgb as int / 0x10000) % 0x100
}

/// The green channel of a packed color: bits 8 to 15.
pub open spec fn green(rgb: u32) -> int {
    (rgb as int / 0x100) % 0x100
}

/// The blue channel of a packed color: bits 0 to 7.
pub open spec fn blue(rgb: u32) -> int {
    rgb as int % 0x100
}

/// The packed color with the given channels.
pub open spec fn pack(r: int, g: int, b: int) -> int {
    r * 0x10000 + g * 0x100 + b
}

/// Splits a packed color into red, green and blue. Bits above the 24th
/// are ignored.
pub fn make_rgb_u8(rgb: u32) -> (channels: [u8; 3])
    ensures
        channels[0] == red(rgb),
        channels[1] == green(rgb),
        channels[2] == blue(rgb),
{
    let r: u8 = ((rgb >> 16) & 0xff) as u8;
    let g: u8 = ((rgb >> 8) & 0xff) as u8;
    let b: u8 = (rgb & 0xff) as u8;
    assert(((rgb >> 16) & 0xff) == (rgb / 0x10000) % 0x100) by (bit_vector);
    assert(((rgb >> 8) & 0xff) == (rgb / 0x100) % 0x100) by (bit_vector);
    assert((rgb & 0xff) == rgb % 0x100) by (bit_vector);
    [r, g, b]
}

/// Packs three channels into one color value.
pub fn pack_rgb(red: u8, green: u8, blue: u8) -> (packed: u32)
    ensures
        packed == pack(red as int, green as int, blue as int),
        packed < 0x1000000,
{
    let r: u32 = red as u32;
    let g: u32 = green as u32;
    let b: u32 = blue as u32;
    assert(r << 16 == r * 0x10000 && g << 8 == g * 0x100) by (bit_vector)
        requires
            r < 0x100,
            g < 0x100,
    ;
    (r << 16) + (g << 8) + b
}

/// Packs the first three bytes of `rgb` (red, green, blue) into one color
/// value. Bytes after the third, such as an alpha channel, are ignored.
pub fn make_rgb_u32(rgb: Vec<u8>) -> (packed: u32)
    requires
        rgb@.len() >= 3,
    ensures
        packed == pack(rgb@[0] as int, rgb@[1] as int, rgb@[2] as int),
        packed < 0x1000000,
{
    pack_rgb(rgb[0], rgb[1], rgb[2])
}

/// Unpacking a 24-bit color and packing the channels again gives the
/// color back.
pub proof fn lemma_pack_unpack(rgb: u32)
    requires
        rgb < 0x1000000,
    ensures
        pack(red(rgb), green(rgb), blue(rgb)) == rgb,
{
}

/// Packing three channels and unpacking the result gives the channels
/// back, and the packed value fits in 24 bits.
pub proof fn lemma_unpack_pack(r: u8, g: u8, b: u8)
    ensures
        0 <= pack(r as int, g as int, b as int) < 0x1000000,
        red(pack(r as int, g as int, b as int) as u32) == r,
        green(pack(r as int, g as int, b as int) as u32) == g,
        blue(pack(r as int, g as int, b as int) as u32) == b,
{
}

} // verus!
