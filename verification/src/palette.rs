//! The color tables of the two protocols and the search for the entry
//! nearest to a color.
//!
//! A table lists colors in the order of their protocol codes: the entry at
//! position `i` is the color that code `i` selects.

use crate::rgb::{blue, green, make_rgb_u8, pack, red};
use vstd::prelude::*;

verus! {

/// The 99 colors of the extended IRC palette, codes 0 to 98: the sixteen
/// classic colors, six rows of twelve hues, and a gray ramp of eleven steps.
pub const RGB99: [u32; 99] = [
    0xffffff, 0x000000, 0x00007f, 0x009300, 0xff0000, 0x7f0000,
    0x9c009c, 0xfc7f00, 0xffff00, 0x00fc00, 0x009393, 0x00ffff,
    0x0000fc, 0xff00ff, 0x7f7f7f, 0xd2d2d2, 0x470000, 0x472100,
    0x474700, 0x324700, 0x004700, 0x00472c, 0x004747, 0x002747,
    0x000047, 0x2e0047, 0x470047, 0x47002a, 0x740000, 0x743a00,
    0x747400, 0x517400, 0x007400, 0x007449, 0x007474, 0x004074,
    0x000074, 0x4b0074, 0x740074, 0x740045, 0xb50000, 0xb56300,
    0xb5b500, 0x7db500, 0x00b500, 0x00b571, 0x00b5b5, 0x0063b5,
    0x0000b5, 0x7500b5, 0xb500b5, 0xb5006b, 0xff0000, 0xff8c00,
    0xffff00, 0xb2ff00, 0x00ff00, 0x00ffa0, 0x00ffff, 0x008cff,
    0x0000ff, 0xa500ff, 0xff00ff, 0xff0098, 0xff5959, 0xffb459,
    0xffff71, 0xcfff60, 0x6fff6f, 0x65ffc9, 0x6dffff, 0x59b4ff,
    0x5959ff, 0xc459ff, 0xff66ff, 0xff59bc, 0xff9c9c, 0xffd39c,
    0xffff9c, 0xe2ff9c, 0x9cff9c, 0x9cffdb, 0x9cffff, 0x9cd3ff,
    0x9c9cff, 0xdc9cff, 0xff9cff, 0xff94d3, 0x000000, 0x131313,
    0x282828, 0x363636, 0x4d4d4d, 0x656565, 0x818181, 0x9f9f9f,
    0xbcbcbc, 0xe2e2e2, 0xffffff,
];

/// The IRC palette without its gray ramp: codes 0 to 87.
pub const RGB88: [u32; 88] = [
    0xffffff, 0x000000, 0x00007f, 0x009300, 0xff0000, 0x7f0000,
    0x9c009c, 0xfc7f00, 0xffff00, 0x00fc00, 0x009393, 0x00ffff,
    0x0000fc, 0xff00ff, 0x7f7f7f, 0xd2d2d2, 0x470000, 0x472100,
    0x474700, 0x324700, 0x004700, 0x00472c, 0x004747, 0x002747,
    0x000047, 0x2e0047, 0x470047, 0x47002a, 0x740000, 0x743a00,
    0x747400, 0x517400, 0x007400, 0x007449, 0x007474, 0x004074,
    0x000074, 0x4b0074, 0x740074, 0x740045, 0xb50000, 0xb56300,
    0xb5b500, 0x7db500, 0x00b500, 0x00b571, 0x00b5b5, 0x0063b5,
    0x0000b5, 0x7500b5, 0xb500b5, 0xb5006b, 0xff0000, 0xff8c00,
    0xffff00, 0xb2ff00, 0x00ff00, 0x00ffa0, 0x00ffff, 0x008cff,
    0x0000ff, 0xa500ff, 0xff00ff, 0xff0098, 0xff5959, 0xffb459,
    0xffff71, 0xcfff60, 0x6fff6f, 0x65ffc9, 0x6dffff, 0x59b4ff,
    0x5959ff, 0xc459ff, 0xff66ff, 0xff59bc, 0xff9c9c, 0xffd39c,
    0xffff9c, 0xe2ff9c, 0x9cff9c, 0x9cffdb, 0x9cffff, 0x9cd3ff,
    0x9c9cff, 0xdc9cff, 0xff9cff, 0xff94d3,
];

/// The 256 colors of the ANSI palette: sixteen system colors, a color cube
/// of six levels per channel from code 16, and a gray ramp of 24 steps from
/// code 232.
pub const ANSI256: [u32; 256] = [
    0x000000, 0x800000, 0x008000, 0x808000, 0x000080, 0x800080,
    0x008080, 0xc0c0c0, 0x808080, 0xff0000, 0x00ff00, 0xffff00,
    0x0000ff, 0xff00ff, 0x00ffff, 0xffffff, 0x000000, 0x00005f,
    0x000087, 0x0000af, 0x0000d7, 0x0000ff, 0x005f00, 0x005f5f,
    0x005f87, 0x005faf, 0x005fd7, 0x005fff, 0x008700, 0x00875f,
    0x008787, 0x0087af, 0x0087d7, 0x0087ff, 0x00af00, 0x00af5f,
    0x00af87, 0x00afaf, 0x00afd7, 0x00afff, 0x00d700, 0x00d75f,
    0x00d787, 0x00d7af, 0x00d7d7, 0x00d7ff, 0x00ff00, 0x00ff5f,
    0x00ff87, 0x00ffaf, 0x00ffd7, 0x00ffff, 0x5f0000, 0x5f005f,
    0x5f0087, 0x5f00af, 0x5f00d7, 0x5f00ff, 0x5f5f00, 0x5f5f5f,
    0x5f5f87, 0x5f5faf, 0x5f5fd7, 0x5f5fff, 0x5f8700, 0x5f875f,
    0x5f8787, 0x5f87af, 0x5f87d7, 0x5f87ff, 0x5faf00, 0x5faf5f,
    0x5faf87, 0x5fafaf, 0x5fafd7, 0x5fafff, 0x5fd700, 0x5fd75f,
    0x5fd787, 0x5fd7af, 0x5fd7d7, 0x5fd7ff, 0x5fff00, 0x5fff5f,
    0x5fff87, 0x5fffaf, 0x5fffd7, 0x5fffff, 0x870000, 0x87005f,
    0x870087, 0x8700af, 0x8700d7, 0x8700ff, 0x875f00, 0x875f5f,
    0x875f87, 0x875faf, 0x875fd7, 0x875fff, 0x878700, 0x87875f,
    0x878787, 0x8787af, 0x8787d7, 0x8787ff, 0x87af00, 0x87af5f,
    0x87af87, 0x87afaf, 0x87afd7, 0x87afff, 0x87d700, 0x87d75f,
    0x87d787, 0x87d7af, 0x87d7d7, 0x87d7ff, 0x87ff00, 0x87ff5f,
    0x87ff87, 0x87ffaf, 0x87ffd7, 0x87ffff, 0xaf0000, 0xaf005f,
    0xaf0087, 0xaf00af, 0xaf00d7, 0xaf00ff, 0xaf5f00, 0xaf5f5f,
    0xaf5f87, 0xaf5faf, 0xaf5fd7, 0xaf5fff, 0xaf8700, 0xaf875f,
    0xaf8787, 0xaf87af, 0xaf87d7, 0xaf87ff, 0xafaf00, 0xafaf5f,
    0xafaf87, 0xafafaf, 0xafafd7, 0xafafff, 0xafd700, 0xafd75f,
    0xafd787, 0xafd7af, 0xafd7d7, 0xafd7ff, 0xafff00, 0xafff5f,
    0xafff87, 0xafffaf, 0xafffd7, 0xafffff, 0xd70000, 0xd7005f,
    0xd70087, 0xd700af, 0xd700d7, 0xd700ff, 0xd75f00, 0xd75f5f,
    0xd75f87, 0xd75faf, 0xd75fd7, 0xd75fff, 0xd78700, 0xd7875f,
    0xd78787, 0xd787af, 0xd787d7, 0xd787ff, 0xd7af00, 0xd7af5f,
    0xd7af87, 0xd7afaf, 0xd7afd7, 0xd7afff, 0xd7d700, 0xd7d75f,
    0xd7d787, 0xd7d7af, 0xd7d7d7, 0xd7d7ff, 0xd7ff00, 0xd7ff5f,
    0xd7ff87, 0xd7ffaf, 0xd7ffd7, 0xd7ffff, 0xff0000, 0xff005f,
    0xff0087, 0xff00af, 0xff00d7, 0xff00ff, 0xff5f00, 0xff5f5f,
    0xff5f87, 0xff5faf, 0xff5fd7, 0xff5fff, 0xff8700, 0xff875f,
    0xff8787, 0xff87af, 0xff87d7, 0xff87ff, 0xffaf00, 0xffaf5f,
    0xffaf87, 0xffafaf, 0xffafd7, 0xffafff, 0xffd700, 0xffd75f,
    0xffd787, 0xffd7af, 0xffd7d7, 0xffd7ff, 0xffff00, 0xffff5f,
    0xffff87, 0xffffaf, 0xffffd7, 0xffffff, 0x080808, 0x121212,
    0x1c1c1c, 0x262626, 0x303030, 0x3a3a3a, 0x444444, 0x4e4e4e,
    0x585858, 0x626262, 0x6c6c6c, 0x767676, 0x808080, 0x8a8a8a,
    0x949494, 0x9e9e9e, 0xa8a8a8, 0xb2b2b2, 0xbcbcbc, 0xc6c6c6,
    0xd0d0d0, 0xdadada, 0xe4e4e4, 0xeeeeee,
];

/// The ANSI palette without its gray ramp: codes 0 to 231.
pub const ANSI232: [u32; 232] = [
    0x000000, 0x800000, 0x008000, 0x808000, 0x000080, 0x800080,
    0x008080, 0xc0c0c0, 0x808080, 0xff0000, 0x00ff00, 0xffff00,
    0x0000ff, 0xff00ff, 0x00ffff, 0xffffff, 0x000000, 0x00005f,
    0x000087, 0x0000af, 0x0000d7, 0x0000ff, 0x005f00, 0x005f5f,
    0x005f87, 0x005faf, 0x005fd7, 0x005fff, 0x008700, 0x00875f,
    0x008787, 0x0087af, 0x0087d7, 0x0087ff, 0x00af00, 0x00af5f,
    0x00af87, 0x00afaf, 0x00afd7, 0x00afff, 0x00d700, 0x00d75f,
    0x00d787, 0x00d7af, 0x00d7d7, 0x00d7ff, 0x00ff00, 0x00ff5f,
    0x00ff87, 0x00ffaf, 0x00ffd7, 0x00ffff, 0x5f0000, 0x5f005f,
    0x5f0087, 0x5f00af, 0x5f00d7, 0x5f00ff, 0x5f5f00, 0x5f5f5f,
    0x5f5f87, 0x5f5faf, 0x5f5fd7, 0x5f5fff, 0x5f8700, 0x5f875f,
    0x5f8787, 0x5f87af, 0x5f87d7, 0x5f87ff, 0x5faf00, 0x5faf5f,
    0x5faf87, 0x5fafaf, 0x5fafd7, 0x5fafff, 0x5fd700, 0x5fd75f,
    0x5fd787, 0x5fd7af, 0x5fd7d7, 0x5fd7ff, 0x5fff00, 0x5fff5f,
    0x5fff87, 0x5fffaf, 0x5fffd7, 0x5fffff, 0x870000, 0x87005f,
    0x870087, 0x8700af, 0x8700d7, 0x8700ff, 0x875f00, 0x875f5f,
    0x875f87, 0x875faf, 0x875fd7, 0x875fff, 0x878700, 0x87875f,
    0x878787, 0x8787af, 0x8787d7, 0x8787ff, 0x87af00, 0x87af5f,
    0x87af87, 0x87afaf, 0x87afd7, 0x87afff, 0x87d700, 0x87d75f,
    0x87d787, 0x87d7af, 0x87d7d7, 0x87d7ff, 0x87ff00, 0x87ff5f,
    0x87ff87, 0x87ffaf, 0x87ffd7, 0x87ffff, 0xaf0000, 0xaf005f,
    0xaf0087, 0xaf00af, 0xaf00d7, 0xaf00ff, 0xaf5f00, 0xaf5f5f,
    0xaf5f87, 0xaf5faf, 0xaf5fd7, 0xaf5fff, 0xaf8700, 0xaf875f,
    0xaf8787, 0xaf87af, 0xaf87d7, 0xaf87ff, 0xafaf00, 0xafaf5f,
    0xafaf87, 0xafafaf, 0xafafd7, 0xafafff, 0xafd700, 0xafd75f,
    0xafd787, 0xafd7af, 0xafd7d7, 0xafd7ff, 0xafff00, 0xafff5f,
    0xafff87, 0xafffaf, 0xafffd7, 0xafffff, 0xd70000, 0xd7005f,
    0xd70087, 0xd700af, 0xd700d7, 0xd700ff, 0xd75f00, 0xd75f5f,
    0xd75f87, 0xd75faf, 0xd75fd7, 0xd75fff, 0xd78700, 0xd7875f,
    0xd78787, 0xd787af, 0xd787d7, 0xd787ff, 0xd7af00, 0xd7af5f,
    0xd7af87, 0xd7afaf, 0xd7afd7, 0xd7afff, 0xd7d700, 0xd7d75f,
    0xd7d787, 0xd7d7af, 0xd7d7d7, 0xd7d7ff, 0xd7ff00, 0xd7ff5f,
    0xd7ff87, 0xd7ffaf, 0xd7ffd7, 0xd7ffff, 0xff0000, 0xff005f,
    0xff0087, 0xff00af, 0xff00d7, 0xff00ff, 0xff5f00, 0xff5f5f,
    0xff5f87, 0xff5faf, 0xff5fd7, 0xff5fff, 0xff8700, 0xff875f,
    0xff8787, 0xff87af, 0xff87d7, 0xff87ff, 0xffaf00, 0xffaf5f,
    0xffaf87, 0xffafaf, 0xffafd7, 0xffafff, 0xffd700, 0xffd75f,
    0xffd787, 0xffd7af, 0xffd7d7, 0xffd7ff, 0xffff00, 0xffff5f,
    0xffff87, 0xffffaf, 0xffffd7, 0xffffff,
];

/// The largest number of entries a table may have, so that every position
/// is a `u8`.
pub const MAX_PALETTE_LEN: usize = 256;

/// How far apart two channel values are.
pub open spec fn gap(a: int, b: int) -> int {
    if a >= b {
        a - b
    } else {
        b - a
    }
}

/// How far apart two colors are: the sum of the gaps of their three
/// channels. Bits above the 24th play no part.
pub open spec fn distance(a: u32, b: u32) -> int {
    gap(red(a), red(b)) + gap(green(a), green(b)) + gap(blue(a), blue(b))
}

/// `index` is the position of the entry of `palette` nearest to `pixel`:
/// no entry is nearer, and every entry before it is farther away.
#[verifier::opaque]
pub open spec fn is_nearest(pixel: u32, palette: Seq<u32>, index: int) -> bool {
    &&& 0 <= index < palette.len()
    &&& forall|j: int|
        0 <= j < palette.len() ==> distance(pixel, palette[index]) <= distance(
            pixel,
            #[trigger] palette[j],
        )
    &&& forall|j: int|
        0 <= j < index ==> distance(pixel, palette[index]) < distance(pixel, #[trigger] palette[j])
}

/// The position of the entry of `palette` nearest to `pixel`; among entries
/// equally near, the first. Meaningful for a table that is not empty.
pub open spec fn nearest_index(pixel: u32, palette: Seq<u32>) -> int {
    choose|index: int| is_nearest(pixel, palette, index)
}

/// At most one position is the nearest.
pub proof fn lemma_nearest_unique(pixel: u32, palette: Seq<u32>, i: int, j: int)
    requires
        is_nearest(pixel, palette, i),
        is_nearest(pixel, palette, j),
    ensures
        i == j,
{
    reveal(is_nearest);
    if i < j {
        assert(distance(pixel, palette[j]) < distance(pixel, palette[i]));
        assert(distance(pixel, palette[i]) <= distance(pixel, palette[j]));
    } else if j < i {
        assert(distance(pixel, palette[i]) < distance(pixel, palette[j]));
        assert(distance(pixel, palette[j]) <= distance(pixel, palette[i]));
    }
}

/// The nearest position among the first `n` entries of a table.
proof fn lemma_nearest_in_prefix(pixel: u32, palette: Seq<u32>, n: nat) -> (best: int)
    requires
        0 < n <= palette.len(),
    ensures
        is_nearest(pixel, palette.take(n as int), best),
    decreases n,
{
    reveal(is_nearest);
    if n == 1 {
        0
    } else {
        let before = lemma_nearest_in_prefix(pixel, palette, (n - 1) as nat);
        let shorter = palette.take(n - 1);
        let longer = palette.take(n as int);
        assert forall|j: int| 0 <= j < n - 1 implies #[trigger] longer[j] == shorter[j] by {}
        let last = n - 1;
        if distance(pixel, longer[last]) < distance(pixel, longer[before]) {
            assert forall|j: int| 0 <= j < last implies distance(pixel, longer[last]) < distance(
                pixel,
                #[trigger] longer[j],
            ) by {
                assert(distance(pixel, shorter[before]) <= distance(pixel, shorter[j]));
            }
            last
        } else {
            assert forall|j: int| 0 <= j < n implies distance(pixel, longer[before]) <= distance(
                pixel,
                #[trigger] longer[j],
            ) by {
                if j < last {
                    assert(distance(pixel, shorter[before]) <= distance(pixel, shorter[j]));
                }
            }
            assert forall|j: int| 0 <= j < before implies distance(pixel, longer[before])
                < distance(pixel, #[trigger] longer[j]) by {
                assert(distance(pixel, shorter[before]) < distance(pixel, shorter[j]));
            }
            before
        }
    }
}

/// A table that is not empty has a nearest entry for every color, so the
/// search has an answer, and the answer is a position in the table.
pub proof fn lemma_nearest_exists(pixel: u32, palette: Seq<u32>)
    requires
        palette.len() > 0,
    ensures
        is_nearest(pixel, palette, nearest_index(pixel, palette)),
        0 <= nearest_index(pixel, palette) < palette.len(),
{
    let best = lemma_nearest_in_prefix(pixel, palette, palette.len());
    assert(palette.take(palette.len() as int) =~= palette);
    reveal(is_nearest);
}

/// Computes the gap between two channel values.
fn channel_gap(a: u8, b: u8) -> (d: u32)
    ensures
        d == gap(a as int, b as int),
        d <= 255,
{
    if a >= b {
        (a - b) as u32
    } else {
        (b - a) as u32
    }
}

/// Computes the distance between two colors.
pub fn color_distance(a: u32, b: u32) -> (d: u32)
    ensures
        d == distance(a, b),
        d <= 3 * 255,
{
    let ca = make_rgb_u8(a);
    let cb = make_rgb_u8(b);
    channel_gap(ca[0], cb[0]) + channel_gap(ca[1], cb[1]) + channel_gap(ca[2], cb[2])
}

/// Finds the entry of `palette` nearest to `pixel` and returns its
/// position, which is its protocol code. Among entries equally near, the
/// first one wins.
pub fn nearest_hex_color(pixel: u32, palette: &[u32]) -> (index: u8)
    requires
        0 < palette@.len() <= MAX_PALETTE_LEN,
    ensures
        index < palette@.len(),
        is_nearest(pixel, palette@, index as int),
        index == nearest_index(pixel, palette@),
{
    let mut best: usize = 0;
    let mut best_distance: u32 = color_distance(pixel, palette[0]);
    let mut i: usize = 1;
    while i < palette.len()
        invariant
            0 < palette@.len() <= MAX_PALETTE_LEN,
            1 <= i <= palette@.len(),
            0 <= best < i,
            best_distance == distance(pixel, palette@[best as int]),
            forall|j: int|
                0 <= j < i ==> best_distance <= distance(pixel, #[trigger] palette@[j]),
            forall|j: int|
                0 <= j < best ==> best_distance < distance(pixel, #[trigger] palette@[j]),
        decreases palette@.len() - i,
    {
        let d = color_distance(pixel, palette[i]);
        if d < best_distance {
            best = i;
            best_distance = d;
        }
        i += 1;
    }
    proof {
        assert(is_nearest(pixel, palette@, best as int)) by {
            reveal(is_nearest);
        }
        lemma_nearest_unique(pixel, palette@, best as int, nearest_index(pixel, palette@));
    }
    best as u8
}

/// One of the six intensities of a channel in the ANSI color cube.
pub open spec fn cube_level(step: int) -> int {
    if step == 0 {
        0
    } else {
        55 + 40 * step
    }
}

/// The shorter IRC table is the start of the longer one.
pub proof fn lemma_rgb88_is_prefix(code: int)
    requires
        0 <= code < 88,
    ensures
        RGB88@[code] == RGB99@[code],
{
}

/// The shorter ANSI table is the start of the longer one.
pub proof fn lemma_ansi232_is_prefix(code: int)
    requires
        0 <= code < 232,
    ensures
        ANSI232@[code] == ANSI256@[code],
{
}

/// From code 16 the ANSI table holds the color cube: red, green and blue
/// each take one of six levels, blue changing fastest.
pub proof fn lemma_ansi_cube(r: int, g: int, b: int)
    requires
        0 <= r < 6,
        0 <= g < 6,
        0 <= b < 6,
    ensures
        ANSI256@[16 + 36 * r + 6 * g + b] == pack(cube_level(r), cube_level(g), cube_level(b)),
{
}

/// From code 232 the ANSI table holds 24 grays, ten apart, starting at 8.
pub proof fn lemma_ansi_gray_ramp(step: int)
    requires
        0 <= step < 24,
    ensures
        ANSI256@[232 + step] == pack(8 + 10 * step, 8 + 10 * step, 8 + 10 * step),
{
}

/// The last eleven codes of the IRC table are grays from black to white.
pub proof fn lemma_irc_gray_ramp(code: int)
    requires
        88 <= code < 99,
    ensures
        red(RGB99@[code]) == green(RGB99@[code]) == blue(RGB99@[code]),
{
}

} // verus!
