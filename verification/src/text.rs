//! The text of one drawn character: color codes in front, the block
//! character behind.

use crate::glyph::Glyph;
use crate::pixel::Palette;
use crate::rgb::{blue, green, make_rgb_u8, red};
use vstd::prelude::*;
use vstd::string::StringExecFns;

verus! {

/// What ends a line of ANSI output: all attributes off.
pub const ANSI_RESET: &'static str = "\x1b[0m";

/// What ends a line of IRC output: all formatting off.
pub const IRC_RESET: &'static str = "\x0f";

/// The character of a decimal digit.
pub open spec fn digit(d: int) -> char {
    ('0' as int + d) as char
}

/// A number in decimal, without leading zeros.
pub open spec fn decimal(n: nat) -> Seq<char>
    decreases n,
{
    if n < 10 {
        seq![digit(n as int)]
    } else {
        decimal(n / 10).push(digit((n % 10) as int))
    }
}

/// The three channels of a color in decimal, separated by semicolons.
pub open spec fn rgb_text(rgb: u32) -> Seq<char> {
    decimal(red(rgb) as nat) + ";"@ + decimal(green(rgb) as nat) + ";"@ + decimal(blue(rgb) as nat)
}

/// A glyph in 24-bit ANSI colors: the foreground set to the color of the
/// front pixel, the background to that of the back pixel, then the
/// character.
pub open spec fn truecolor_cell(glyph: Glyph) -> Seq<char> {
    "\x1b[38;2;"@ + rgb_text(glyph.fg.orig) + "m\x1b[48;2;"@ + rgb_text(glyph.bg.orig) + "m"@
        + glyph.symbol@
}

/// A glyph in ANSI palette colors: the foreground and the background set
/// to the codes of the two pixels in `palette`, then the character.
pub open spec fn indexed_cell(glyph: Glyph, palette: Palette) -> Seq<char> {
    "\x1b[38;5;"@ + decimal(glyph.fg.code_in(palette) as nat) + "m\x1b[48;5;"@ + decimal(
        glyph.bg.code_in(palette) as nat,
    ) + "m"@ + glyph.symbol@
}

/// The two color codes of a glyph in `palette`: foreground, background.
pub open spec fn codes_in(glyph: Glyph, palette: Palette) -> (u8, u8) {
    (glyph.fg.code_in(palette), glyph.bg.code_in(palette))
}

/// A glyph in IRC colors, after a glyph with the colors `previous` on the
/// same line (`None` at the start of a line). Where both colors stay, the
/// character stands alone; where the background stays, only the foreground
/// is set; otherwise both are set.
pub open spec fn irc_cell(
    previous: Option<(u8, u8)>,
    glyph: Glyph,
    palette: Palette,
) -> Seq<char> {
    let (fg, bg) = codes_in(glyph, palette);
    match previous {
        Some((last_fg, last_bg)) => if fg == last_fg && bg == last_bg {
            glyph.symbol@
        } else if bg == last_bg {
            "\x03"@ + decimal(fg as nat) + glyph.symbol@
        } else {
            "\x03"@ + decimal(fg as nat) + ","@ + decimal(bg as nat) + glyph.symbol@
        },
        None => "\x03"@ + decimal(fg as nat) + ","@ + decimal(bg as nat) + glyph.symbol@,
    }
}

/// The text of one digit.
fn digit_str(d: u8) -> (text: &'static str)
    requires
        d < 10,
    ensures
        text@ == seq![digit(d as int)],
{
    let text = if d == 0 {
        "0"
    } else if d == 1 {
        "1"
    } else if d == 2 {
        "2"
    } else if d == 3 {
        "3"
    } else if d == 4 {
        "4"
    } else if d == 5 {
        "5"
    } else if d == 6 {
        "6"
    } else if d == 7 {
        "7"
    } else if d == 8 {
        "8"
    } else {
        "9"
    };
    proof {
        reveal_strlit("0");
        reveal_strlit("1");
        reveal_strlit("2");
        reveal_strlit("3");
        reveal_strlit("4");
        reveal_strlit("5");
        reveal_strlit("6");
        reveal_strlit("7");
        reveal_strlit("8");
        reveal_strlit("9");
        assert(text@ =~= seq![digit(d as int)]);
    }
    text
}

/// Appends a number in decimal.
pub fn push_decimal(out: &mut String, n: u8)
    ensures
        final(out)@ == old(out)@ + decimal(n as nat),
{
    proof {
        reveal_with_fuel(decimal, 3);
    }
    if n >= 100 {
        out.append(digit_str(n / 100));
    }
    if n >= 10 {
        out.append(digit_str((n / 10) % 10));
    }
    out.append(digit_str(n % 10));
    assert(out@ =~= old(out)@ + decimal(n as nat));
}

/// Appends the three channels of a color, separated by semicolons.
fn push_rgb(out: &mut String, rgb: u32)
    ensures
        final(out)@ == old(out)@ + rgb_text(rgb),
{
    let channels = make_rgb_u8(rgb);
    push_decimal(out, channels[0]);
    out.append(";");
    push_decimal(out, channels[1]);
    out.append(";");
    push_decimal(out, channels[2]);
    assert(out@ =~= old(out)@ + rgb_text(rgb));
}

/// Appends a glyph in 24-bit ANSI colors.
pub fn push_truecolor_cell(out: &mut String, glyph: &Glyph)
    ensures
        final(out)@ == old(out)@ + truecolor_cell(*glyph),
{
    out.append("\x1b[38;2;");
    push_rgb(out, glyph.fg.orig);
    out.append("m\x1b[48;2;");
    push_rgb(out, glyph.bg.orig);
    out.append("m");
    out.append(glyph.symbol);
    assert(out@ =~= old(out)@ + truecolor_cell(*glyph));
}

/// Appends a glyph in ANSI palette colors.
pub fn push_indexed_cell(out: &mut String, glyph: &Glyph, palette: Palette)
    ensures
        final(out)@ == old(out)@ + indexed_cell(*glyph, palette),
{
    out.append("\x1b[38;5;");
    push_decimal(out, glyph.fg.code(palette));
    out.append("m\x1b[48;5;");
    push_decimal(out, glyph.bg.code(palette));
    out.append("m");
    out.append(glyph.symbol);
    assert(out@ =~= old(out)@ + indexed_cell(*glyph, palette));
}

/// Appends a glyph in IRC colors, leaving out the color codes that the
/// glyph before it on the line has set already.
pub fn push_irc_cell(out: &mut String, previous: Option<(u8, u8)>, glyph: &Glyph, palette: Palette)
    ensures
        final(out)@ == old(out)@ + irc_cell(previous, *glyph, palette),
{
    let fg = glyph.fg.code(palette);
    let bg = glyph.bg.code(palette);
    let (both_stay, bg_stays) = match previous {
        Some((last_fg, last_bg)) => (fg == last_fg && bg == last_bg, bg == last_bg),
        None => (false, false),
    };
    if !both_stay {
        out.append("\x03");
        push_decimal(out, fg);
        if !bg_stays {
            out.append(",");
            push_decimal(out, bg);
        }
    }
    out.append(glyph.symbol);
    assert(out@ =~= old(out)@ + irc_cell(previous, *glyph, palette));
}

} // verus!
