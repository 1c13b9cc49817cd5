//! Drawing an image as text.
//!
//! The cells of the image are walked row by row. Each cell, or each two
//! neighbouring cells at quadrant resolution, becomes one glyph, written
//! with the color codes of the chosen protocol. Every line ends with the
//! protocol's reset code; lines are separated by a line break, and none
//! follows the last line.

use crate::glyph::{
    corners_of, half_block_glyph, lemma_uniform_is_full, quadrant_glyph, select_half_block,
    select_quadrant, Glyph, FULL, UP,
};
use crate::grid::{grid_error, lemma_cell_grid_shape, rows, source_rows, AnsiImage, Canvas};
use crate::pixel::{quantize, AnsiPixelPair, Palette};
use crate::text::{
    codes_in, decimal, indexed_cell, irc_cell, push_indexed_cell, push_irc_cell,
    push_truecolor_cell, truecolor_cell, ANSI_RESET, IRC_RESET,
};
use vstd::prelude::*;
use vstd::string::StringExecFns;

verus! {

/// The protocol whose color codes are written.
#[derive(Debug, Clone, Copy, PartialEq, Eq, Structural)]
pub enum RenderMode {
    /// IRC color codes.
    Irc,
    /// ANSI escape sequences with palette codes.
    Ansi256,
    /// ANSI escape sequences with 24-bit colors.
    AnsiTrueColor,
}

/// How an image is drawn.
#[derive(Debug, Clone, Copy, PartialEq, Eq, Structural)]
pub struct RenderOptions {
    /// The protocol.
    pub mode: RenderMode,
    /// Whether one character shows two cells side by side rather than one.
    pub quadrant: bool,
    /// Whether palette colors come from the tables without a gray ramp.
    pub nograyscale: bool,
}

impl RenderOptions {
    /// The options with the given fields.
    pub open spec fn of(mode: RenderMode, quadrant: bool, nograyscale: bool) -> RenderOptions {
        RenderOptions { mode, quadrant, nograyscale }
    }

    /// The options that a set of switches asks for. The protocols are
    /// looked at in the order IRC, ANSI palette, ANSI 24-bit; with no
    /// switch set the protocol is IRC.
    pub open spec fn of_flags(
        irc: bool,
        ansi: bool,
        ansi24: bool,
        qb: bool,
        nograyscale: bool,
    ) -> RenderOptions {
        RenderOptions {
            mode: if irc {
                RenderMode::Irc
            } else if ansi {
                RenderMode::Ansi256
            } else if ansi24 {
                RenderMode::AnsiTrueColor
            } else {
                RenderMode::Irc
            },
            quadrant: qb,
            nograyscale,
        }
    }

    /// Turns a set of switches into options.
    pub fn from_flags(
        irc: bool,
        ansi: bool,
        ansi24: bool,
        qb: bool,
        nograyscale: bool,
    ) -> (options: RenderOptions)
        ensures
            options == RenderOptions::of_flags(irc, ansi, ansi24, qb, nograyscale),
    {
        let mode = if irc {
            RenderMode::Irc
        } else if ansi {
            RenderMode::Ansi256
        } else if ansi24 {
            RenderMode::AnsiTrueColor
        } else {
            RenderMode::Irc
        };
        RenderOptions { mode, quadrant: qb, nograyscale }
    }

    /// The table whose codes decide which pixels count as equal and, in the
    /// two palette protocols, which colors are written. With 24-bit colors
    /// it is the extended IRC table.
    pub open spec fn palette(self) -> Palette {
        match self.mode {
            RenderMode::Irc => if self.nograyscale {
                Palette::Irc88
            } else {
                Palette::Irc99
            },
            RenderMode::Ansi256 => if self.nograyscale {
                Palette::Ansi232
            } else {
                Palette::Ansi256
            },
            RenderMode::AnsiTrueColor => Palette::Irc99,
        }
    }

    /// Picks the table for these options.
    pub fn active_palette(&self) -> (palette: Palette)
        ensures
            palette == self.palette(),
    {
        match self.mode {
            RenderMode::Irc => if self.nograyscale {
                Palette::Irc88
            } else {
                Palette::Irc99
            },
            RenderMode::Ansi256 => if self.nograyscale {
                Palette::Ansi232
            } else {
                Palette::Ansi256
            },
            RenderMode::AnsiTrueColor => Palette::Irc99,
        }
    }
}

/// The number of glyphs in a line for a row of `width` cells. At quadrant
/// resolution a row of odd width ends in a glyph for its last cell alone.
pub open spec fn glyph_count(width: nat, quadrant: bool) -> nat {
    if quadrant {
        (width + 1) / 2
    } else {
        width
    }
}

/// Glyph number `k` of a row. At half-block resolution it is that of cell
/// `k`. At quadrant resolution it is that of cells `2k` and `2k + 1`; on a
/// `plain` row, and for a last cell without a neighbour, it is the
/// half-block glyph of cell `2k`.
pub open spec fn glyph_at(
    row: Seq<AnsiPixelPair>,
    k: int,
    options: RenderOptions,
    plain: bool,
) -> Glyph {
    if !options.quadrant {
        half_block_glyph(row[k])
    } else if plain || 2 * k + 1 >= row.len() {
        half_block_glyph(row[2 * k])
    } else {
        quadrant_glyph(row[2 * k], row[2 * k + 1], options.palette())
    }
}

/// The text of glyph number `k` of a row. In IRC the codes depend on the
/// glyph before it.
pub open spec fn cell_text(
    row: Seq<AnsiPixelPair>,
    k: int,
    options: RenderOptions,
    plain: bool,
) -> Seq<char> {
    let glyph = glyph_at(row, k, options, plain);
    match options.mode {
        RenderMode::AnsiTrueColor => truecolor_cell(glyph),
        RenderMode::Ansi256 => indexed_cell(glyph, options.palette()),
        RenderMode::Irc => irc_cell(
            if k == 0 {
                None
            } else {
                Some(codes_in(glyph_at(row, k - 1, options, plain), options.palette()))
            },
            glyph,
            options.palette(),
        ),
    }
}

/// The texts of the first `count` glyphs of a row.
pub open spec fn cell_texts(
    row: Seq<AnsiPixelPair>,
    options: RenderOptions,
    plain: bool,
    count: nat,
) -> Seq<Seq<char>> {
    Seq::new(count, |k: int| cell_text(row, k, options, plain))
}

/// What ends a line in the given protocol.
pub open spec fn reset_text(mode: RenderMode) -> Seq<char> {
    match mode {
        RenderMode::Irc => IRC_RESET@,
        _ => ANSI_RESET@,
    }
}

/// The text of a row: its glyphs one after another, then the reset code.
pub open spec fn row_text(
    row: Seq<AnsiPixelPair>,
    options: RenderOptions,
    plain: bool,
) -> Seq<char> {
    cell_texts(row, options, plain, glyph_count(row.len(), options.quadrant)).flatten()
        + reset_text(options.mode)
}

/// Whether row `r` of a grid is drawn plain: it is the last row and its
/// lower pixels were added to the image.
pub open spec fn is_plain_row(grid: Seq<Seq<AnsiPixelPair>>, padded: bool, r: int) -> bool {
    padded && r == grid.len() - 1
}

/// Glyph number `k` of row `r` of an image, as the options draw it.
pub open spec fn glyph_of(canvas: Canvas, options: RenderOptions, r: int, k: int) -> Glyph {
    glyph_at(canvas.cells[r], k, options, is_plain_row(canvas.cells, canvas.padded, r))
}

/// The text of row `r` of a grid with what separates it from the next row:
/// a line break, except after the last row.
pub open spec fn line_text(
    grid: Seq<Seq<AnsiPixelPair>>,
    padded: bool,
    options: RenderOptions,
    r: int,
) -> Seq<char> {
    row_text(grid[r], options, is_plain_row(grid, padded, r)) + if r == grid.len() - 1 {
        Seq::<char>::empty()
    } else {
        "\n"@
    }
}

/// The texts of the first `count` rows of a grid.
pub open spec fn line_texts(
    grid: Seq<Seq<AnsiPixelPair>>,
    padded: bool,
    options: RenderOptions,
    count: nat,
) -> Seq<Seq<char>> {
    Seq::new(count, |r: int| line_text(grid, padded, options, r))
}

/// The whole text of an image: its lines one after another.
pub open spec fn drawing(canvas: Canvas, options: RenderOptions) -> Seq<char> {
    line_texts(canvas.cells, canvas.padded, options, canvas.cells.len()).flatten()
}

/// A row's text grows by the text of one glyph at a time.
pub proof fn lemma_cell_texts_step(
    row: Seq<AnsiPixelPair>,
    options: RenderOptions,
    plain: bool,
    k: nat,
)
    ensures
        cell_texts(row, options, plain, k + 1).flatten() == cell_texts(
            row,
            options,
            plain,
            k,
        ).flatten() + cell_text(row, k as int, options, plain),
{
    let texts = cell_texts(row, options, plain, k);
    let piece = cell_text(row, k as int, options, plain);
    assert(cell_texts(row, options, plain, k + 1) =~= texts.push(piece));
    texts.lemma_flatten_push(piece);
}

/// A drawing grows by one line at a time.
pub proof fn lemma_line_texts_step(
    grid: Seq<Seq<AnsiPixelPair>>,
    padded: bool,
    options: RenderOptions,
    r: nat,
)
    ensures
        line_texts(grid, padded, options, r + 1).flatten() == line_texts(
            grid,
            padded,
            options,
            r,
        ).flatten() + line_text(grid, padded, options, r as int),
{
    let texts = line_texts(grid, padded, options, r);
    let piece = line_text(grid, padded, options, r as int);
    assert(line_texts(grid, padded, options, r + 1) =~= texts.push(piece));
    texts.lemma_flatten_push(piece);
}

/// Chooses glyph number `k` of a row.
fn select_glyph(
    row: &Vec<AnsiPixelPair>,
    k: usize,
    options: &RenderOptions,
    plain: bool,
) -> (glyph: Glyph)
    requires
        k < glyph_count(row@.len(), options.quadrant),
    ensures
        glyph == glyph_at(row@, k as int, *options, plain),
{
    let width = row.len();
    if !options.quadrant {
        select_half_block(&row[k])
    } else if plain || width - 2 * k < 2 {
        select_half_block(&row[2 * k])
    } else {
        select_quadrant(&row[2 * k], &row[2 * k + 1], options.active_palette())
    }
}

/// Appends the text of a glyph in the protocol of the options. `last` holds
/// the colors of the glyph before it on the line.
fn push_cell(out: &mut String, glyph: &Glyph, last: Option<(u8, u8)>, options: &RenderOptions)
    ensures
        final(out)@ == old(out)@ + match options.mode {
            RenderMode::AnsiTrueColor => truecolor_cell(*glyph),
            RenderMode::Ansi256 => indexed_cell(*glyph, options.palette()),
            RenderMode::Irc => irc_cell(last, *glyph, options.palette()),
        },
{
    let palette = options.active_palette();
    match options.mode {
        RenderMode::AnsiTrueColor => push_truecolor_cell(out, glyph),
        RenderMode::Ansi256 => push_indexed_cell(out, glyph, palette),
        RenderMode::Irc => push_irc_cell(out, last, glyph, palette),
    }
}

/// Appends the text of a row.
fn draw_row(out: &mut String, row: &Vec<AnsiPixelPair>, options: &RenderOptions, plain: bool)
    ensures
        final(out)@ == old(out)@ + row_text(row@, *options, plain),
{
    let count = if options.quadrant {
        row.len() / 2 + row.len() % 2
    } else {
        row.len()
    };
    let palette = options.active_palette();
    let mut last: Option<(u8, u8)> = None;
    let mut k: usize = 0;
    while k < count
        invariant
            count == glyph_count(row@.len(), options.quadrant),
            palette == options.palette(),
            0 <= k <= count,
            out@ == old(out)@ + cell_texts(row@, *options, plain, k as nat).flatten(),
            last == if k == 0 {
                None
            } else {
                Some(codes_in(glyph_at(row@, k - 1, *options, plain), palette))
            },
        decreases count - k,
    {
        let glyph = select_glyph(row, k, options, plain);
        let ghost before = out@;
        push_cell(out, &glyph, last, options);
        last = Some((glyph.fg.code(palette), glyph.bg.code(palette)));
        proof {
            assert(out@ == before + cell_text(row@, k as int, *options, plain));
            lemma_cell_texts_step(row@, *options, plain, k as nat);
            assert(out@ =~= old(out)@ + cell_texts(
                row@,
                *options,
                plain,
                (k + 1) as nat,
            ).flatten());
        }
        k += 1;
    }
    let ghost cells = out@;
    match options.mode {
        RenderMode::Irc => out.append(IRC_RESET),
        _ => out.append(ANSI_RESET),
    }
    assert(out@ == cells + reset_text(options.mode));
    assert(out@ =~= old(out)@ + row_text(row@, *options, plain));
}

/// Draws an image as the options say.
pub fn render(image: &AnsiImage, options: &RenderOptions) -> (text: String)
    ensures
        text@ == drawing(image@, *options),
{
    let mut out = String::new();
    let height = image.halfblock.len();
    let ghost grid = rows(image.halfblock);
    let mut y: usize = 0;
    while y < height
        invariant
            height == image.halfblock@.len(),
            grid == rows(image.halfblock),
            0 <= y <= height,
            out@ == line_texts(grid, image.padded, *options, y as nat).flatten(),
        decreases height - y,
    {
        let ghost before = out@;
        let plain = image.padded && y == height - 1;
        draw_row(&mut out, &image.halfblock[y], options, plain);
        if y != height - 1 {
            out.append("\n");
        }
        proof {
            assert(out@ =~= before + line_text(grid, image.padded, *options, y as int));
            lemma_line_texts_step(grid, image.padded, *options, y as nat);
        }
        y += 1;
    }
    out
}

/// Draws an image in 24-bit ANSI colors, one character per cell.
pub fn ansi_draw_24bit(image: AnsiImage) -> (text: String)
    ensures
        text@ == drawing(image@, RenderOptions::of(RenderMode::AnsiTrueColor, false, false)),
{
    render(
        &image,
        &RenderOptions { mode: RenderMode::AnsiTrueColor, quadrant: false, nograyscale: false },
    )
}

/// Draws an image in 24-bit ANSI colors, one character per two cells. Which
/// pixels count as equal is decided by their extended IRC codes.
pub fn ansi_draw_24bit_qb(image: AnsiImage) -> (text: String)
    ensures
        text@ == drawing(image@, RenderOptions::of(RenderMode::AnsiTrueColor, true, false)),
{
    render(
        &image,
        &RenderOptions { mode: RenderMode::AnsiTrueColor, quadrant: true, nograyscale: false },
    )
}

/// Draws an image in ANSI palette colors, one character per cell.
pub fn ansi_draw_8bit(image: AnsiImage, nograyscale: bool) -> (text: String)
    ensures
        text@ == drawing(image@, RenderOptions::of(RenderMode::Ansi256, false, nograyscale)),
{
    render(&image, &RenderOptions { mode: RenderMode::Ansi256, quadrant: false, nograyscale })
}

/// Draws an image in ANSI palette colors, one character per two cells.
pub fn ansi_draw_8bit_qb(image: AnsiImage, nograyscale: bool) -> (text: String)
    ensures
        text@ == drawing(image@, RenderOptions::of(RenderMode::Ansi256, true, nograyscale)),
{
    render(&image, &RenderOptions { mode: RenderMode::Ansi256, quadrant: true, nograyscale })
}

/// Draws an image in IRC colors, one character per cell.
pub fn irc_draw(image: AnsiImage, nograyscale: bool) -> (text: String)
    ensures
        text@ == drawing(image@, RenderOptions::of(RenderMode::Irc, false, nograyscale)),
{
    render(&image, &RenderOptions { mode: RenderMode::Irc, quadrant: false, nograyscale })
}

/// Draws an image in IRC colors, one character per two cells.
pub fn irc_draw_qb(image: AnsiImage, nograyscale: bool) -> (text: String)
    ensures
        text@ == drawing(image@, RenderOptions::of(RenderMode::Irc, true, nograyscale)),
{
    render(&image, &RenderOptions { mode: RenderMode::Irc, quadrant: true, nograyscale })
}

/// The characters of the first `count` glyphs of a row, without any color
/// code.
pub open spec fn symbol_texts(
    row: Seq<AnsiPixelPair>,
    options: RenderOptions,
    plain: bool,
    count: nat,
) -> Seq<Seq<char>> {
    Seq::new(count, |k: int| glyph_at(row, k, options, plain).symbol@)
}

/// At half-block resolution every glyph is the upper half block, with the
/// upper pixel of its cell in front and the lower one behind.
pub proof fn lemma_half_block_glyphs(
    row: Seq<AnsiPixelPair>,
    k: int,
    options: RenderOptions,
    plain: bool,
)
    requires
        !options.quadrant,
    ensures
        glyph_at(row, k, options, plain) == (Glyph {
            symbol: UP,
            fg: row[k].top,
            bg: row[k].bottom,
        }),
{
}

/// On the last row of an image whose last pixel row was added, every glyph
/// is the upper half block, colored by the cell it starts at, whatever the
/// resolution and whatever the colors.
pub proof fn lemma_padded_row_is_plain(canvas: Canvas, options: RenderOptions, k: int)
    requires
        canvas.cells.len() > 0,
        canvas.padded,
    ensures
        glyph_of(canvas, options, canvas.cells.len() - 1, k).symbol == UP,
        glyph_of(canvas, options, canvas.cells.len() - 1, k) == half_block_glyph(
            canvas.cells.last()[if options.quadrant {
                2 * k
            } else {
                k
            }],
        ),
{
}

/// An image with an odd number of pixel rows has half as many rows of
/// cells, rounded up, and every glyph of its last line is the upper half
/// block.
pub proof fn lemma_odd_image_ends_plain(bytes: Seq<u8>, width: u32, options: RenderOptions, k: int)
    requires
        grid_error(bytes, width) is None,
        source_rows(bytes, width) % 2 == 1,
    ensures
        Canvas::of_bytes(bytes, width).cells.len() == (source_rows(bytes, width) + 1) / 2,
        glyph_of(
            Canvas::of_bytes(bytes, width),
            options,
            (source_rows(bytes, width) + 1) / 2 - 1,
            k,
        ).symbol == UP,
{
    lemma_cell_grid_shape(bytes, width);
    lemma_padded_row_is_plain(Canvas::of_bytes(bytes, width), options, k);
}

/// In an image where every pixel has the same color, two neighbouring cells
/// are drawn as a full block at quadrant resolution, on every row but one
/// whose lower pixels were added.
pub proof fn lemma_uniform_image_is_full(
    canvas: Canvas,
    color: u32,
    options: RenderOptions,
    r: int,
    k: int,
)
    requires
        canvas.wf(),
        forall|y: int, x: int|
            0 <= y < canvas.bitmap.len() && 0 <= x < canvas.bitmap[0].len()
                ==> #[trigger] canvas.bitmap[y][x] == color,
        options.quadrant,
        0 <= r < canvas.cells.len(),
        !is_plain_row(canvas.cells, canvas.padded, r),
        0 <= k,
        2 * k + 1 < canvas.bitmap[0].len(),
    ensures
        glyph_of(canvas, options, r, k).symbol == FULL,
{
    let row = canvas.cells[r];
    let left = row[2 * k];
    let right = row[2 * k + 1];
    assert(canvas.bitmap[2 * r][2 * k] == color);
    assert(canvas.bitmap[2 * r + 1][2 * k] == color);
    assert(canvas.bitmap[2 * r][2 * k + 1] == color);
    assert(canvas.bitmap[2 * r + 1][2 * k + 1] == color);
    lemma_uniform_is_full(corners_of(left, right, options.palette()));
}

/// In an image whose pixel rows above row `boundary` have the color `above`
/// and whose rows from `boundary` on have the color `below`, with `boundary`
/// odd, the row of cells that holds pixel row `boundary` is drawn at
/// half-block resolution with `above` in front and `below` behind.
pub proof fn lemma_split_image_boundary(
    canvas: Canvas,
    above: u32,
    below: u32,
    boundary: int,
    options: RenderOptions,
    c: int,
)
    requires
        canvas.wf(),
        0 <= boundary < canvas.bitmap.len(),
        boundary % 2 == 1,
        forall|y: int, x: int|
            0 <= y < canvas.bitmap.len() && 0 <= x < canvas.bitmap[0].len()
                ==> #[trigger] canvas.bitmap[y][x] == if y < boundary {
                above
            } else {
                below
            },
        !options.quadrant,
        0 <= c < canvas.bitmap[0].len(),
    ensures
        glyph_of(canvas, options, boundary / 2, c) == (Glyph {
            symbol: UP,
            fg: quantize(above),
            bg: quantize(below),
        }),
        quantize(above).orig == above,
        quantize(below).orig == below,
{
    let r = boundary / 2;
    assert(canvas.bitmap[2 * r][c] == above);
    assert(canvas.bitmap[2 * r + 1][c] == below);
}

/// In IRC, glyphs that all have the colors of the first glyph of the line
/// are written as one code that sets both colors, followed by the
/// characters alone.
pub proof fn lemma_irc_run_sets_colors_once(
    row: Seq<AnsiPixelPair>,
    options: RenderOptions,
    plain: bool,
    count: nat,
)
    requires
        options.mode == RenderMode::Irc,
        count >= 1,
        forall|k: int|
            0 <= k < count ==> codes_in(
                #[trigger] glyph_at(row, k, options, plain),
                options.palette(),
            ) == codes_in(glyph_at(row, 0, options, plain), options.palette()),
    ensures
        cell_texts(row, options, plain, count).flatten() == "\x03"@ + decimal(
            codes_in(glyph_at(row, 0, options, plain), options.palette()).0 as nat,
        ) + ","@ + decimal(codes_in(glyph_at(row, 0, options, plain), options.palette()).1 as nat)
            + symbol_texts(row, options, plain, count).flatten(),
    decreases count,
{
    let palette = options.palette();
    let (fg, bg) = codes_in(glyph_at(row, 0, options, plain), palette);
    let code = "\x03"@ + decimal(fg as nat) + ","@ + decimal(bg as nat);
    let last = (count - 1) as nat;
    let texts = cell_texts(row, options, plain, last);
    let symbols = symbol_texts(row, options, plain, last);
    let piece = cell_text(row, last as int, options, plain);
    let symbol = glyph_at(row, last as int, options, plain).symbol@;
    assert(cell_texts(row, options, plain, count) =~= texts.push(piece));
    assert(symbol_texts(row, options, plain, count) =~= symbols.push(symbol));
    texts.lemma_flatten_push(piece);
    symbols.lemma_flatten_push(symbol);
    if count == 1 {
        assert(texts.flatten() =~= Seq::<char>::empty());
        assert(symbols.flatten() =~= Seq::<char>::empty());
        assert(piece =~= code + symbol);
        assert(texts.flatten() + piece =~= code + (symbols.flatten() + symbol));
    } else {
        lemma_irc_run_sets_colors_once(row, options, plain, last);
        assert(codes_in(glyph_at(row, last as int, options, plain), palette) == (fg, bg));
        assert(codes_in(glyph_at(row, last - 1, options, plain), palette) == (fg, bg));
        assert(piece =~= symbol);
        assert(texts.flatten() + piece =~= code + (symbols.flatten() + symbol));
    }
}

/// In IRC, a row whose glyphs all have the same two colors is written as
/// one code that sets both, the characters of the glyphs, and the reset
/// code: no color is set a second time.
pub proof fn lemma_irc_row_of_one_color_pair(
    row: Seq<AnsiPixelPair>,
    options: RenderOptions,
    plain: bool,
    fg: u8,
    bg: u8,
)
    requires
        options.mode == RenderMode::Irc,
        glyph_count(row.len(), options.quadrant) >= 1,
        forall|k: int|
            0 <= k < glyph_count(row.len(), options.quadrant) ==> codes_in(
                #[trigger] glyph_at(row, k, options, plain),
                options.palette(),
            ) == (fg, bg),
    ensures
        row_text(row, options, plain) == "\x03"@ + decimal(fg as nat) + ","@ + decimal(bg as nat)
            + symbol_texts(
            row,
            options,
            plain,
            glyph_count(row.len(), options.quadrant),
        ).flatten() + IRC_RESET@,
{
    let count = glyph_count(row.len(), options.quadrant);
    assert(codes_in(glyph_at(row, 0, options, plain), options.palette()) == (fg, bg));
    lemma_irc_run_sets_colors_once(row, options, plain, count);
}

} // verus!
