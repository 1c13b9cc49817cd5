//! Which block character stands for a cell.
//!
//! At half-block resolution a cell is one pixel above another and is always
//! drawn as an upper half block: the foreground paints the upper pixel, the
//! background the lower one. At quadrant resolution two neighbouring cells
//! are drawn as one character, chosen by which of their four pixels share a
//! color code.

use crate::pixel::{AnsiPixel, AnsiPixelPair, Palette};
use vstd::prelude::*;

verus! {

/// █ all four quarters.
pub const FULL: &'static str = "\u{2588}";

/// ▀ the upper half.
pub const UP: &'static str = "\u{2580}";

/// ▄ the lower half.
pub const DOWN: &'static str = "\u{2584}";

/// ▌ the left half.
pub const LEFT: &'static str = "\u{258C}";

/// ▐ the right half.
pub const RIGHT: &'static str = "\u{2590}";

/// ▞ upper right and lower left.
pub const DIAG_RIGHT: &'static str = "\u{259E}";

/// ▚ upper left and lower right.
pub const DIAG_LEFT: &'static str = "\u{259A}";

/// ▙ all but the upper right.
pub const DOWN_LEFT: &'static str = "\u{2599}";

/// ▟ all but the upper left.
pub const DOWN_RIGHT: &'static str = "\u{259F}";

/// ▛ all but the lower right.
pub const UP_LEFT: &'static str = "\u{259B}";

/// ▜ all but the lower left.
pub const UP_RIGHT: &'static str = "\u{259C}";

/// The color codes of the four pixels that one quadrant character covers.
#[derive(Debug, Clone, Copy, PartialEq, Eq, Structural)]
pub struct Corners {
    pub top_left: u8,
    pub bottom_left: u8,
    pub top_right: u8,
    pub bottom_right: u8,
}

/// The number of rules that name a pattern. When none of them applies, the
/// upper half block is drawn.
pub const RULES: usize = 11;

/// Whether the pattern of rule number `rule` is found in the corners. The
/// rules are numbered from 0 in the order in which they are tried.
pub open spec fn rule_applies(rule: int, corners: Corners) -> bool {
    let tops = corners.top_left == corners.top_right;
    let bottoms = corners.bottom_left == corners.bottom_right;
    let lefts = corners.top_left == corners.bottom_left;
    let rights = corners.top_right == corners.bottom_right;
    if rule == 0 {
        tops && lefts && rights
    } else if rule == 1 {
        tops && lefts
    } else if rule == 2 {
        tops && rights
    } else if rule == 3 {
        tops
    } else if rule == 4 {
        bottoms && lefts
    } else if rule == 5 {
        bottoms && rights
    } else if rule == 6 {
        bottoms
    } else if rule == 7 {
        lefts && !rights
    } else if rule == 8 {
        rights && !lefts
    } else if rule == 9 {
        corners.top_left == corners.bottom_right
    } else if rule == 10 {
        corners.top_right == corners.bottom_left
    } else {
        false
    }
}

/// The character that rule number `rule` draws; for a number that is not a
/// rule's, the upper half block.
pub open spec fn rule_symbol(rule: int) -> &'static str {
    if rule == 0 {
        FULL
    } else if rule == 1 {
        UP_LEFT
    } else if rule == 2 {
        UP_RIGHT
    } else if rule == 3 {
        UP
    } else if rule == 4 {
        DOWN_LEFT
    } else if rule == 5 {
        DOWN_RIGHT
    } else if rule == 6 {
        DOWN
    } else if rule == 7 {
        LEFT
    } else if rule == 8 {
        RIGHT
    } else if rule == 9 {
        DIAG_LEFT
    } else if rule == 10 {
        DIAG_RIGHT
    } else {
        UP
    }
}

/// The first rule from number `start` on that applies, or `RULES` when none
/// does.
pub open spec fn first_rule_from(corners: Corners, start: int) -> int
    decreases RULES - start,
{
    if start < 0 || start >= RULES {
        RULES as int
    } else if rule_applies(start, corners) {
        start
    } else {
        first_rule_from(corners, start + 1)
    }
}

/// The character for four corners: that of the first rule that applies.
pub open spec fn quadrant_symbol(corners: Corners) -> &'static str {
    rule_symbol(first_rule_from(corners, 0))
}

/// The rule that decides is the first that applies: it applies itself, and
/// no rule before it does.
pub proof fn lemma_first_rule(corners: Corners)
    ensures
        0 <= first_rule_from(corners, 0) <= RULES,
        first_rule_from(corners, 0) < RULES ==> rule_applies(
            first_rule_from(corners, 0),
            corners,
        ),
        forall|rule: int|
            0 <= rule < first_rule_from(corners, 0) ==> !rule_applies(rule, corners),
        first_rule_from(corners, 0) == RULES ==> quadrant_symbol(corners) == UP,
{
    reveal_with_fuel(first_rule_from, 12);
}

/// Four corners of one code are drawn as a full block.
pub proof fn lemma_uniform_is_full(corners: Corners)
    requires
        corners.top_left == corners.top_right,
        corners.top_left == corners.bottom_left,
        corners.top_left == corners.bottom_right,
    ensures
        quadrant_symbol(corners) == FULL,
{
}

/// Whatever the corners, the character is one of the eleven block
/// characters.
pub proof fn lemma_symbol_is_block(corners: Corners)
    ensures
        exists|rule: int|
            0 <= rule < RULES && quadrant_symbol(corners) == #[trigger] rule_symbol(rule),
{
    lemma_first_rule(corners);
    let decided = first_rule_from(corners, 0);
    if decided < RULES {
        assert(quadrant_symbol(corners) == rule_symbol(decided));
    } else {
        assert(quadrant_symbol(corners) == rule_symbol(3));
    }
}

/// Each block symbol is one character: the block element that its name
/// stands for.
pub proof fn lemma_block_symbols()
    ensures
        FULL@ == seq!['\u{2588}'],
        UP@ == seq!['\u{2580}'],
        DOWN@ == seq!['\u{2584}'],
        LEFT@ == seq!['\u{258C}'],
        RIGHT@ == seq!['\u{2590}'],
        DIAG_RIGHT@ == seq!['\u{259E}'],
        DIAG_LEFT@ == seq!['\u{259A}'],
        DOWN_LEFT@ == seq!['\u{2599}'],
        DOWN_RIGHT@ == seq!['\u{259F}'],
        UP_LEFT@ == seq!['\u{259B}'],
        UP_RIGHT@ == seq!['\u{259C}'],
{
    reveal_strlit("\u{2588}");
    reveal_strlit("\u{2580}");
    reveal_strlit("\u{2584}");
    reveal_strlit("\u{258C}");
    reveal_strlit("\u{2590}");
    reveal_strlit("\u{259E}");
    reveal_strlit("\u{259A}");
    reveal_strlit("\u{2599}");
    reveal_strlit("\u{259F}");
    reveal_strlit("\u{259B}");
    reveal_strlit("\u{259C}");
    assert(FULL@ =~= seq!['\u{2588}']);
    assert(UP@ =~= seq!['\u{2580}']);
    assert(DOWN@ =~= seq!['\u{2584}']);
    assert(LEFT@ =~= seq!['\u{258C}']);
    assert(RIGHT@ =~= seq!['\u{2590}']);
    assert(DIAG_RIGHT@ =~= seq!['\u{259E}']);
    assert(DIAG_LEFT@ =~= seq!['\u{259A}']);
    assert(DOWN_LEFT@ =~= seq!['\u{2599}']);
    assert(DOWN_RIGHT@ =~= seq!['\u{259F}']);
    assert(UP_LEFT@ =~= seq!['\u{259B}']);
    assert(UP_RIGHT@ =~= seq!['\u{259C}']);
}

/// A character and the two pixels that color it.
#[derive(Debug, Clone, Copy)]
pub struct Glyph {
    /// The block character.
    pub symbol: &'static str,
    /// The pixel whose color fills the character's shape.
    pub fg: AnsiPixel,
    /// The pixel whose color fills the rest of the cell.
    pub bg: AnsiPixel,
}

/// The codes of the four pixels of two neighbouring cells in one table.
pub open spec fn corners_of(
    left: AnsiPixelPair,
    right: AnsiPixelPair,
    palette: Palette,
) -> Corners {
    Corners {
        top_left: left.top.code_in(palette),
        bottom_left: left.bottom.code_in(palette),
        top_right: right.top.code_in(palette),
        bottom_right: right.bottom.code_in(palette),
    }
}

/// A cell at half-block resolution: an upper half block, the upper pixel in
/// front and the lower one behind.
pub open spec fn half_block_glyph(cell: AnsiPixelPair) -> Glyph {
    Glyph { symbol: UP, fg: cell.top, bg: cell.bottom }
}

/// Two neighbouring cells at quadrant resolution: the character for their
/// four codes in `palette`, colored by the left cell alone.
pub open spec fn quadrant_glyph(
    left: AnsiPixelPair,
    right: AnsiPixelPair,
    palette: Palette,
) -> Glyph {
    Glyph {
        symbol: quadrant_symbol(corners_of(left, right, palette)),
        fg: left.top,
        bg: left.bottom,
    }
}

/// Tells whether the pattern of rule number `rule` is found in the corners.
pub fn check_rule(rule: usize, corners: Corners) -> (applies: bool)
    ensures
        applies == rule_applies(rule as int, corners),
{
    let tops = corners.top_left == corners.top_right;
    let bottoms = corners.bottom_left == corners.bottom_right;
    let lefts = corners.top_left == corners.bottom_left;
    let rights = corners.top_right == corners.bottom_right;
    if rule == 0 {
        tops && lefts && rights
    } else if rule == 1 {
        tops && lefts
    } else if rule == 2 {
        tops && rights
    } else if rule == 3 {
        tops
    } else if rule == 4 {
        bottoms && lefts
    } else if rule == 5 {
        bottoms && rights
    } else if rule == 6 {
        bottoms
    } else if rule == 7 {
        lefts && !rights
    } else if rule == 8 {
        rights && !lefts
    } else if rule == 9 {
        corners.top_left == corners.bottom_right
    } else if rule == 10 {
        corners.top_right == corners.bottom_left
    } else {
        false
    }
}

/// The character that rule number `rule` draws.
pub fn symbol_of_rule(rule: usize) -> (symbol: &'static str)
    ensures
        symbol == rule_symbol(rule as int),
{
    if rule == 0 {
        FULL
    } else if rule == 1 {
        UP_LEFT
    } else if rule == 2 {
        UP_RIGHT
    } else if rule == 3 {
        UP
    } else if rule == 4 {
        DOWN_LEFT
    } else if rule == 5 {
        DOWN_RIGHT
    } else if rule == 6 {
        DOWN
    } else if rule == 7 {
        LEFT
    } else if rule == 8 {
        RIGHT
    } else if rule == 9 {
        DIAG_LEFT
    } else if rule == 10 {
        DIAG_RIGHT
    } else {
        UP
    }
}

/// Chooses the character for four corners: tries the rules in order and
/// draws what the first one that applies says, or the upper half block when
/// none applies.
pub fn symbol_for(corners: Corners) -> (symbol: &'static str)
    ensures
        symbol == quadrant_symbol(corners),
{
    let mut rule: usize = 0;
    while rule < RULES
        invariant
            0 <= rule <= RULES,
            first_rule_from(corners, 0) == first_rule_from(corners, rule as int),
        decreases RULES - rule,
    {
        if check_rule(rule, corners) {
            return symbol_of_rule(rule);
        }
        rule += 1;
    }
    symbol_of_rule(RULES)
}

/// Chooses the character for two neighbouring cells, `pixel_pairs[0]` on
/// the left and `pixel_pairs[1]` on the right, by their codes in `palette`.
/// The rules are tried in order and the first that applies decides:
///
/// | rule | pattern | character |
/// |------|---------|-----------|
/// | 0 | top row, left column and right column each of one code | █ |
/// | 1 | top row and left column | ▛ |
/// | 2 | top row and right column | ▜ |
/// | 3 | top row | ▀ |
/// | 4 | bottom row and left column | ▙ |
/// | 5 | bottom row and right column | ▟ |
/// | 6 | bottom row | ▄ |
/// | 7 | left column, not the right one | ▌ |
/// | 8 | right column, not the left one | ▐ |
/// | 9 | upper left and lower right | ▚ |
/// | 10 | upper right and lower left | ▞ |
///
/// and ▀ when none does.
pub fn get_qb_char(pixel_pairs: &[AnsiPixelPair], palette: Palette) -> (symbol: &'static str)
    requires
        pixel_pairs@.len() >= 2,
    ensures
        symbol == quadrant_symbol(corners_of(pixel_pairs@[0], pixel_pairs@[1], palette)),
{
    symbol_for(
        Corners {
            top_left: pixel_pairs[0].top.code(palette),
            bottom_left: pixel_pairs[0].bottom.code(palette),
            top_right: pixel_pairs[1].top.code(palette),
            bottom_right: pixel_pairs[1].bottom.code(palette),
        },
    )
}

/// The glyph of one cell at half-block resolution.
pub fn select_half_block(cell: &AnsiPixelPair) -> (glyph: Glyph)
    ensures
        glyph == half_block_glyph(*cell),
{
    Glyph { symbol: UP, fg: cell.top, bg: cell.bottom }
}

/// The glyph of two neighbouring cells at quadrant resolution. The right
/// cell bears on the character only; both colors are the left cell's.
pub fn select_quadrant(
    left: &AnsiPixelPair,
    right: &AnsiPixelPair,
    palette: Palette,
) -> (glyph: Glyph)
    ensures
        glyph == quadrant_glyph(*left, *right, palette),
{
    let pairs = [*left, *right];
    Glyph { symbol: get_qb_char(pairs.as_slice(), palette), fg: left.top, bg: left.bottom }
}

} // verus!
