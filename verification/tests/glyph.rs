use img2irc::glyph::{
    check_rule, get_qb_char, select_half_block, select_quadrant, symbol_for, symbol_of_rule,
    Corners, DIAG_LEFT, DIAG_RIGHT, DOWN, DOWN_LEFT, DOWN_RIGHT, FULL, LEFT, RIGHT, RULES, UP,
    UP_LEFT, UP_RIGHT,
};
use img2irc::pixel::{AnsiPixel, AnsiPixelPair, Palette};

fn irc(code: u8) -> AnsiPixel {
    AnsiPixel { orig: 0x010203 * code as u32, ansi: 0, ansi232: 0, irc: code, irc88: 0 }
}

fn tile(top_left: u8, bottom_left: u8, top_right: u8, bottom_right: u8) -> [AnsiPixelPair; 2] {
    [
        AnsiPixelPair { top: irc(top_left), bottom: irc(bottom_left) },
        AnsiPixelPair { top: irc(top_right), bottom: irc(bottom_right) },
    ]
}

fn symbol(top_left: u8, bottom_left: u8, top_right: u8, bottom_right: u8) -> &'static str {
    get_qb_char(&tile(top_left, bottom_left, top_right, bottom_right), Palette::Irc99)
}

#[test]
fn glyphs_are_the_block_characters() {
    assert_eq!(FULL, "█");
    assert_eq!(UP, "▀");
    assert_eq!(DOWN, "▄");
    assert_eq!(LEFT, "▌");
    assert_eq!(RIGHT, "▐");
    assert_eq!(DIAG_RIGHT, "▞");
    assert_eq!(DIAG_LEFT, "▚");
    assert_eq!(DOWN_LEFT, "▙");
    assert_eq!(DOWN_RIGHT, "▟");
    assert_eq!(UP_LEFT, "▛");
    assert_eq!(UP_RIGHT, "▜");
    assert_eq!(RULES, 11);
}

#[test]
fn four_equal_corners_are_a_full_block() {
    assert_eq!(symbol(7, 7, 7, 7), FULL);
    assert_eq!(symbol(0, 0, 0, 0), FULL);
    assert_eq!(symbol(98, 98, 98, 98), FULL);
}

#[test]
fn top_row_and_left_column_are_three_quarters() {
    assert_eq!(symbol(1, 1, 1, 2), UP_LEFT);
}

#[test]
fn top_row_and_right_column_are_three_quarters() {
    assert_eq!(symbol(1, 2, 1, 1), UP_RIGHT);
}

#[test]
fn top_row_alone_is_the_upper_half() {
    assert_eq!(symbol(1, 2, 1, 3), UP);
    assert_eq!(symbol(1, 2, 1, 2), UP);
}

#[test]
fn bottom_row_and_left_column_are_three_quarters() {
    assert_eq!(symbol(1, 1, 2, 1), DOWN_LEFT);
}

#[test]
fn bottom_row_and_right_column_are_three_quarters() {
    assert_eq!(symbol(2, 1, 1, 1), DOWN_RIGHT);
}

#[test]
fn bottom_row_alone_is_the_lower_half() {
    assert_eq!(symbol(1, 3, 2, 3), DOWN);
}

#[test]
fn left_column_alone_is_the_left_half() {
    assert_eq!(symbol(1, 1, 2, 3), LEFT);
}

#[test]
fn right_column_alone_is_the_right_half() {
    assert_eq!(symbol(2, 3, 1, 1), RIGHT);
}

#[test]
fn two_columns_of_different_codes_fall_through_to_the_upper_half() {
    assert_eq!(symbol(1, 1, 2, 2), UP);
}

#[test]
fn falling_diagonal_is_drawn() {
    assert_eq!(symbol(1, 2, 3, 1), DIAG_LEFT);
}

#[test]
fn rising_diagonal_is_drawn() {
    assert_eq!(symbol(1, 2, 2, 3), DIAG_RIGHT);
}

#[test]
fn four_different_corners_are_the_upper_half() {
    assert_eq!(symbol(1, 2, 3, 4), UP);
}

#[test]
fn earlier_rules_win_over_later_ones() {
    // top row and bottom row both hold: the top row decides
    assert_eq!(symbol(1, 2, 1, 2), UP);
    // both diagonals hold: the falling one decides
    assert_eq!(symbol(5, 6, 6, 5), DIAG_LEFT);
    // every pattern holds: the full block decides
    assert_eq!(symbol(3, 3, 3, 3), FULL);
}

#[test]
fn corners_are_compared_in_the_chosen_table() {
    let left = AnsiPixelPair {
        top: AnsiPixel { orig: 1, ansi: 10, ansi232: 20, irc: 30, irc88: 40 },
        bottom: AnsiPixel { orig: 2, ansi: 10, ansi232: 21, irc: 31, irc88: 41 },
    };
    let right = AnsiPixelPair {
        top: AnsiPixel { orig: 3, ansi: 10, ansi232: 20, irc: 32, irc88: 42 },
        bottom: AnsiPixel { orig: 4, ansi: 10, ansi232: 22, irc: 30, irc88: 41 },
    };
    let pairs = [left, right];
    assert_eq!(get_qb_char(&pairs, Palette::Ansi256), FULL);
    assert_eq!(get_qb_char(&pairs, Palette::Ansi232), UP);
    assert_eq!(get_qb_char(&pairs, Palette::Irc99), DIAG_LEFT);
    assert_eq!(get_qb_char(&pairs, Palette::Irc88), DOWN);
}

#[test]
fn cells_after_the_second_play_no_part() {
    let pairs = [
        AnsiPixelPair { top: irc(1), bottom: irc(1) },
        AnsiPixelPair { top: irc(1), bottom: irc(1) },
        AnsiPixelPair { top: irc(9), bottom: irc(8) },
    ];
    assert_eq!(get_qb_char(&pairs, Palette::Irc99), FULL);
}

#[test]
fn a_half_block_has_the_upper_pixel_in_front() {
    let cell = AnsiPixelPair { top: irc(3), bottom: irc(4) };
    let glyph = select_half_block(&cell);
    assert_eq!(glyph.symbol, UP);
    assert_eq!(glyph.fg, irc(3));
    assert_eq!(glyph.bg, irc(4));
}

#[test]
fn a_quadrant_takes_its_colors_from_the_left_cell() {
    let [left, right] = tile(1, 1, 2, 3);
    let glyph = select_quadrant(&left, &right, Palette::Irc99);
    assert_eq!(glyph.symbol, LEFT);
    assert_eq!(glyph.fg, irc(1));
    assert_eq!(glyph.bg, irc(1));

    let [left, right] = tile(4, 5, 6, 6);
    let glyph = select_quadrant(&left, &right, Palette::Irc99);
    assert_eq!(glyph.symbol, RIGHT);
    assert_eq!(glyph.fg, irc(4));
    assert_eq!(glyph.bg, irc(5));
}

fn corners(top_left: u8, bottom_left: u8, top_right: u8, bottom_right: u8) -> Corners {
    Corners { top_left, bottom_left, top_right, bottom_right }
}

#[test]
fn each_rule_draws_its_character() {
    let expected = [
        FULL, UP_LEFT, UP_RIGHT, UP, DOWN_LEFT, DOWN_RIGHT, DOWN, LEFT, RIGHT, DIAG_LEFT,
        DIAG_RIGHT,
    ];
    for rule in 0..RULES {
        assert_eq!(symbol_of_rule(rule), expected[rule]);
    }
    assert_eq!(symbol_of_rule(RULES), UP);
    assert_eq!(symbol_of_rule(200), UP);
}

#[test]
fn each_rule_looks_for_its_pattern() {
    // top row equal, left column equal, right column equal
    assert!(check_rule(0, corners(1, 1, 1, 1)));
    assert!(!check_rule(0, corners(1, 1, 1, 2)));
    // top row and left column
    assert!(check_rule(1, corners(1, 1, 1, 2)));
    assert!(!check_rule(1, corners(1, 2, 1, 1)));
    // top row and right column
    assert!(check_rule(2, corners(1, 2, 1, 1)));
    assert!(!check_rule(2, corners(1, 1, 1, 2)));
    // top row
    assert!(check_rule(3, corners(1, 2, 1, 3)));
    assert!(!check_rule(3, corners(1, 2, 3, 2)));
    // bottom row and left column
    assert!(check_rule(4, corners(1, 1, 2, 1)));
    assert!(!check_rule(4, corners(2, 1, 1, 1)));
    // bottom row and right column
    assert!(check_rule(5, corners(2, 1, 1, 1)));
    assert!(!check_rule(5, corners(1, 1, 2, 1)));
    // bottom row
    assert!(check_rule(6, corners(1, 3, 2, 3)));
    assert!(!check_rule(6, corners(1, 3, 1, 2)));
    // left column and not the right one
    assert!(check_rule(7, corners(1, 1, 2, 3)));
    assert!(!check_rule(7, corners(1, 1, 2, 2)));
    assert!(!check_rule(7, corners(1, 2, 3, 4)));
    // right column and not the left one
    assert!(check_rule(8, corners(2, 3, 1, 1)));
    assert!(!check_rule(8, corners(2, 2, 1, 1)));
    assert!(!check_rule(8, corners(1, 2, 3, 4)));
    // upper left and lower right
    assert!(check_rule(9, corners(1, 2, 3, 1)));
    assert!(!check_rule(9, corners(1, 2, 2, 3)));
    // upper right and lower left
    assert!(check_rule(10, corners(1, 2, 2, 3)));
    assert!(!check_rule(10, corners(1, 2, 3, 1)));
}

#[test]
fn numbers_past_the_last_rule_never_apply() {
    assert!(!check_rule(RULES, corners(1, 1, 1, 1)));
    assert!(!check_rule(12, corners(1, 1, 1, 1)));
    assert!(!check_rule(usize::MAX, corners(1, 2, 3, 4)));
}

#[test]
fn the_first_rule_that_applies_decides() {
    for top_left in 1..=4u8 {
        for bottom_left in 1..=4u8 {
            for top_right in 1..=4u8 {
                for bottom_right in 1..=4u8 {
                    let tile = corners(top_left, bottom_left, top_right, bottom_right);
                    let first = (0..RULES).find(|rule| check_rule(*rule, tile));
                    let expected = match first {
                        Some(rule) => symbol_of_rule(rule),
                        None => UP,
                    };
                    assert_eq!(symbol_for(tile), expected);
                    assert_eq!(symbol(top_left, bottom_left, top_right, bottom_right), expected);
                }
            }
        }
    }
}

#[test]
fn every_rule_decides_for_some_corners() {
    let deciding = [
        (corners(1, 1, 1, 1), FULL),
        (corners(1, 1, 1, 2), UP_LEFT),
        (corners(1, 2, 1, 1), UP_RIGHT),
        (corners(1, 2, 1, 3), UP),
        (corners(1, 1, 2, 1), DOWN_LEFT),
        (corners(2, 1, 1, 1), DOWN_RIGHT),
        (corners(1, 3, 2, 3), DOWN),
        (corners(1, 1, 2, 3), LEFT),
        (corners(2, 3, 1, 1), RIGHT),
        (corners(1, 2, 3, 1), DIAG_LEFT),
        (corners(1, 2, 2, 3), DIAG_RIGHT),
        (corners(1, 2, 3, 4), UP),
    ];
    for (tile, expected) in deciding {
        assert_eq!(symbol_for(tile), expected);
    }
}
