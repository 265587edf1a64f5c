use vstd::prelude::*;

verus! {

/// Index of the colon separator in the glyph table; 0..=9 are the digits.
pub const COLON: u8 = 10;

/// Number of glyphs in the table.
pub const GLYPH_COUNT: usize = 11;

/// Rows of a glyph.
pub const GLYPH_ROWS: usize = 8;

/// Columns of a glyph.
pub const GLYPH_WIDTH: usize = 3;

/// The glyph table: for each glyph, eight rows of three pixels. Bit 2 of a row
/// is the glyph's left column, bit 0 its right one.
pub const FONT: [[u8; 8]; 11] = [
    [0b010, 0b101, 0b101, 0b101, 0b101, 0b101, 0b101, 0b010],
    [0b001, 0b011, 0b101, 0b001, 0b001, 0b001, 0b001, 0b001],
    [0b010, 0b101, 0b001, 0b010, 0b100, 0b100, 0b100, 0b111],
    [0b010, 0b101, 0b001, 0b010, 0b001, 0b001, 0b101, 0b010],
    [0b001, 0b011, 0b101, 0b101, 0b111, 0b001, 0b001, 0b001],
    [0b111, 0b100, 0b100, 0b110, 0b001, 0b001, 0b101, 0b010],
    [0b010, 0b100, 0b100, 0b110, 0b101, 0b101, 0b101, 0b010],
    [0b111, 0b001, 0b001, 0b010, 0b010, 0b010, 0b010, 0b010],
    [0b010, 0b101, 0b101, 0b010, 0b101, 0b101, 0b101, 0b010],
    [0b010, 0b101, 0b101, 0b011, 0b001, 0b001, 0b001, 0b010],
    [0b000, 0b000, 0b010, 0b000, 0b000, 0b010, 0b000, 0b000],
];

/// Whether glyph `g` lights the pixel at row `r`, column `c` (column 0 leftmost).
pub open spec fn glyph_pixel(g: int, r: int, c: int) -> bool {
    (FONT[g][r] >> ((2 - c) as u8)) & 1 == 1
}

/// Whether glyph `g` lights the pixel at row `r`, column `c`.
pub fn glyph_pixel_lit(g: u8, r: usize, c: usize) -> (lit: bool)
    requires
        (g as usize) < GLYPH_COUNT,
        r < GLYPH_ROWS,
        c < GLYPH_WIDTH,
    ensures
        lit == glyph_pixel(g as int, r as int, c as int),
{
    let row = FONT[g as usize][r];
    (row >> ((2 - c) as u8)) & 1 == 1
}

} // verus!
