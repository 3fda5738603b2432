//! Block glyphs: every symbol of the display is a grid of fifteen rows by
//! three cells, each cell four characters wide.
//!
//! A glyph is made of five bands of three rows each. Bands 0, 2 and 4 are the
//! bars of a seven-segment digit, bands 1 and 3 the uprights between them.
//! A cell either carries the symbol's mark, its character four times over, or
//! is blank.

use vstd::prelude::*;

verus! {

/// Rows of a glyph.
pub const GLYPH_ROWS: usize = 15;

/// Cells in a row of a glyph.
pub const GLYPH_COLUMNS: usize = 3;

/// The symbol of the separator between two fields.
pub const COLON: u8 = 13;

/// How one row of a glyph is filled, left to right.
pub enum RowShape {
    /// All three cells.
    Full,
    /// The left and the right cell.
    Sides,
    /// The left cell.
    Left,
    /// The right cell.
    Right,
    /// The middle cell.
    Centre,
    /// No cell.
    Empty,
}

impl RowShape {
    /// Whether the cell in `column` carries the mark.
    pub open spec fn marks(self, column: int) -> bool {
        match self {
            RowShape::Full => true,
            RowShape::Sides => column == 0 || column == 2,
            RowShape::Left => column == 0,
            RowShape::Right => column == 2,
            RowShape::Centre => column == 1,
            RowShape::Empty => false,
        }
    }
}

/// The digits and the separator have a glyph of their own; every other
/// symbol is drawn as the error glyph.
pub open spec fn is_defined(symbol: u8) -> bool {
    symbol <= 9 || symbol == COLON
}

/// The shape of the error glyph in a band: a capital E.
pub open spec fn error_shape(band: int) -> RowShape {
    if band == 1 || band == 3 {
        RowShape::Left
    } else {
        RowShape::Full
    }
}

/// The shape of a symbol's glyph in a band.
pub open spec fn band_shape(symbol: u8, band: int) -> RowShape {
    let bar = band == 0 || band == 2 || band == 4;
    if symbol == 0 {
        if band == 0 || band == 4 { RowShape::Full } else { RowShape::Sides }
    } else if symbol == 1 {
        RowShape::Right
    } else if symbol == 2 {
        if bar { RowShape::Full } else if band == 1 { RowShape::Right } else { RowShape::Left }
    } else if symbol == 3 {
        if bar { RowShape::Full } else { RowShape::Right }
    } else if symbol == 4 {
        if band == 2 { RowShape::Full } else if band < 2 { RowShape::Sides } else { RowShape::Right }
    } else if symbol == 5 {
        if bar { RowShape::Full } else if band == 1 { RowShape::Left } else { RowShape::Right }
    } else if symbol == 6 {
        if bar { RowShape::Full } else if band == 1 { RowShape::Left } else { RowShape::Sides }
    } else if symbol == 7 {
        if band == 0 { RowShape::Full } else { RowShape::Right }
    } else if symbol == 8 {
        if bar { RowShape::Full } else { RowShape::Sides }
    } else if symbol == 9 {
        if bar { RowShape::Full } else if band == 1 { RowShape::Sides } else { RowShape::Right }
    } else if symbol == COLON {
        if band == 2 { RowShape::Centre } else { RowShape::Empty }
    } else {
        error_shape(band)
    }
}

/// The character that a symbol's glyph is drawn with.
pub open spec fn symbol_char(symbol: u8) -> char {
    if symbol == 0 {
        '0'
    } else if symbol == 1 {
        '1'
    } else if symbol == 2 {
        '2'
    } else if symbol == 3 {
        '3'
    } else if symbol == 4 {
        '4'
    } else if symbol == 5 {
        '5'
    } else if symbol == 6 {
        '6'
    } else if symbol == 7 {
        '7'
    } else if symbol == 8 {
        '8'
    } else if symbol == 9 {
        '9'
    } else if symbol == COLON {
        ':'
    } else {
        'E'
    }
}

/// A cell filled with one character.
pub open spec fn filled(c: char) -> Seq<char> {
    seq![c, c, c, c]
}

/// A cell that carries the symbol's mark.
pub open spec fn mark(symbol: u8) -> Seq<char> {
    filled(symbol_char(symbol))
}

/// A cell that carries nothing.
pub open spec fn blank() -> Seq<char> {
    filled(' ')
}

/// The cell of a symbol's glyph at a row and a column.
pub open spec fn glyph_cell(symbol: u8, row: int, column: int) -> Seq<char> {
    if band_shape(symbol, row / 3).marks(column) {
        mark(symbol)
    } else {
        blank()
    }
}

/// The cell of the error glyph at a row and a column.
pub open spec fn error_cell(row: int, column: int) -> Seq<char> {
    if error_shape(row / 3).marks(column) {
        filled('E')
    } else {
        blank()
    }
}

/// Splits a two-digit field into its tens digit and its units digit.
///
/// Values above 99 are not rejected: the first element is then ten or more.
pub fn separate_digits(value: u8) -> (digits: [u8; 2])
    ensures
        digits[0] == value / 10,
        digits[1] == value % 10,
{
    [value / 10, value % 10]
}

/// The mark of a symbol as a string.
fn symbol_mark<'b>(value: u8) -> (cell: &'b str)
    ensures
        cell@ == mark(value),
{
    proof {
        reveal_strlit("0000");
        reveal_strlit("1111");
        reveal_strlit("2222");
        reveal_strlit("3333");
        reveal_strlit("4444");
        reveal_strlit("5555");
        reveal_strlit("6666");
        reveal_strlit("7777");
        reveal_strlit("8888");
        reveal_strlit("9999");
        reveal_strlit("::::");
        reveal_strlit("EEEE");
    }
    let cell = match value {
        0 => "0000",
        1 => "1111",
        2 => "2222",
        3 => "3333",
        4 => "4444",
        5 => "5555",
        6 => "6666",
        7 => "7777",
        8 => "8888",
        9 => "9999",
        13 => "::::",
        _ => "EEEE",
    };
    assert(cell@ =~= mark(value));
    cell
}

/// The shape of one row of a symbol's glyph.
fn row_shape(value: u8, row: usize) -> (shape: RowShape)
    requires
        row < GLYPH_ROWS,
    ensures
        shape == band_shape(value, row as int / 3),
{
    let bar = row < 3 || (row > 5 && row < 9) || row > 11;
    let upper = row > 2 && row < 6;
    match value {
        0 => if row < 3 || row > 11 { RowShape::Full } else { RowShape::Sides },
        1 => RowShape::Right,
        2 => if bar { RowShape::Full } else if upper { RowShape::Right } else { RowShape::Left },
        3 => if bar { RowShape::Full } else { RowShape::Right },
        4 => if row > 5 && row < 9 {
            RowShape::Full
        } else if row < 6 {
            RowShape::Sides
        } else {
            RowShape::Right
        },
        5 => if bar { RowShape::Full } else if upper { RowShape::Left } else { RowShape::Right },
        6 => if bar { RowShape::Full } else if upper { RowShape::Left } else { RowShape::Sides },
        7 => if row < 3 { RowShape::Full } else { RowShape::Right },
        8 => if bar { RowShape::Full } else { RowShape::Sides },
        9 => if bar { RowShape::Full } else if upper { RowShape::Sides } else { RowShape::Right },
        13 => if row > 5 && row < 9 { RowShape::Centre } else { RowShape::Empty },
        _ => if bar { RowShape::Full } else { RowShape::Left },
    }
}

/// Draws the glyph of a symbol: the digits 0 to 9, the separator
/// [`COLON`], and for every other value the error glyph.
pub fn display_digit_render<'b>(value: u8) -> (grid: [[&'b str; 3]; 15])
    ensures
        forall|row: int, column: int|
            0 <= row < 15 && 0 <= column < 3 ==> (#[trigger] grid[row][column])@ == glyph_cell(
                value,
                row,
                column,
            ),
        forall|row: int, column: int|
            0 <= row < 15 && 0 <= column < 3 ==> (#[trigger] grid[row][column])@ == mark(value)
                || grid[row][column]@ == blank(),
        !is_defined(value) ==> forall|row: int, column: int|
            0 <= row < 15 && 0 <= column < 3 ==> (#[trigger] grid[row][column])@ == error_cell(
                row,
                column,
            ),
{
    let blank: &'b str = "    ";
    let mark: &'b str = symbol_mark(value);
    proof {
        reveal_strlit("    ");
        assert(blank@ =~= self::blank());
    }
    let mut grid: [[&'b str; 3]; 15] = [[blank; 3]; 15];
    let mut row: usize = 0;
    while row < 15
        invariant
            row <= 15,
            blank@ == self::blank(),
            mark@ == self::mark(value),
            forall|r: int, c: int|
                0 <= r < row && 0 <= c < 3 ==> (#[trigger] grid[r][c])@ == glyph_cell(value, r, c),
        decreases 15 - row,
    {
        let cells: [&'b str; 3] = match row_shape(value, row) {
            RowShape::Full => [mark, mark, mark],
            RowShape::Sides => [mark, blank, mark],
            RowShape::Left => [mark, blank, blank],
            RowShape::Right => [blank, blank, mark],
            RowShape::Centre => [blank, mark, blank],
            RowShape::Empty => [blank, blank, blank],
        };
        grid[row] = cells;
        row += 1;
    }
    grid
}

} // verus!
