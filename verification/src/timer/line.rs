//! One line of the large display: the glyph rows of the fields side by side.

use vstd::prelude::*;
use super::glyph::{display_digit_render, glyph_cell, separate_digits, COLON};

verus! {

/// Which fields the display shows.
#[derive(Clone, Copy, Debug)]
pub enum Type {
    /// Minutes and seconds.
    Short,
    /// Hours, minutes and seconds.
    Long,
}

/// The space between the two digits of a field.
pub open spec fn gap() -> Seq<char> {
    seq![' ', ' ', ' ']
}

/// One row of a symbol's glyph: its three cells, left to right.
pub open spec fn glyph_row(symbol: u8, row: int) -> Seq<char> {
    glyph_cell(symbol, row, 0) + glyph_cell(symbol, row, 1) + glyph_cell(symbol, row, 2)
}

/// One row of a field: the rows of its tens digit and of its units digit,
/// with the gap between them.
pub open spec fn field_row(value: u8, row: int) -> Seq<char> {
    glyph_row(value / 10, row) + gap() + glyph_row(value % 10, row)
}

/// One row of the display: the rows of the fields, with the row of the
/// separator between each two of them.
pub open spec fn display_row(
    hours: u8,
    minutes: u8,
    seconds: u8,
    row: int,
    display_type: Type,
) -> Seq<char> {
    let short = field_row(minutes, row) + glyph_row(COLON, row) + field_row(seconds, row);
    match display_type {
        Type::Short => short,
        Type::Long => field_row(hours, row) + glyph_row(COLON, row) + short,
    }
}

/// Appends one row of a symbol's glyph.
fn push_glyph_row(out: &mut String, symbol: u8, row: usize)
    requires
        row < 15,
    ensures
        final(out)@ == old(out)@ + glyph_row(symbol, row as int),
{
    let grid = display_digit_render(symbol);
    let cells = grid[row];
    out.append(cells[0]);
    out.append(cells[1]);
    out.append(cells[2]);
    proof {
        assert(cells[0]@ == glyph_cell(symbol, row as int, 0)) by {
            assert(cells[0] == grid[row as int][0]);
        }
        assert(cells[1]@ == glyph_cell(symbol, row as int, 1)) by {
            assert(cells[1] == grid[row as int][1]);
        }
        assert(cells[2]@ == glyph_cell(symbol, row as int, 2)) by {
            assert(cells[2] == grid[row as int][2]);
        }
        assert(out@ =~= old(out)@ + glyph_row(symbol, row as int));
    }
}

/// Appends one row of a field.
fn push_field_row(out: &mut String, value: u8, row: usize)
    requires
        row < 15,
    ensures
        final(out)@ == old(out)@ + field_row(value, row as int),
{
    let digits = separate_digits(value);
    push_glyph_row(out, digits[0], row);
    out.append("   ");
    push_glyph_row(out, digits[1], row);
    proof {
        reveal_strlit("   ");
        assert("   "@ =~= gap());
        assert(out@ =~= old(out)@ + field_row(value, row as int));
    }
}

/// Builds line `line_number` of the display of the three fields: of all of
/// them in the long form, of minutes and seconds in the short form.
pub fn format_row(
    hours: u8,
    minutes: u8,
    seconds: u8,
    line_number: u8,
    display_type: &Type,
) -> (line: String)
    requires
        line_number <= 14,
    ensures
        line@ == display_row(hours, minutes, seconds, line_number as int, *display_type),
{
    let row = line_number as usize;
    let mut line = String::new();
    match display_type {
        Type::Short => {},
        Type::Long => {
            push_field_row(&mut line, hours, row);
            push_glyph_row(&mut line, COLON, row);
        },
    }
    push_field_row(&mut line, minutes, row);
    push_glyph_row(&mut line, COLON, row);
    push_field_row(&mut line, seconds, row);
    assert(line@ =~= display_row(hours, minutes, seconds, line_number as int, *display_type));
    line
}

} // verus!
