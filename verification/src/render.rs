//! The pure part of the renderer: mapping cells to display glyphs. The
//! surrounding program clears the terminal, prints the glyph rows and
//! flushes; nothing here touches the console.

use vstd::prelude::*;
use crate::game::{CellState, Grid, COLS, ROWS};

verus! {

/// The display glyph of a cell: `X` for alive, a space for dead.
pub open spec fn symbol_of(cell: CellState) -> char {
    match cell {
        CellState::Dead => ' ',
        CellState::Alive => 'X',
    }
}

/// Maps a cell to its display glyph.
pub fn cell_symbol(cell: CellState) -> (symbol: char)
    ensures
        symbol == symbol_of(cell),
{
    match cell {
        CellState::Dead => ' ',
        CellState::Alive => 'X',
    }
}

/// Collects the glyphs of one grid row, left to right: one glyph per
/// column.
pub fn row_symbols(grid: &Grid, row: usize) -> (line: Vec<char>)
    requires
        grid.wf(),
        row < ROWS,
    ensures
        line@.len() == COLS,
        forall|c: int| 0 <= c < COLS as int ==> line@[c] == symbol_of(grid.cell(row as int, c)),
{
    let mut line: Vec<char> = Vec::new();
    let mut col: usize = 0;
    while col < COLS
        invariant
            grid.wf(),
            row < ROWS,
            col <= COLS,
            line@.len() == col,
            forall|c: int| 0 <= c < col as int ==> line@[c] == symbol_of(
                grid.cell(row as int, c),
            ),
        decreases COLS - col,
    {
        line.push(cell_symbol(grid.get_cell(row, col)));
        col = col + 1;
    }
    line
}

} // verus!
