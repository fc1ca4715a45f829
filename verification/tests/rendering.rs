use game_of_life::game::{CellState, Grid, COLS};
use game_of_life::patterns::starting_grid;
use game_of_life::render::{cell_symbol, row_symbols};

#[test]
fn cell_symbol_glyphs() {
    assert_eq!(cell_symbol(CellState::Alive), 'X');
    assert_eq!(cell_symbol(CellState::Dead), ' ');
}

#[test]
fn row_symbols_of_the_static_square() {
    let grid = starting_grid(3);
    let top = row_symbols(&grid, 0);
    assert_eq!(top.len(), COLS);
    assert_eq!(top[0], 'X');
    assert_eq!(top[1], 'X');
    for col in 2..COLS {
        assert_eq!(top[col], ' ');
    }
    let below = row_symbols(&grid, 2);
    for col in 0..COLS {
        assert_eq!(below[col], ' ');
    }
}

#[test]
fn row_symbols_of_an_empty_grid() {
    let grid = Grid::new();
    for row in 0..3 {
        let line = row_symbols(&grid, row);
        assert_eq!(line.len(), COLS);
        for col in 0..COLS {
            assert_eq!(line[col], ' ');
        }
    }
}
