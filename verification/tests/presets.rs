use game_of_life::game::{next_generation, watcher, CellState, Grid, COLS, ROWS};
use game_of_life::patterns::starting_grid;

fn count_alive(grid: &Grid) -> usize {
    let mut alive: usize = 0;
    for row in 0..ROWS {
        for col in 0..COLS {
            if grid.get_cell(row, col) == CellState::Alive {
                alive += 1;
            }
        }
    }
    alive
}

#[test]
fn static_square_preset_is_a_fixed_point() {
    let grid = starting_grid(3);
    assert_eq!(grid.get_cell(0, 0), CellState::Alive);
    assert_eq!(grid.get_cell(0, 1), CellState::Alive);
    assert_eq!(grid.get_cell(1, 0), CellState::Alive);
    assert_eq!(grid.get_cell(1, 1), CellState::Alive);
    assert_eq!(count_alive(&grid), 4);

    let next = next_generation(&grid);
    for row in 0..ROWS {
        for col in 0..COLS {
            assert_eq!(next.get_cell(row, col), grid.get_cell(row, col));
        }
    }
    assert!(watcher(&grid, &next));
}

#[test]
fn glider_gun_preset_matches_its_coordinates() {
    let grid = starting_grid(1);
    assert_eq!(count_alive(&grid), 32);
    assert_eq!(grid.get_cell(5, 1), CellState::Alive);
    assert_eq!(grid.get_cell(6, 2), CellState::Alive);
    assert_eq!(grid.get_cell(1, 25), CellState::Alive);
    assert_eq!(grid.get_cell(9, 14), CellState::Alive);
    assert_eq!(grid.get_cell(0, 0), CellState::Dead);
    assert_eq!(grid.get_cell(5, 3), CellState::Dead);
}

#[test]
fn pulsar_preset_matches_its_coordinates() {
    let grid = starting_grid(2);
    assert_eq!(count_alive(&grid), 48);
    assert_eq!(grid.get_cell(2, 4), CellState::Alive);
    assert_eq!(grid.get_cell(4, 2), CellState::Alive);
    assert_eq!(grid.get_cell(14, 12), CellState::Alive);
    assert_eq!(grid.get_cell(8, 8), CellState::Dead);
    assert_eq!(grid.get_cell(3, 3), CellState::Dead);
}

#[test]
fn pulsar_preset_is_not_a_fixed_point() {
    let grid = starting_grid(2);
    let next = next_generation(&grid);
    assert!(!watcher(&grid, &next));
}

#[test]
fn out_of_range_choice_gives_the_static_square() {
    let square = starting_grid(3);
    let zero = starting_grid(0);
    let high = starting_grid(255);
    assert!(watcher(&square, &zero));
    assert!(watcher(&square, &high));
}
