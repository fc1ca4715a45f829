//! The grid data model, the transition engine and the stability detector.

use vstd::prelude::*;

verus! {

/// Number of rows in every grid.
pub const ROWS: usize = 40;

/// Number of columns in every grid.
pub const COLS: usize = 40;

/// The state of a single cell. A cell has no other attribute.
#[derive(Debug, Clone, Copy, PartialEq, Eq, Structural)]
pub enum CellState {
    Dead,
    Alive,
}

/// A `ROWS` x `COLS` grid of cells, stored row-major: the cell at row `r`,
/// column `c` sits at index `r * COLS + c`. The dimensions never change
/// after construction.
pub struct Grid {
    cells: Vec<CellState>,
}

impl View for Grid {
    type V = Seq<CellState>;

    closed spec fn view(&self) -> Seq<CellState> {
        self.cells@
    }
}

/// True when position (r, c) lies inside the grid. The grid has hard
/// edges: positions outside it never contribute to a neighbor count.
pub open spec fn in_bounds(r: int, c: int) -> bool {
    0 <= r < ROWS as int && 0 <= c < COLS as int
}

impl Grid {
    /// A grid is well formed when it holds exactly one cell per position.
    pub open spec fn wf(&self) -> bool {
        self@.len() == ROWS * COLS
    }

    /// The cell stored at row `r`, column `c`.
    pub open spec fn cell(&self, r: int, c: int) -> CellState {
        self@[r * (COLS as int) + c]
    }

    /// Creates the default grid: every cell dead.
    pub fn new() -> (g: Grid)
        ensures
            g.wf(),
            forall|r: int, c: int| in_bounds(r, c) ==> g.cell(r, c) == CellState::Dead,
    {
        let mut cells: Vec<CellState> = Vec::new();
        let mut i: usize = 0;
        while i < ROWS * COLS
            invariant
                i <= ROWS * COLS,
                cells@.len() == i,
                forall|j: int| 0 <= j < i ==> cells@[j] == CellState::Dead,
            decreases ROWS * COLS - i,
        {
            cells.push(CellState::Dead);
            i = i + 1;
        }
        Grid { cells }
    }

    /// Reads the cell at row `row`, column `col`.
    pub fn get_cell(&self, row: usize, col: usize) -> (state: CellState)
        requires
            self.wf(),
            row < ROWS,
            col < COLS,
        ensures
            state == self.cell(row as int, col as int),
    {
        self.cells[row * COLS + col]
    }

    /// Overwrites the cell at row `row`, column `col`; every other cell
    /// keeps its state.
    pub fn set_cell(&mut self, row: usize, col: usize, state: CellState)
        requires
            old(self).wf(),
            row < ROWS,
            col < COLS,
        ensures
            final(self).wf(),
            final(self)@ == old(self)@.update(row as int * (COLS as int) + col as int, state),
            forall|r: int, c: int| in_bounds(r, c) ==> final(self).cell(r, c)
                == (if r == row as int && c == col as int { state } else { old(self).cell(r, c) }),
    {
        let idx: usize = row * COLS + col;
        self.cells[idx] = state;
    }
}

/// 1 when position (r, c) is inside the grid and holds an alive cell,
/// else 0. Out-of-bounds positions weigh nothing: no wrap-around.
pub open spec fn alive_weight(g: Grid, r: int, c: int) -> int {
    if in_bounds(r, c) && g.cell(r, c) == CellState::Alive {
        1
    } else {
        0
    }
}

/// Number of alive cells among the up-to-8 in-bounds neighbors of (r, c),
/// the position itself excluded.
pub open spec fn live_neighbor_count(g: Grid, r: int, c: int) -> int {
    alive_weight(g, r - 1, c - 1) + alive_weight(g, r - 1, c) + alive_weight(g, r - 1, c + 1)
        + alive_weight(g, r, c - 1) + alive_weight(g, r, c + 1)
        + alive_weight(g, r + 1, c - 1) + alive_weight(g, r + 1, c) + alive_weight(g, r + 1, c + 1)
}

/// The birth/survival/death rule: an alive cell survives with exactly 2 or
/// 3 live neighbors, a dead cell is born with exactly 3, every other cell
/// is dead in the next generation.
pub open spec fn next_cell(current: CellState, live_neighbors: int) -> CellState {
    match current {
        CellState::Alive => if live_neighbors == 2 || live_neighbors == 3 {
            CellState::Alive
        } else {
            CellState::Dead
        },
        CellState::Dead => if live_neighbors == 3 {
            CellState::Alive
        } else {
            CellState::Dead
        },
    }
}

/// What the transition engine puts at position (r, c) of the successor of
/// `g`: the rule applied to the cell there and its live neighbor count.
pub open spec fn engine_cell(g: Grid, r: int, c: int) -> CellState {
    next_cell(g.cell(r, c), live_neighbor_count(g, r, c))
}

/// True when `next` is exactly the successor generation of `g`: well
/// formed, and every cell is what the rule gives for its counterpart in `g`.
pub open spec fn is_next_generation(g: Grid, next: Grid) -> bool {
    &&& next.wf()
    &&& forall|r: int, c: int| in_bounds(r, c) ==> next.cell(r, c) == #[trigger] engine_cell(
        g,
        r,
        c,
    )
}

/// True when the two grids agree at every cell position: a fixed point of
/// the simulation when `b` is the successor of `a`.
pub open spec fn is_stable(a: Grid, b: Grid) -> bool {
    forall|r: int, c: int| in_bounds(r, c) ==> a.cell(r, c) == b.cell(r, c)
}

/// True when every cell of the grid is dead.
pub open spec fn all_dead(g: Grid) -> bool {
    forall|r: int, c: int| in_bounds(r, c) ==> g.cell(r, c) == CellState::Dead
}

/// No spontaneous birth: the successor of an all-dead grid is all dead.
pub proof fn lemma_no_spontaneous_birth(g: Grid, next: Grid)
    requires
        g.wf(),
        all_dead(g),
        is_next_generation(g, next),
    ensures
        all_dead(next),
{
    assert forall|r: int, c: int| in_bounds(r, c) implies next.cell(r, c) == CellState::Dead by {
        assert(next.cell(r, c) == engine_cell(g, r, c));
        assert(live_neighbor_count(g, r, c) == 0);
    }
}

/// An isolated cell dies: an alive cell with no alive neighbors is dead in
/// the successor generation.
pub proof fn lemma_isolated_cell_dies(g: Grid, next: Grid, r: int, c: int)
    requires
        g.wf(),
        is_next_generation(g, next),
        in_bounds(r, c),
        g.cell(r, c) == CellState::Alive,
        live_neighbor_count(g, r, c) == 0,
    ensures
        next.cell(r, c) == CellState::Dead,
{
    assert(next.cell(r, c) == engine_cell(g, r, c));
}

/// Boundary correctness at the corner: the neighbor count of (0, 0) is
/// built from the three in-bounds positions (0, 1), (1, 0) and (1, 1)
/// alone, so it never exceeds 3 and nothing outside the grid contributes.
pub proof fn lemma_corner_neighbor_count(g: Grid)
    requires
        g.wf(),
    ensures
        live_neighbor_count(g, 0, 0) == alive_weight(g, 0, 1) + alive_weight(g, 1, 0)
            + alive_weight(g, 1, 1),
        0 <= live_neighbor_count(g, 0, 0) <= 3,
{
}

/// The stability detector's relation is reflexive: every grid is stable
/// against itself.
pub proof fn lemma_is_stable_reflexive(g: Grid)
    ensures
        is_stable(g, g),
{
}

/// Counts the alive cells among the up-to-8 in-bounds neighbors of
/// (row, col). Out-of-bounds positions are simply excluded.
pub fn count_neighbors(grid: &Grid, row: usize, col: usize) -> (count: u8)
    requires
        grid.wf(),
        row < ROWS,
        col < COLS,
    ensures
        count as int == live_neighbor_count(*grid, row as int, col as int),
{
    let mut count: u8 = 0;
    if row > 0 {
        if col > 0 && grid.get_cell(row - 1, col - 1) == CellState::Alive {
            count = count + 1;
        }
        if grid.get_cell(row - 1, col) == CellState::Alive {
            count = count + 1;
        }
        if col + 1 < COLS && grid.get_cell(row - 1, col + 1) == CellState::Alive {
            count = count + 1;
        }
    }
    if col > 0 && grid.get_cell(row, col - 1) == CellState::Alive {
        count = count + 1;
    }
    if col + 1 < COLS && grid.get_cell(row, col + 1) == CellState::Alive {
        count = count + 1;
    }
    if row + 1 < ROWS {
        if col > 0 && grid.get_cell(row + 1, col - 1) == CellState::Alive {
            count = count + 1;
        }
        if grid.get_cell(row + 1, col) == CellState::Alive {
            count = count + 1;
        }
        if col + 1 < COLS && grid.get_cell(row + 1, col + 1) == CellState::Alive {
            count = count + 1;
        }
    }
    count
}

/// Computes the successor generation. The input grid is only read (a shared
/// borrow): every neighbor count sees the unmodified prior generation, and
/// the result is a freshly allocated grid of the same dimensions.
pub fn next_generation(grid: &Grid) -> (next: Grid)
    requires
        grid.wf(),
    ensures
        is_next_generation(*grid, next),
{
    let mut cells: Vec<CellState> = Vec::new();
    let mut row: usize = 0;
    while row < ROWS
        invariant
            grid.wf(),
            row <= ROWS,
            cells@.len() == row * COLS,
            forall|r: int, c: int| 0 <= r < row as int && 0 <= c < COLS as int ==> cells@[r * (
            COLS as int) + c] == #[trigger] engine_cell(*grid, r, c),
        decreases ROWS - row,
    {
        let mut col: usize = 0;
        while col < COLS
            invariant
                grid.wf(),
                row < ROWS,
                col <= COLS,
                cells@.len() == row * COLS + col,
                forall|r: int, c: int| 0 <= r < row as int && 0 <= c < COLS as int ==> cells@[r * (
                COLS as int) + c] == #[trigger] engine_cell(*grid, r, c),
                forall|c: int| 0 <= c < col as int ==> cells@[row as int * (COLS as int) + c]
                    == #[trigger] engine_cell(*grid, row as int, c),
            decreases COLS - col,
        {
            let neighbors: u8 = count_neighbors(grid, row, col);
            let current: CellState = grid.get_cell(row, col);
            let state: CellState = if current == CellState::Alive {
                if neighbors == 2 || neighbors == 3 {
                    CellState::Alive
                } else {
                    CellState::Dead
                }
            } else {
                if neighbors == 3 {
                    CellState::Alive
                } else {
                    CellState::Dead
                }
            };
            cells.push(state);
            col = col + 1;
        }
        row = row + 1;
    }
    Grid { cells }
}

/// Decides whether the simulation has reached a fixed point: true if and
/// only if the two grids agree at every cell position. Scans in row-major
/// order and stops at the first mismatch. This is equality detection only:
/// oscillators of period greater than 1 are deliberately not detected.
pub fn watcher(grid: &Grid, next_gen: &Grid) -> (same: bool)
    requires
        grid.wf(),
        next_gen.wf(),
    ensures
        same == is_stable(*grid, *next_gen),
{
    let mut row: usize = 0;
    while row < ROWS
        invariant
            grid.wf(),
            next_gen.wf(),
            row <= ROWS,
            forall|r: int, c: int| 0 <= r < row as int && 0 <= c < COLS as int ==>
                grid.cell(r, c) == next_gen.cell(r, c),
        decreases ROWS - row,
    {
        let mut col: usize = 0;
        while col < COLS
            invariant
                grid.wf(),
                next_gen.wf(),
                row < ROWS,
                col <= COLS,
                forall|r: int, c: int| 0 <= r < row as int && 0 <= c < COLS as int ==>
                    grid.cell(r, c) == next_gen.cell(r, c),
                forall|c: int| 0 <= c < col as int ==>
                    grid.cell(row as int, c) == next_gen.cell(row as int, c),
            decreases COLS - col,
        {
            if grid.get_cell(row, col) != next_gen.get_cell(row, col) {
                proof {
                    assert(in_bounds(row as int, col as int));
                    assert(grid.cell(row as int, col as int) != next_gen.cell(
                        row as int,
                        col as int,
                    ));
                }
                return false;
            }
            col = col + 1;
        }
        row = row + 1;
    }
    true
}

} // verus!
