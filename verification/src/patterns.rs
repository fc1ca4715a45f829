//! The preset starting grids: a Gosper glider gun, a pulsar and a static
//! square, each a fixed set of initially-alive positions on an otherwise
//! dead grid.

use vstd::prelude::*;
use crate::game::{
    engine_cell, in_bounds, is_next_generation, is_stable, CellState, Grid,
};

verus! {

/// The alive positions of the Gosper glider gun preset.
pub open spec fn glider_gun_alive(r: int, c: int) -> bool {
    ||| (r == 1 && c == 25)
    ||| (r == 2 && (c == 23 || c == 25))
    ||| (r == 3 && (c == 13 || c == 14 || c == 21 || c == 22))
    ||| (r == 4 && (c == 12 || c == 16 || c == 21 || c == 22))
    ||| (r == 5 && (c == 1 || c == 2 || c == 11 || c == 17 || c == 21 || c == 22))
    ||| (r == 6 && (c == 1 || c == 2 || c == 11 || c == 15 || c == 17 || c == 18 || c == 23 || c
        == 25))
    ||| (r == 7 && (c == 11 || c == 17 || c == 25))
    ||| (r == 8 && (c == 12 || c == 16))
    ||| (r == 9 && (c == 13 || c == 14))
}

/// The alive positions of the pulsar preset.
pub open spec fn pulsar_alive(r: int, c: int) -> bool {
    ||| ((r == 2 || r == 7 || r == 9 || r == 14) && (c == 4 || c == 5 || c == 6 || c == 10 || c
        == 11 || c == 12))
    ||| ((r == 4 || r == 5 || r == 6 || r == 10 || r == 11 || r == 12) && (c == 2 || c == 7 || c
        == 9 || c == 14))
}

/// The alive positions of the static square preset: a 2 x 2 block in the
/// top-left corner.
pub open spec fn static_square_alive(r: int, c: int) -> bool {
    (r == 0 || r == 1) && (c == 0 || c == 1)
}

/// The alive positions of the preset that `choice` selects: 1 is the
/// Gosper glider gun, 2 the pulsar, anything else the static square.
pub open spec fn preset_alive(choice: u8, r: int, c: int) -> bool {
    if choice == 1 {
        glider_gun_alive(r, c)
    } else if choice == 2 {
        pulsar_alive(r, c)
    } else {
        static_square_alive(r, c)
    }
}

fn glider_gun_grid() -> (g: Grid)
    ensures
        g.wf(),
        forall|r: int, c: int| in_bounds(r, c) ==> ((g.cell(r, c) == CellState::Alive)
            <==> glider_gun_alive(r, c)),
{
    let mut g: Grid = Grid::new();
    g.set_cell(5, 1, CellState::Alive);
    g.set_cell(5, 2, CellState::Alive);
    g.set_cell(6, 1, CellState::Alive);
    g.set_cell(6, 2, CellState::Alive);
    g.set_cell(3, 13, CellState::Alive);
    g.set_cell(3, 14, CellState::Alive);
    g.set_cell(4, 12, CellState::Alive);
    g.set_cell(4, 16, CellState::Alive);
    g.set_cell(5, 11, CellState::Alive);
    g.set_cell(5, 17, CellState::Alive);
    g.set_cell(6, 11, CellState::Alive);
    g.set_cell(6, 15, CellState::Alive);
    g.set_cell(6, 17, CellState::Alive);
    g.set_cell(6, 18, CellState::Alive);
    g.set_cell(7, 11, CellState::Alive);
    g.set_cell(7, 17, CellState::Alive);
    g.set_cell(8, 12, CellState::Alive);
    g.set_cell(8, 16, CellState::Alive);
    g.set_cell(9, 13, CellState::Alive);
    g.set_cell(9, 14, CellState::Alive);
    g.set_cell(1, 25, CellState::Alive);
    g.set_cell(2, 23, CellState::Alive);
    g.set_cell(2, 25, CellState::Alive);
    g.set_cell(3, 21, CellState::Alive);
    g.set_cell(3, 22, CellState::Alive);
    g.set_cell(4, 21, CellState::Alive);
    g.set_cell(4, 22, CellState::Alive);
    g.set_cell(5, 21, CellState::Alive);
    g.set_cell(5, 22, CellState::Alive);
    g.set_cell(6, 23, CellState::Alive);
    g.set_cell(6, 25, CellState::Alive);
    g.set_cell(7, 25, CellState::Alive);
    g
}

fn pulsar_grid() -> (g: Grid)
    ensures
        g.wf(),
        forall|r: int, c: int| in_bounds(r, c) ==> ((g.cell(r, c) == CellState::Alive)
            <==> pulsar_alive(r, c)),
{
    let mut g: Grid = Grid::new();
    g.set_cell(2, 4, CellState::Alive);
    g.set_cell(2, 5, CellState::Alive);
    g.set_cell(2, 6, CellState::Alive);
    g.set_cell(2, 10, CellState::Alive);
    g.set_cell(2, 11, CellState::Alive);
    g.set_cell(2, 12, CellState::Alive);
    g.set_cell(4, 2, CellState::Alive);
    g.set_cell(4, 7, CellState::Alive);
    g.set_cell(4, 9, CellState::Alive);
    g.set_cell(4, 14, CellState::Alive);
    g.set_cell(5, 2, CellState::Alive);
    g.set_cell(5, 7, CellState::Alive);
    g.set_cell(5, 9, CellState::Alive);
    g.set_cell(5, 14, CellState::Alive);
    g.set_cell(6, 2, CellState::Alive);
    g.set_cell(6, 7, CellState::Alive);
    g.set_cell(6, 9, CellState::Alive);
    g.set_cell(6, 14, CellState::Alive);
    g.set_cell(7, 4, CellState::Alive);
    g.set_cell(7, 5, CellState::Alive);
    g.set_cell(7, 6, CellState::Alive);
    g.set_cell(7, 10, CellState::Alive);
    g.set_cell(7, 11, CellState::Alive);
    g.set_cell(7, 12, CellState::Alive);
    g.set_cell(9, 4, CellState::Alive);
    g.set_cell(9, 5, CellState::Alive);
    g.set_cell(9, 6, CellState::Alive);
    g.set_cell(9, 10, CellState::Alive);
    g.set_cell(9, 11, CellState::Alive);
    g.set_cell(9, 12, CellState::Alive);
    g.set_cell(10, 2, CellState::Alive);
    g.set_cell(10, 7, CellState::Alive);
    g.set_cell(10, 9, CellState::Alive);
    g.set_cell(10, 14, CellState::Alive);
    g.set_cell(11, 2, CellState::Alive);
    g.set_cell(11, 7, CellState::Alive);
    g.set_cell(11, 9, CellState::Alive);
    g.set_cell(11, 14, CellState::Alive);
    g.set_cell(12, 2, CellState::Alive);
    g.set_cell(12, 7, CellState::Alive);
    g.set_cell(12, 9, CellState::Alive);
    g.set_cell(12, 14, CellState::Alive);
    g.set_cell(14, 4, CellState::Alive);
    g.set_cell(14, 5, CellState::Alive);
    g.set_cell(14, 6, CellState::Alive);
    g.set_cell(14, 10, CellState::Alive);
    g.set_cell(14, 11, CellState::Alive);
    g.set_cell(14, 12, CellState::Alive);
    g
}

fn static_square_grid() -> (g: Grid)
    ensures
        g.wf(),
        forall|r: int, c: int| in_bounds(r, c) ==> ((g.cell(r, c) == CellState::Alive)
            <==> static_square_alive(r, c)),
{
    let mut g: Grid = Grid::new();
    g.set_cell(0, 0, CellState::Alive);
    g.set_cell(1, 0, CellState::Alive);
    g.set_cell(0, 1, CellState::Alive);
    g.set_cell(1, 1, CellState::Alive);
    g
}

/// The static square preset is a fixed point of the transition rule: its
/// successor generation is identical to it, so the stability detector
/// reports it as stable.
pub proof fn lemma_static_square_is_fixed_point(g: Grid, next: Grid)
    requires
        g.wf(),
        forall|r: int, c: int| in_bounds(r, c) ==> ((g.cell(r, c) == CellState::Alive)
            <==> static_square_alive(r, c)),
        is_next_generation(g, next),
    ensures
        is_stable(g, next),
{
    assert forall|r: int, c: int| in_bounds(r, c) implies g.cell(r, c) == next.cell(r, c) by {
        assert(next.cell(r, c) == engine_cell(g, r, c));
        assert((g.cell(r, c) == CellState::Alive) <==> static_square_alive(r, c));
        assert(in_bounds(r - 1, c - 1) ==> ((g.cell(r - 1, c - 1) == CellState::Alive)
            <==> static_square_alive(r - 1, c - 1)));
        assert(in_bounds(r - 1, c) ==> ((g.cell(r - 1, c) == CellState::Alive)
            <==> static_square_alive(r - 1, c)));
        assert(in_bounds(r - 1, c + 1) ==> ((g.cell(r - 1, c + 1) == CellState::Alive)
            <==> static_square_alive(r - 1, c + 1)));
        assert(in_bounds(r, c - 1) ==> ((g.cell(r, c - 1) == CellState::Alive)
            <==> static_square_alive(r, c - 1)));
        assert(in_bounds(r, c + 1) ==> ((g.cell(r, c + 1) == CellState::Alive)
            <==> static_square_alive(r, c + 1)));
        assert(in_bounds(r + 1, c - 1) ==> ((g.cell(r + 1, c - 1) == CellState::Alive)
            <==> static_square_alive(r + 1, c - 1)));
        assert(in_bounds(r + 1, c) ==> ((g.cell(r + 1, c) == CellState::Alive)
            <==> static_square_alive(r + 1, c)));
        assert(in_bounds(r + 1, c + 1) ==> ((g.cell(r + 1, c + 1) == CellState::Alive)
            <==> static_square_alive(r + 1, c + 1)));
    }
}

/// Builds the preset starting grid that `choice` selects: exactly the
/// positions of `preset_alive` hold alive cells, every other cell is dead.
pub fn starting_grid(choice: u8) -> (g: Grid)
    ensures
        g.wf(),
        forall|r: int, c: int| in_bounds(r, c) ==> ((g.cell(r, c) == CellState::Alive)
            <==> preset_alive(choice, r, c)),
{
    if choice == 1 {
        glider_gun_grid()
    } else if choice == 2 {
        pulsar_grid()
    } else {
        static_square_grid()
    }
}

} // verus!
