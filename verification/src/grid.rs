//! The playing field: a grid of square cells, and the four directions of
//! movement on it.

use vstd::prelude::*;

verus! {

pub const WINDOW_WIDTH: i32 = 800;
pub const WINDOW_HEIGHT: i32 = 600;
/// Side of one cell, in pixels.
pub const CELL_SIZE: i32 = 20;
/// Number of columns.
pub const GRID_W: i32 = 40;
/// Number of rows.
pub const GRID_H: i32 = 30;
/// Time between two moves of the snake, in microseconds.
pub const MOVE_INTERVAL_US: u64 = 120_000;

/// A cell of the grid, as (column, row).
pub type Cell = (i32, i32);

#[derive(Clone, Copy, PartialEq, Eq, Debug, Structural)]
pub enum Direction {
    Up,
    Down,
    Left,
    Right,
}

/// The direction that points the other way.
pub open spec fn opposite(d: Direction) -> Direction {
    match d {
        Direction::Up => Direction::Down,
        Direction::Down => Direction::Up,
        Direction::Left => Direction::Right,
        Direction::Right => Direction::Left,
    }
}

/// Whether a cell lies on the field.
pub open spec fn in_grid(c: Cell) -> bool {
    0 <= c.0 < GRID_W && 0 <= c.1 < GRID_H
}

/// The cell one step away from `c` in direction `d` (rows grow downwards).
pub open spec fn step_cell(c: Cell, d: Direction) -> (int, int) {
    match d {
        Direction::Up => (c.0 as int, c.1 - 1),
        Direction::Down => (c.0 as int, c.1 + 1),
        Direction::Left => (c.0 - 1, c.1 as int),
        Direction::Right => (c.0 + 1, c.1 as int),
    }
}

/// Whether two cells share a side.
pub open spec fn adjacent(a: Cell, b: Cell) -> bool {
    ||| (a.0 == b.0 && (a.1 - b.1 == 1 || b.1 - a.1 == 1))
    ||| (a.1 == b.1 && (a.0 - b.0 == 1 || b.0 - a.0 == 1))
}

spec fn cell_index(c: Cell) -> int {
    c.0 * 30 + c.1
}

/// No sequence of distinct cells on the field is longer than the field
/// has cells.
pub proof fn lemma_distinct_cells_fit_grid(cells: Seq<Cell>)
    requires
        cells.no_duplicates(),
        forall|i: int| 0 <= i < cells.len() ==> #[trigger] in_grid(cells[i]),
    ensures
        cells.len() <= GRID_W * GRID_H,
{
    let s = cells.to_set();
    vstd::seq_lib::seq_to_set_is_finite(cells);
    cells.unique_seq_to_set();
    let f = |c: Cell| cell_index(c);
    assert(vstd::relations::injective_on(f, s)) by {
        assert forall|a: Cell, b: Cell| s.contains(a) && s.contains(b) && #[trigger] f(a) == #[trigger] f(b)
            implies a == b by {
            let i = choose|i: int| 0 <= i < cells.len() && cells[i] == a;
            let j = choose|j: int| 0 <= j < cells.len() && cells[j] == b;
            assert(in_grid(cells[i]));
            assert(in_grid(cells[j]));
        }
    }
    vstd::set_lib::lemma_map_size(s, s.map(f), f);
    vstd::set_lib::lemma_int_range(0, 1200);
    assert(s.map(f).subset_of(vstd::set_lib::set_int_range(0, 1200))) by {
        assert forall|k: int| s.map(f).contains(k) implies vstd::set_lib::set_int_range(0, 1200).contains(k) by {
            let c = choose|c: Cell| s.contains(c) && f(c) == k;
            let i = choose|i: int| 0 <= i < cells.len() && cells[i] == c;
            assert(in_grid(cells[i]));
        }
    }
    vstd::set_lib::lemma_len_subset(s.map(f), vstd::set_lib::set_int_range(0, 1200));
}

} // verus!
