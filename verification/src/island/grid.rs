//! The 312 x 312 logic grid: cell indexing, 4- and 8-neighbourhoods, and the
//! grid value that the generation stages transform.

use vstd::prelude::*;
use crate::island::types::{CellData, default_cell};
use crate::island::recipe::IslandGenRecipe;

verus! {

/// Side of the logic grid, in cells.
pub const GRID: i32 = 312;

/// Side of the display grid: one 64 px display tile per 2x2 logic cells.
pub const DISPLAY_GRID: i32 = 156;

/// Number of logic cells.
pub const CELL_COUNT: usize = 97344;

/// Column of flat index `i`.
pub open spec fn col_of(i: int) -> int {
    i % 312
}

/// Row of flat index `i`.
pub open spec fn row_of(i: int) -> int {
    i / 312
}

/// Whether `i` names a cell.
pub open spec fn valid_cell(i: int) -> bool {
    0 <= i < 97344
}

/// Cells on the outermost ring of the grid.
pub open spec fn on_border(i: int) -> bool {
    col_of(i) == 0 || row_of(i) == 0 || col_of(i) == 311 || row_of(i) == 311
}

/// 4-neighbour of cell `i` in direction `d` (0 north, 1 east, 2 south,
/// 3 west), or -1 off the grid.
pub open spec fn step4(i: int, d: int) -> int {
    if d == 0 {
        if row_of(i) > 0 { i - 312 } else { -1 }
    } else if d == 1 {
        if col_of(i) < 311 { i + 1 } else { -1 }
    } else if d == 2 {
        if row_of(i) < 311 { i + 312 } else { -1 }
    } else {
        if col_of(i) > 0 { i - 1 } else { -1 }
    }
}

/// Direction opposite to `d`.
pub open spec fn reverse_dir(d: int) -> int {
    if d < 2 { d + 2 } else { d - 2 }
}

/// Neighbours stay on the grid and lead back the opposite way.
pub proof fn lemma_step4(i: int, d: int)
    requires
        valid_cell(i),
        0 <= d < 4,
    ensures
        step4(i, d) == -1 || valid_cell(step4(i, d)),
        step4(i, d) != -1 ==> step4(step4(i, d), reverse_dir(d)) == i,
        step4(i, d) != i,
{
    assert(0 <= col_of(i) < 312);
    assert(0 <= row_of(i) < 312);
    assert(i == row_of(i) * 312 + col_of(i));
    if d == 0 && row_of(i) > 0 {
        assert(col_of(i - 312) == col_of(i));
        assert(row_of(i - 312) == row_of(i) - 1);
    } else if d == 1 && col_of(i) < 311 {
        assert(col_of(i + 1) == col_of(i) + 1);
        assert(row_of(i + 1) == row_of(i));
    } else if d == 2 && row_of(i) < 311 {
        assert(col_of(i + 312) == col_of(i));
        assert(row_of(i + 312) == row_of(i) + 1);
    } else if d == 3 && col_of(i) > 0 {
        assert(col_of(i - 1) == col_of(i) - 1);
        assert(row_of(i - 1) == row_of(i));
    }
}

/// Flat index of `(col, row)`.
pub open spec fn flat_index(col: int, row: int) -> int {
    row * 312 + col
}

/// Whether `(col, row)` lies on the grid.
pub open spec fn in_grid(col: int, row: int) -> bool {
    0 <= col < 312 && 0 <= row < 312
}

pub proof fn lemma_flat_index(col: int, row: int)
    requires
        in_grid(col, row),
    ensures
        valid_cell(flat_index(col, row)),
        col_of(flat_index(col, row)) == col,
        row_of(flat_index(col, row)) == row,
{
    assert(0 <= row * 312 <= 311 * 312) by (nonlinear_arith)
        requires
            0 <= row < 312,
    ;
}

/// Column and row of a flat index.
pub fn cell_coords(i: usize) -> (r: (i32, i32))
    requires
        valid_cell(i as int),
    ensures
        r.0 == col_of(i as int),
        r.1 == row_of(i as int),
        in_grid(r.0 as int, r.1 as int),
        flat_index(r.0 as int, r.1 as int) == i,
{
    ((i % 312) as i32, (i / 312) as i32)
}

/// Exec form of `step4`.
pub fn neighbor4(i: usize, d: usize) -> (r: Option<usize>)
    requires
        valid_cell(i as int),
        d < 4,
    ensures
        step4(i as int, d as int) == -1 ==> r is None,
        step4(i as int, d as int) != -1 ==> r == Some(step4(i as int, d as int) as usize),
        r matches Some(j) ==> valid_cell(j as int),
{
    proof { lemma_step4(i as int, d as int); }
    let col = i % 312;
    let row = i / 312;
    if d == 0 {
        if row > 0 { Some(i - 312) } else { None }
    } else if d == 1 {
        if col < 311 { Some(i + 1) } else { None }
    } else if d == 2 {
        if row < 311 { Some(i + 312) } else { None }
    } else {
        if col > 0 { Some(i - 1) } else { None }
    }
}

/// Exec form of `on_border`.
pub fn is_border_cell(i: usize) -> (r: bool)
    requires
        valid_cell(i as int),
    ensures
        r == on_border(i as int),
{
    let col = i % 312;
    let row = i / 312;
    col == 0 || row == 0 || col == 311 || row == 311
}

/// The generated island: one `CellData` per logic cell, row-major.
#[derive(Clone, Debug)]
pub struct IslandGenGrid {
    pub cells: Vec<CellData>,
    pub recipe: IslandGenRecipe,
    /// Interior ocean cells converted to land by `remove_internal_ocean_holes`.
    pub interior_holes_filled: u32,
}

impl IslandGenGrid {
    /// The grid holds exactly one cell per logic cell.
    pub open spec fn wf(&self) -> bool {
        self.cells@.len() == 97344
    }

    /// Flat index of `(col, row)`, or `None` off the grid.
    pub fn idx(col: i32, row: i32) -> (r: Option<usize>)
        ensures
            in_grid(col as int, row as int) ==> r == Some(flat_index(col as int, row as int) as usize),
            !in_grid(col as int, row as int) ==> r is None,
            r matches Some(i) ==> valid_cell(i as int) && col_of(i as int) == col && row_of(i as int) == row,
    {
        if col < 0 || row < 0 || col >= GRID || row >= GRID {
            return None;
        }
        proof { lemma_flat_index(col as int, row as int); }
        Some((row * GRID + col) as usize)
    }

    /// The cell at `(col, row)`, or `None` off the grid.
    pub fn cell(&self, col: i32, row: i32) -> (r: Option<&CellData>)
        requires
            self.wf(),
        ensures
            in_grid(col as int, row as int) ==> r == Some(&self.cells@[flat_index(col as int, row as int)]),
            !in_grid(col as int, row as int) ==> r is None,
    {
        match Self::idx(col, row) {
            Some(i) => Some(&self.cells[i]),
            None => None,
        }
    }
}

/// A fresh all-deep-ocean grid for `recipe`.
pub fn generate_base_world(recipe: &IslandGenRecipe) -> (g: IslandGenGrid)
    ensures
        g.wf(),
        forall|i: int| 0 <= i < 97344 ==> g.cells@[i] == default_cell(),
        g.recipe == *recipe,
        g.interior_holes_filled == 0,
{
    let mut cells: Vec<CellData> = Vec::new();
    let mut i: usize = 0;
    while i < CELL_COUNT
        invariant
            i <= CELL_COUNT,
            cells@.len() == i,
            forall|j: int| 0 <= j < i ==> cells@[j] == default_cell(),
        decreases CELL_COUNT - i,
    {
        cells.push(CellData::default());
        i = i + 1;
    }
    IslandGenGrid { cells, recipe: *recipe, interior_holes_filled: 0 }
}

} // verus!
