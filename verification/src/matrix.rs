//! The switch matrix: its size, its cells and a snapshot of which are closed.

use vstd::prelude::*;

verus! {

/// Number of row lines.
pub const ROWS: usize = 2;

/// Number of column lines.
pub const COLS: usize = 3;

/// A snapshot of the matrix: `matrix[row][col]` tells whether the switch at
/// that crossing was closed when the row was sampled.
pub type StateMatrix = [[bool; COLS]; ROWS];

/// A crossing of a row line and a column line.
#[derive(Clone, Copy, Debug, PartialEq, Eq, Structural)]
pub struct MatrixCell {
    pub row: usize,
    pub col: usize,
}

impl MatrixCell {
    /// Whether the cell lies inside the matrix.
    pub open spec fn in_matrix(self) -> bool {
        self.row < ROWS && self.col < COLS
    }

    /// Whether the switch at this cell is closed in `matrix`; an outside cell
    /// has no switch and counts as open.
    pub open spec fn active_in(self, matrix: StateMatrix) -> bool {
        self.in_matrix() && matrix[self.row as int][self.col as int]
    }

    /// Reads this cell from a snapshot.
    pub fn is_active(self, matrix: &StateMatrix) -> (active: bool)
        ensures
            active == self.active_in(*matrix),
    {
        if self.row < ROWS && self.col < COLS {
            matrix[self.row][self.col]
        } else {
            false
        }
    }
}

/// The snapshot in which every switch is open.
pub open spec fn spec_all_open() -> StateMatrix {
    [[false, false, false], [false, false, false]]
}

/// The snapshot in which every switch is open.
pub fn all_open() -> (matrix: StateMatrix)
    ensures
        matrix == spec_all_open(),
{
    [[false, false, false], [false, false, false]]
}

/// `matrix` with the one cell `cell` set to `active`; a cell outside the
/// matrix changes nothing.
pub open spec fn spec_with_cell(matrix: StateMatrix, cell: MatrixCell, active: bool) -> StateMatrix {
    if cell.in_matrix() {
        let row = vstd::array::spec_array_update(matrix[cell.row as int], cell.col as int, active);
        vstd::array::spec_array_update(matrix, cell.row as int, row)
    } else {
        matrix
    }
}

/// Returns `matrix` with the one cell `cell` set to `active`; a cell outside
/// the matrix changes nothing.
pub fn with_cell(matrix: StateMatrix, cell: MatrixCell, active: bool) -> (updated: StateMatrix)
    ensures
        updated == spec_with_cell(matrix, cell, active),
{
    let mut updated = matrix;
    if cell.row < ROWS && cell.col < COLS {
        updated[cell.row][cell.col] = active;
    }
    updated
}

/// Setting a cell changes that cell and no other.
pub proof fn lemma_with_cell(matrix: StateMatrix, cell: MatrixCell, active: bool, other: MatrixCell)
    requires
        cell.in_matrix(),
    ensures
        other.active_in(spec_with_cell(matrix, cell, active)) == if other == cell {
            active
        } else {
            other.active_in(matrix)
        },
{
}

} // verus!
