//! The mathematical picture of a grid at one point in time.
//!
//! A [`Generation`] is a width, a height and a sequence of cells laid out row
//! by row. Everything the executable grid computes is stated over it: where a
//! cell is stored, which cells surround it on the torus, how many of them are
//! alive, what the successor generation is and how a generation is drawn.

use vstd::prelude::*;
use crate::cell::Cell;

verus! {

/// One whole state of the grid.
pub struct Generation {
    pub width: nat,
    pub height: nat,
    pub cells: Seq<Cell>,
}

/// The cell that a fresh grid holds at flat index `index`: alive where the
/// index is a multiple of 2 or of 7, dead elsewhere.
pub open spec fn seed_cell(index: int) -> Cell {
    if index % 2 == 0 || index % 7 == 0 {
        Cell::Alive
    } else {
        Cell::Dead
    }
}

impl Generation {
    /// Both sides are positive and there is exactly one cell per position.
    pub open spec fn wf(self) -> bool {
        &&& self.width > 0
        &&& self.height > 0
        &&& self.cells.len() == self.width * self.height
    }

    /// `(row, column)` names a position of the grid.
    pub open spec fn in_bounds(self, row: int, column: int) -> bool {
        0 <= row < self.height && 0 <= column < self.width
    }

    /// Flat index of `(row, column)` in the row-by-row layout.
    pub open spec fn index_of(self, row: int, column: int) -> int {
        row * self.width + column
    }

    /// The cell stored for `(row, column)`.
    pub open spec fn cell_at(self, row: int, column: int) -> Cell {
        self.cells[self.index_of(row, column)]
    }

    /// The cell found at `(row, column)` once both coordinates are wrapped
    /// around the edges: row `-1` is the last row, row `height` is row 0, and
    /// likewise for columns.
    pub open spec fn torus_cell(self, row: int, column: int) -> Cell {
        self.cell_at(row % (self.height as int), column % (self.width as int))
    }

    /// Number of live cells among the eight positions that surround
    /// `(row, column)` on the torus.
    pub open spec fn live_neighbors(self, row: int, column: int) -> nat {
        self.torus_cell(row - 1, column - 1).population()
            + self.torus_cell(row - 1, column).population()
            + self.torus_cell(row - 1, column + 1).population()
            + self.torus_cell(row, column - 1).population()
            + self.torus_cell(row, column + 1).population()
            + self.torus_cell(row + 1, column - 1).population()
            + self.torus_cell(row + 1, column).population()
            + self.torus_cell(row + 1, column + 1).population()
    }

    /// The cell that the successor generation holds at flat index `index`. It
    /// is decided by this generation alone.
    pub open spec fn next_cell(self, index: int) -> Cell {
        let row = index / (self.width as int);
        let column = index % (self.width as int);
        self.cells[index].next_state(self.live_neighbors(row, column))
    }

    /// The successor generation: every cell replaced at once by what the rule
    /// table makes of it and its neighbours.
    pub open spec fn next(self) -> Generation {
        Generation {
            width: self.width,
            height: self.height,
            cells: Seq::new(self.cells.len(), |index: int| self.next_cell(index)),
        }
    }

    /// The generation reached after `steps` successive steps.
    pub open spec fn after(self, steps: nat) -> Generation
        decreases steps,
    {
        if steps == 0 {
            self
        } else {
            self.next().after((steps - 1) as nat)
        }
    }

    /// The generation that a fresh grid of the given size starts from.
    pub open spec fn seeded(width: nat, height: nat) -> Generation {
        Generation {
            width,
            height,
            cells: Seq::new(width * height, |index: int| seed_cell(index)),
        }
    }

    /// The character at position `k` of the drawing. Each row takes
    /// `width + 1` characters: one glyph per cell from left to right, then a
    /// line feed.
    pub open spec fn rendered_char(self, k: int) -> char {
        let row = k / ((self.width + 1) as int);
        let column = k % ((self.width + 1) as int);
        if column == self.width {
            '\n'
        } else {
            self.cell_at(row, column).glyph()
        }
    }

    /// The drawing of the whole generation, rows from top to bottom.
    pub open spec fn rendered(self) -> Seq<char> {
        Seq::new(self.height * (self.width + 1), |k: int| self.rendered_char(k))
    }
}

} // verus!
