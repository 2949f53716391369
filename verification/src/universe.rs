//! The executable grid.

use vstd::prelude::*;
use vstd::string::StringExecFns;
use crate::cell::{Cell, ALIVE_GLYPH, DEAD_GLYPH};
use crate::generation::Generation;
use crate::arith::{
    lemma_index_in_range, lemma_index_split, lemma_row_start_step, lemma_step_back,
    lemma_step_forward,
};

verus! {

/// A grid of cells on a torus, stored row by row.
pub struct Universe {
    width: usize,
    height: usize,
    cells: Vec<Cell>,
}

/// The position before `x` on a ring of `n` positions.
fn ring_before(x: usize, n: usize) -> (before: usize)
    requires
        n > 0,
    ensures
        before == (x - 1) % (n as int),
        before < n,
{
    proof {
        lemma_step_back(x as int, n as int);
    }
    let at = x % n;
    if at == 0 {
        n - 1
    } else {
        at - 1
    }
}

/// The position after `x` on a ring of `n` positions.
fn ring_after(x: usize, n: usize) -> (after: usize)
    requires
        n > 0,
    ensures
        after == (x + 1) % (n as int),
        after < n,
{
    proof {
        lemma_step_forward(x as int, n as int);
    }
    let at = x % n;
    if at == n - 1 {
        0
    } else {
        at + 1
    }
}

impl View for Universe {
    type V = Generation;

    closed spec fn view(&self) -> Generation {
        Generation {
            width: self.width as nat,
            height: self.height as nat,
            cells: self.cells@,
        }
    }
}

impl Universe {
    #[verifier::type_invariant]
    spec fn inv(self) -> bool {
        &&& self.width > 0
        &&& self.height > 0
        &&& self.width * self.height <= usize::MAX
        &&& self.cells@.len() == self.width * self.height
    }

    /// Builds a grid of `width` columns and `height` rows in which the cell
    /// at flat index `i` is alive exactly when `i` is a multiple of 2 or of 7.
    pub fn with_size(width: usize, height: usize) -> (universe: Universe)
        requires
            width > 0,
            height > 0,
            width * height <= usize::MAX,
        ensures
            universe@ == Generation::seeded(width as nat, height as nat),
            universe@.cells.len() == width * height,
            universe@.wf(),
    {
        let mut cells: Vec<Cell> = Vec::new();
        let mut row: usize = 0;
        while row < height
            invariant
                width > 0,
                width * height <= usize::MAX,
                row <= height,
                cells@.len() == row * width,
                forall|i: int| 0 <= i < cells@.len() ==> cells@[i] == crate::generation::seed_cell(i),
            decreases height - row,
        {
            proof {
                lemma_row_start_step(row as int, width as int, height as int);
            }
            let mut column: usize = 0;
            while column < width
                invariant
                    column <= width,
                    row * width + width <= usize::MAX,
                    cells@.len() == row * width + column,
                    forall|i: int| 0 <= i < cells@.len() ==> cells@[i] == crate::generation::seed_cell(i),
                decreases width - column,
            {
                let index: usize = cells.len();
                let cell = if index % 2 == 0 || index % 7 == 0 {
                    Cell::Alive
                } else {
                    Cell::Dead
                };
                cells.push(cell);
                column = column + 1;
            }
            row = row + 1;
        }
        assert(height * width == width * height) by (nonlinear_arith);
        assert(cells@ =~= Generation::seeded(width as nat, height as nat).cells);
        Universe { width, height, cells }
    }

    /// Builds the standard grid: 64 columns by 64 rows, seeded as
    /// [`Universe::with_size`] seeds it.
    pub fn new() -> (universe: Universe)
        ensures
            universe@ == Generation::seeded(64, 64),
            universe@.cells.len() == 64 * 64,
            universe@.wf(),
    {
        Universe::with_size(64, 64)
    }

    /// Number of columns.
    pub fn get_width(&self) -> (width: usize)
        ensures
            width == self@.width,
            self@.wf(),
    {
        proof {
            use_type_invariant(self);
        }
        self.width
    }

    /// Number of rows.
    pub fn get_height(&self) -> (height: usize)
        ensures
            height == self@.height,
            self@.wf(),
    {
        proof {
            use_type_invariant(self);
        }
        self.height
    }

    /// Read-only access to every cell, row by row.
    pub fn get_cells(&self) -> (cells: &[Cell])
        ensures
            cells@ == self@.cells,
            self@.wf(),
    {
        proof {
            use_type_invariant(self);
        }
        self.cells.as_slice()
    }

    /// Flat index of the cell at `(row, column)`.
    pub fn get_index(&self, row: usize, column: usize) -> (index: usize)
        requires
            self@.in_bounds(row as int, column as int),
        ensures
            index == self@.index_of(row as int, column as int),
            index == row * self@.width + column,
            index < self@.cells.len(),
    {
        proof {
            use_type_invariant(self);
            lemma_index_in_range(row as int, column as int, self.width as int, self.height as int);
        }
        row * self.width + column
    }

    /// The cell at `(row, column)`.
    pub fn cell_at(&self, row: usize, column: usize) -> (cell: Cell)
        requires
            self@.in_bounds(row as int, column as int),
        ensures
            cell == self@.cell_at(row as int, column as int),
    {
        let index = self.get_index(row, column);
        self.cells[index]
    }

    /// Counts the live cells among the eight neighbours of `(row, column)`.
    /// The grid is a torus: the row above row 0 is the last row, the column
    /// right of the last column is column 0. Coordinates beyond the grid are
    /// wrapped in the same way.
    pub fn live_neighbor_count(&self, row: usize, column: usize) -> (count: u8)
        ensures
            count == self@.live_neighbors(row as int, column as int),
            count <= 8,
    {
        proof {
            use_type_invariant(self);
        }
        let here = row % self.height;
        let north = ring_before(row, self.height);
        let south = ring_after(row, self.height);
        let mid = column % self.width;
        let west = ring_before(column, self.width);
        let east = ring_after(column, self.width);
        let mut count: u8 = 0;
        count += self.cell_at(north, west).live_count();
        count += self.cell_at(north, mid).live_count();
        count += self.cell_at(north, east).live_count();
        count += self.cell_at(here, west).live_count();
        count += self.cell_at(here, east).live_count();
        count += self.cell_at(south, west).live_count();
        count += self.cell_at(south, mid).live_count();
        count += self.cell_at(south, east).live_count();
        count
    }

    /// Advances the grid by one generation. Every new cell is computed from
    /// the generation that was current when the call began; the new cells
    /// are gathered in a buffer of their own and replace the old ones in one
    /// step at the end.
    pub fn tick(&mut self)
        ensures
            final(self)@ == old(self)@.next(),
            final(self)@.width == old(self)@.width,
            final(self)@.height == old(self)@.height,
            final(self)@.wf(),
    {
        proof {
            use_type_invariant(&*self);
        }
        let width = self.width;
        let height = self.height;
        let mut next: Vec<Cell> = Vec::with_capacity(self.cells.len());
        let mut row: usize = 0;
        while row < height
            invariant
                *self == *old(self),
                self@.wf(),
                width == self@.width,
                height == self@.height,
                row <= height,
                next@.len() == row * width,
                forall|i: int| 0 <= i < next@.len() ==> next@[i] == self@.next_cell(i),
            decreases height - row,
        {
            proof {
                lemma_row_start_step(row as int, width as int, height as int);
            }
            let mut column: usize = 0;
            while column < width
                invariant
                    *self == *old(self),
                    self@.wf(),
                    width == self@.width,
                    height == self@.height,
                    row < height,
                    column <= width,
                    next@.len() == row * width + column,
                    forall|i: int| 0 <= i < next@.len() ==> next@[i] == self@.next_cell(i),
                decreases width - column,
            {
                let cell = self.cell_at(row, column);
                let count = self.live_neighbor_count(row, column);
                proof {
                    lemma_index_split(row as int, column as int, width as int);
                }
                next.push(Universe::rules(cell, count));
                column = column + 1;
            }
            row = row + 1;
        }
        proof {
            assert(height * width == width * height) by (nonlinear_arith);
            assert(next@ =~= self@.next().cells);
        }
        self.cells = next;
    }

    /// Draws the grid as text: one line per row from top to bottom, one
    /// glyph per cell from left to right, a line feed after every row. A
    /// live cell is drawn as a filled square, a dead one as a hollow square.
    pub fn render(&self) -> (text: String)
        ensures
            text@ == self@.rendered(),
    {
        proof {
            use_type_invariant(self);
            reveal_strlit("\u{25FB}");
            reveal_strlit("\u{25FC}");
            reveal_strlit("\n");
        }
        let mut text = String::new();
        let mut row: usize = 0;
        while row < self.height
            invariant
                self@.wf(),
                row <= self@.height,
                text@.len() == row * (self@.width + 1),
                forall|k: int| 0 <= k < text@.len() ==> text@[k] == self@.rendered_char(k),
                "\u{25FB}"@ == seq![DEAD_GLYPH],
                "\u{25FC}"@ == seq![ALIVE_GLYPH],
                "\n"@ == seq!['\n'],
            decreases self@.height - row,
        {
            let mut column: usize = 0;
            while column < self.width
                invariant
                    self@.wf(),
                    row < self@.height,
                    column <= self@.width,
                    text@.len() == row * (self@.width + 1) + column,
                    forall|k: int| 0 <= k < text@.len() ==> text@[k] == self@.rendered_char(k),
                    "\u{25FB}"@ == seq![DEAD_GLYPH],
                    "\u{25FC}"@ == seq![ALIVE_GLYPH],
                    "\n"@ == seq!['\n'],
                decreases self@.width - column,
            {
                proof {
                    lemma_index_split(row as int, column as int, self.width + 1);
                }
                match self.cell_at(row, column) {
                    Cell::Dead => text.append("\u{25FB}"),
                    Cell::Alive => text.append("\u{25FC}"),
                }
                column = column + 1;
            }
            proof {
                lemma_index_split(row as int, column as int, self.width + 1);
                assert(row * (self.width + 1) + column + 1 == (row + 1) * (self.width + 1))
                    by (nonlinear_arith)
                    requires
                        column == self.width,
                ;
            }
            text.append("\n");
            row = row + 1;
        }
        assert(text@ =~= self@.rendered());
        text
    }

    /// The rule table: what becomes of `cell` when `count` of its neighbours
    /// are alive.
    pub fn rules(cell: Cell, count: u8) -> (next: Cell)
        ensures
            next == cell.next_state(count as nat),
    {
        match cell {
            Cell::Alive => {
                if count < 2 {
                    Cell::Dead
                } else if count > 3 {
                    Cell::Dead
                } else {
                    Cell::Alive
                }
            },
            Cell::Dead => {
                if count == 3 {
                    Cell::Alive
                } else {
                    Cell::Dead
                }
            },
        }
    }
}

} // verus!
