//! What holds of every grid, stated over [`Generation`] and proved once.

use vstd::prelude::*;
use vstd::arithmetic::div_mod::lemma_small_mod;
use crate::arith::{lemma_index_in_range, lemma_index_split, lemma_step_back, lemma_step_forward};
use crate::cell::{Cell, ALIVE_GLYPH, DEAD_GLYPH};
use crate::generation::{seed_cell, Generation};
use crate::universe::Universe;

verus! {

/// A freshly seeded generation of positive width and height is well formed:
/// it holds exactly `width * height` cells, each the seed of its own index.
pub proof fn lemma_seeded_wf(width: nat, height: nat)
    requires
        width > 0,
        height > 0,
    ensures
        Generation::seeded(width, height).wf(),
        Generation::seeded(width, height).cells.len() == width * height,
        forall|i: int|
            0 <= i < width * height ==> #[trigger] Generation::seeded(width, height).cells[i]
                == seed_cell(i),
{
}

/// Every position of the grid has its flat index inside the cell sequence.
pub proof fn lemma_index_of_in_range(g: Generation, row: int, column: int)
    requires
        g.wf(),
        g.in_bounds(row, column),
    ensures
        0 <= g.index_of(row, column) < g.cells.len(),
{
    lemma_index_in_range(row, column, g.width as int, g.height as int);
}

/// Two positions of the grid with the same flat index are the same position.
pub proof fn lemma_index_of_injective(g: Generation, row1: int, column1: int, row2: int, column2: int)
    requires
        g.wf(),
        g.in_bounds(row1, column1),
        g.in_bounds(row2, column2),
        g.index_of(row1, column1) == g.index_of(row2, column2),
    ensures
        row1 == row2,
        column1 == column2,
{
    lemma_index_split(row1, column1, g.width as int);
    lemma_index_split(row2, column2, g.width as int);
}

/// The rule table, row by row, for every state and every count.
pub proof fn lemma_rule_table(cell: Cell, live_neighbors: nat)
    ensures
        cell == Cell::Alive && live_neighbors < 2 ==> cell.next_state(live_neighbors) == Cell::Dead,
        cell == Cell::Alive && (live_neighbors == 2 || live_neighbors == 3) ==> cell.next_state(
            live_neighbors,
        ) == Cell::Alive,
        cell == Cell::Alive && live_neighbors > 3 ==> cell.next_state(live_neighbors) == Cell::Dead,
        cell == Cell::Dead && live_neighbors == 3 ==> cell.next_state(live_neighbors)
            == Cell::Alive,
        cell == Cell::Dead && live_neighbors != 3 ==> cell.next_state(live_neighbors) == Cell::Dead,
{
}

/// The grid is a torus. Inside the grid a wrapped lookup is a plain lookup;
/// one step beyond an edge it lands on the opposite edge.
pub proof fn lemma_torus_wraps(g: Generation, row: int, column: int)
    requires
        g.wf(),
        g.in_bounds(row, column),
    ensures
        g.torus_cell(row, column) == g.cell_at(row, column),
        g.torus_cell(-1, column) == g.cell_at(g.height - 1, column),
        g.torus_cell(g.height as int, column) == g.cell_at(0, column),
        g.torus_cell(row, -1) == g.cell_at(row, g.width - 1),
        g.torus_cell(row, g.width as int) == g.cell_at(row, 0),
{
    let h = g.height as int;
    let w = g.width as int;
    lemma_small_mod(row as nat, g.height);
    lemma_small_mod(column as nat, g.width);
    lemma_small_mod((h - 1) as nat, g.height);
    lemma_small_mod((w - 1) as nat, g.width);
    lemma_small_mod(0, g.height);
    lemma_small_mod(0, g.width);
    lemma_step_back(0, h);
    lemma_step_forward(h - 1, h);
    lemma_step_back(0, w);
    lemma_step_forward(w - 1, w);
    lemma_step_back(row + 1, h);
    lemma_step_forward(row - 1, h);
    lemma_step_back(column + 1, w);
    lemma_step_forward(column - 1, w);
}

/// The rows that the neighbours of a cell lie in are the cell's own row, the
/// row before it and the row after it on the ring of rows; likewise for
/// columns. For the corner `(0, 0)` these are rows `height - 1`, `0` and
/// `1 % height`, and columns `width - 1`, `0` and `1 % width`.
pub proof fn lemma_corner_neighbors(g: Generation)
    requires
        g.wf(),
    ensures
        ({
            let up = g.height - 1;
            let down = 1int % (g.height as int);
            let left = g.width - 1;
            let right = 1int % (g.width as int);
            g.live_neighbors(0, 0) == g.cell_at(up, left).population()
                + g.cell_at(up, 0).population()
                + g.cell_at(up, right).population()
                + g.cell_at(0, left).population()
                + g.cell_at(0, right).population()
                + g.cell_at(down, left).population()
                + g.cell_at(down, 0).population()
                + g.cell_at(down, right).population()
        }),
{
    lemma_step_back(0, g.height as int);
    lemma_step_back(0, g.width as int);
}

/// No cell has more than eight live neighbours.
pub proof fn lemma_live_neighbors_bound(g: Generation, row: int, column: int)
    ensures
        g.live_neighbors(row, column) <= 8,
{
}

/// A step keeps the shape of the grid.
pub proof fn lemma_next_wf(g: Generation)
    requires
        g.wf(),
    ensures
        g.next().wf(),
        g.next().width == g.width,
        g.next().height == g.height,
{
}

/// Each cell of the successor generation is what the rule table makes of
/// the cell at the same position and of its neighbours, all taken from the
/// generation before the step: no cell of the successor enters into it.
pub proof fn lemma_next_cell_at(g: Generation, row: int, column: int)
    requires
        g.wf(),
        g.in_bounds(row, column),
    ensures
        g.next().cell_at(row, column) == g.cell_at(row, column).next_state(
            g.live_neighbors(row, column),
        ),
{
    lemma_index_in_range(row, column, g.width as int, g.height as int);
    lemma_index_split(row, column, g.width as int);
}

/// Stepping once more after `steps` steps gives the generation after
/// `steps + 1` steps, so successive steps walk through `after(1)`,
/// `after(2)` and so on, never twice through the same one.
pub proof fn lemma_after_step(g: Generation, steps: nat)
    ensures
        g.after(steps + 1) == g.after(steps).next(),
    decreases steps,
{
    assert(g.after(steps + 1) == g.next().after(steps));
    if steps > 0 {
        lemma_after_step(g.next(), (steps - 1) as nat);
        assert(g.after(steps) == g.next().after((steps - 1) as nat));
    }
}

/// Every generation that follows a well-formed one is well formed and of the
/// same shape.
pub proof fn lemma_after_wf(g: Generation, steps: nat)
    requires
        g.wf(),
    ensures
        g.after(steps).wf(),
        g.after(steps).width == g.width,
        g.after(steps).height == g.height,
    decreases steps,
{
    if steps > 0 {
        lemma_after_wf(g.next(), (steps - 1) as nat);
    }
}

/// Two fresh grids of the same size hold the same cells, and stepped in
/// lockstep they pass through the same generations.
pub proof fn lemma_fresh_grids_agree(a: Universe, b: Universe, width: nat, height: nat, steps: nat)
    requires
        a@ == Generation::seeded(width, height),
        b@ == Generation::seeded(width, height),
    ensures
        a@.cells.len() == b@.cells.len(),
        forall|i: int| 0 <= i < a@.cells.len() ==> a@.cells[i] == b@.cells[i],
        a@.after(steps) == b@.after(steps),
{
}

/// Grids that hold the same generation stay equal however often both are
/// stepped: what follows depends on the cells alone.
pub proof fn lemma_lockstep(a: Universe, b: Universe, steps: nat)
    requires
        a@ == b@,
    ensures
        a@.after(steps) == b@.after(steps),
        a@.rendered() == b@.rendered(),
{
}

/// The drawing has one line of `width + 1` characters per row: the glyph of
/// each cell of the row from left to right, then a line feed. The two glyphs
/// differ, and neither is a line feed.
pub proof fn lemma_rendered_layout(g: Generation, row: int, column: int)
    requires
        g.wf(),
        g.in_bounds(row, column),
    ensures
        g.rendered().len() == g.height * (g.width + 1),
        g.rendered()[row * (g.width + 1) + column] == g.cell_at(row, column).glyph(),
        g.rendered()[row * (g.width + 1) + g.width] == '\n',
        DEAD_GLYPH != ALIVE_GLYPH,
        DEAD_GLYPH != '\n',
        ALIVE_GLYPH != '\n',
{
    let stride = (g.width + 1) as int;
    lemma_index_in_range(row, column, stride, g.height as int);
    lemma_index_in_range(row, g.width as int, stride, g.height as int);
    lemma_index_split(row, column, stride);
    lemma_index_split(row, g.width as int, stride);
    assert(stride * g.height == g.height * (g.width + 1)) by (nonlinear_arith)
        requires
            stride == g.width + 1,
    ;
}

} // verus!
