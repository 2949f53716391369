//! The state of one cell and the rule that decides its fate.

use vstd::prelude::*;

verus! {

/// The state of a single cell.
#[derive(Clone, Copy, PartialEq, Eq, Debug, Structural)]
pub enum Cell {
    Dead,
    Alive,
}

/// Glyph drawn for a dead cell: a hollow square.
pub const DEAD_GLYPH: char = '\u{25FB}';

/// Glyph drawn for a live cell: a filled square.
pub const ALIVE_GLYPH: char = '\u{25FC}';

impl Cell {
    /// What this cell adds to the live-neighbour count of the cells around it.
    pub open spec fn population(self) -> nat {
        match self {
            Cell::Dead => 0,
            Cell::Alive => 1,
        }
    }

    /// The rule table. A live cell with two or three live neighbours stays
    /// alive, a dead cell with exactly three comes to life, and every other
    /// cell is dead in the next generation.
    pub open spec fn next_state(self, live_neighbors: nat) -> Cell {
        match self {
            Cell::Alive => if live_neighbors == 2 || live_neighbors == 3 {
                Cell::Alive
            } else {
                Cell::Dead
            },
            Cell::Dead => if live_neighbors == 3 {
                Cell::Alive
            } else {
                Cell::Dead
            },
        }
    }

    /// The character that stands for this cell in a rendered grid.
    pub open spec fn glyph(self) -> char {
        match self {
            Cell::Dead => DEAD_GLYPH,
            Cell::Alive => ALIVE_GLYPH,
        }
    }

    /// Returns 1 for a live cell and 0 for a dead one.
    pub fn live_count(self) -> (n: u8)
        ensures
            n == self.population(),
    {
        match self {
            Cell::Dead => 0,
            Cell::Alive => 1,
        }
    }
}

} // verus!
