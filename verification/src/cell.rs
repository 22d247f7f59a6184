//! The state of one cell and the rule that advances it.

use vstd::prelude::*;

verus! {

/// One cell of the grid. A live cell counts as one neighbour, a dead one as none.
#[derive(Clone, Copy, Debug, PartialEq, Eq, Structural)]
pub enum Cell {
    Dead,
    Alive,
}

/// The state a cell takes in the next generation, given how many of its eight
/// neighbours are alive now: three neighbours give life, two keep it.
pub open spec fn next_state(cell: Cell, live_neighbors: int) -> Cell {
    if live_neighbors == 3 || (live_neighbors == 2 && cell == Cell::Alive) {
        Cell::Alive
    } else {
        Cell::Dead
    }
}

impl Cell {
    /// What the cell adds to a neighbour count: 1 if alive, 0 if dead.
    pub open spec fn weight(self) -> int {
        match self {
            Cell::Dead => 0,
            Cell::Alive => 1,
        }
    }

    /// The character that stands for the cell in rendered text: a filled
    /// square for a live cell, a hollow square for a dead one.
    pub open spec fn glyph(self) -> char {
        match self {
            Cell::Dead => '\u{25FB}',
            Cell::Alive => '\u{25FC}',
        }
    }

    /// The cell as a number: 1 if alive, 0 if dead.
    pub fn value(self) -> (v: u8)
        ensures
            v == self.weight(),
    {
        match self {
            Cell::Dead => 0,
            Cell::Alive => 1,
        }
    }

    /// The cell's state in the next generation when `live_neighbors` of its
    /// neighbours are alive.
    pub fn next(self, live_neighbors: u8) -> (next: Cell)
        ensures
            next == next_state(self, live_neighbors as int),
    {
        match self {
            Cell::Alive => {
                if live_neighbors < 2 || live_neighbors > 3 {
                    Cell::Dead
                } else {
                    Cell::Alive
                }
            },
            Cell::Dead => {
                if live_neighbors == 3 {
                    Cell::Alive
                } else {
                    Cell::Dead
                }
            },
        }
    }
}

} // verus!
