//! The mathematical model of a generation: a torus of cells in row-major order.

use vstd::prelude::*;
use crate::cell::{next_state, Cell};

verus! {

/// One generation: `height` rows of `width` cells each, row after row.
pub struct Grid {
    pub width: nat,
    pub height: nat,
    pub cells: Seq<Cell>,
}

/// The cell that seeding puts at linear index `i`: alive where `i` is a
/// multiple of 2 or of 7.
pub open spec fn seed_cell(i: int) -> Cell {
    if i % 2 == 0 || i % 7 == 0 {
        Cell::Alive
    } else {
        Cell::Dead
    }
}

impl Grid {
    /// A grid has at least one row and one column, and exactly one cell for
    /// each position.
    pub open spec fn wf(self) -> bool {
        &&& self.width > 0
        &&& self.height > 0
        &&& self.cells.len() == self.width * self.height
    }

    /// The place of `(row, col)` in the row-major cell sequence.
    pub open spec fn index(self, row: int, col: int) -> int {
        row * self.width + col
    }

    /// The cell at `(row, col)`, for coordinates inside the grid.
    pub open spec fn cell(self, row: int, col: int) -> Cell {
        self.cells[self.index(row, col)]
    }

    /// The cell at `(row, col)` on the torus: coordinates beyond an edge come
    /// back in at the opposite edge.
    pub open spec fn torus_cell(self, row: int, col: int) -> Cell {
        self.cell(row % (self.height as int), col % (self.width as int))
    }

    /// How many of the eight cells around `(row, col)` are alive. On a grid
    /// narrower or lower than three cells a position may be met more than
    /// once, and is counted each time.
    pub open spec fn live_neighbors(self, row: int, col: int) -> int {
        self.torus_cell(row - 1, col - 1).weight() + self.torus_cell(row - 1, col).weight()
            + self.torus_cell(row - 1, col + 1).weight() + self.torus_cell(row, col - 1).weight()
            + self.torus_cell(row, col + 1).weight() + self.torus_cell(row + 1, col - 1).weight()
            + self.torus_cell(row + 1, col).weight() + self.torus_cell(row + 1, col + 1).weight()
    }

    /// The next generation: every cell follows the rule, each judged by its
    /// neighbours in `self`.
    pub open spec fn step(self) -> Grid {
        Grid {
            width: self.width,
            height: self.height,
            cells: Seq::new(
                self.cells.len(),
                |i: int|
                    next_state(
                        self.cells[i],
                        self.live_neighbors(i / (self.width as int), i % (self.width as int)),
                    ),
            ),
        }
    }

    /// The generation reached after `n` steps.
    pub open spec fn steps(self, n: nat) -> Grid
        decreases n,
    {
        if n == 0 {
            self
        } else {
            self.steps((n - 1) as nat).step()
        }
    }

    /// The seeded grid of the given size.
    pub open spec fn seeded(width: nat, height: nat) -> Grid {
        Grid { width, height, cells: Seq::new(width * height, |i: int| seed_cell(i)) }
    }

    /// The text of one row: a glyph for each cell, left to right, then a line
    /// break.
    pub open spec fn row_text(self, row: int) -> Seq<char> {
        Seq::new(self.width, |col: int| self.cell(row, col).glyph()).push('\n')
    }

    /// The text of the first `rows` rows, top to bottom.
    pub open spec fn text_of_rows(self, rows: nat) -> Seq<char>
        decreases rows,
    {
        if rows == 0 {
            Seq::empty()
        } else {
            self.text_of_rows((rows - 1) as nat) + self.row_text(rows - 1)
        }
    }

    /// The text of the whole grid.
    pub open spec fn text(self) -> Seq<char> {
        self.text_of_rows(self.height)
    }
}

/// A position inside the grid has its index inside the cell sequence, and the
/// index gives the position back.
pub proof fn lemma_index(width: int, height: int, row: int, col: int)
    requires
        0 <= row < height,
        0 <= col < width,
    ensures
        0 <= row * width + col < width * height,
        (row * width + col) / width == row,
        (row * width + col) % width == col,
{
    assert(0 <= row * width && row * width + width <= width * height) by (nonlinear_arith)
        requires
            0 <= row < height,
            0 < width,
    ;
    vstd::arithmetic::div_mod::lemma_fundamental_div_mod_converse(row * width + col, width, row, col);
}

/// The coordinate before `i` on a ring of `n` places.
pub proof fn lemma_ring_before(i: int, n: int)
    requires
        0 <= i < n,
    ensures
        (i - 1) % n == (i + n - 1) % n,
        (i - 1) % n == if i == 0 { n - 1 } else { i - 1 },
{
    if i == 0 {
        vstd::arithmetic::div_mod::lemma_fundamental_div_mod_converse(-1, n, -1, n - 1);
        vstd::arithmetic::div_mod::lemma_small_mod((n - 1) as nat, n as nat);
    } else {
        vstd::arithmetic::div_mod::lemma_small_mod((i - 1) as nat, n as nat);
        vstd::arithmetic::div_mod::lemma_fundamental_div_mod_converse(i + n - 1, n, 1, i - 1);
    }
}

/// The coordinate after `i` on a ring of `n` places.
pub proof fn lemma_ring_after(i: int, n: int)
    requires
        0 <= i < n,
    ensures
        (i + 1) % n == if i + 1 == n { 0 } else { i + 1 },
{
    if i + 1 == n {
        vstd::arithmetic::div_mod::lemma_fundamental_div_mod_converse(n, n, 1, 0);
    } else {
        vstd::arithmetic::div_mod::lemma_small_mod((i + 1) as nat, n as nat);
    }
}

} // verus!
