//! The universe: an owned generation that can be advanced and rendered.

use vstd::prelude::*;
use vstd::string::StringExecFns;
use crate::cell::Cell;
use crate::grid::{lemma_index, lemma_ring_after, lemma_ring_before, seed_cell, Grid};

verus! {

/// Why a universe could not be built.
#[derive(Clone, Copy, Debug, PartialEq, Eq, Structural)]
pub enum UniverseError {
    /// The width or the height is zero.
    EmptyGrid,
    /// The grid would hold more cells than a `u32` can count.
    TooLarge,
    /// The cells given are not one for each position of the grid.
    CellCount,
}

/// What is wrong with a grid of `width` by `height` cells, if anything.
pub open spec fn size_fault(width: int, height: int) -> Option<UniverseError> {
    if width <= 0 || height <= 0 {
        Some(UniverseError::EmptyGrid)
    } else if width * height > u32::MAX {
        Some(UniverseError::TooLarge)
    } else {
        None
    }
}

/// A fixed-size toroidal grid of cells that holds one generation at a time.
pub struct Universe {
    width: u32,
    height: u32,
    cells: Vec<Cell>,
}

impl View for Universe {
    type V = Grid;

    closed spec fn view(&self) -> Grid {
        Grid { width: self.width as nat, height: self.height as nat, cells: self.cells@ }
    }
}

/// The coordinate before `i` on a ring of `n` places.
fn ring_before(i: u32, n: u32) -> (r: u32)
    requires
        i < n,
    ensures
        r == (i - 1) % (n as int),
        r < n,
{
    proof {
        lemma_ring_before(i as int, n as int);
    }
    ((i as u64 + n as u64 - 1) % (n as u64)) as u32
}

/// The coordinate after `i` on a ring of `n` places.
fn ring_after(i: u32, n: u32) -> (r: u32)
    requires
        i < n,
    ensures
        r == (i + 1) % (n as int),
        r < n,
{
    proof {
        lemma_ring_after(i as int, n as int);
    }
    ((i as u64 + 1) % (n as u64)) as u32
}

impl Universe {
    /// Every universe holds a well-formed grid whose cell count fits in `u32`.
    #[verifier::type_invariant]
    closed spec fn inv(self) -> bool {
        &&& self@.wf()
        &&& self.width * self.height <= u32::MAX
    }

    /// The seeded universe of the given size.
    fn seeded(width: u32, height: u32) -> (universe: Universe)
        requires
            size_fault(width as int, height as int) is None,
        ensures
            universe@ == Grid::seeded(width as nat, height as nat),
    {
        let count: u32 = width * height;
        let mut cells: Vec<Cell> = Vec::new();
        for i in 0..count
            invariant
                cells@.len() == i,
                forall|j: int| 0 <= j < i ==> cells@[j] == seed_cell(j),
        {
            if i % 2 == 0 || i % 7 == 0 {
                cells.push(Cell::Alive);
            } else {
                cells.push(Cell::Dead);
            }
        }
        assert(cells@ =~= Grid::seeded(width as nat, height as nat).cells);
        Universe { width, height, cells }
    }

    /// A universe of 64 by 64 cells in which the cell at linear index `i` is
    /// alive where `i` is a multiple of 2 or of 7.
    pub fn new() -> (universe: Universe)
        ensures
            universe@ == Grid::seeded(64, 64),
            universe@.wf(),
            universe@.width == 64,
            universe@.height == 64,
            forall|i: int|
                0 <= i < 4096 ==> (#[trigger] universe@.cells[i] == Cell::Alive <==> (i % 2 == 0
                    || i % 7 == 0)),
    {
        Universe::seeded(64, 64)
    }

    /// A universe of `width` by `height` cells, seeded as `new` seeds its
    /// own. Fails when a dimension is zero or the cells are too many to count
    /// in a `u32`.
    pub fn with_size(width: u32, height: u32) -> (result: Result<Universe, UniverseError>)
        ensures
            match size_fault(width as int, height as int) {
                Some(fault) => result == Err::<Universe, UniverseError>(fault),
                None => result is Ok && result->Ok_0@ == Grid::seeded(width as nat, height as nat)
                    && result->Ok_0@.wf(),
            },
    {
        if width == 0 || height == 0 {
            return Err(UniverseError::EmptyGrid);
        }
        if width.checked_mul(height).is_none() {
            return Err(UniverseError::TooLarge);
        }
        Ok(Universe::seeded(width, height))
    }

    /// A universe of `width` by `height` cells that holds the given cells,
    /// row after row. Fails when a dimension is zero, when the cells would be
    /// too many to count in a `u32`, or when `cells` does not hold exactly one
    /// cell for each position.
    pub fn from_cells(width: u32, height: u32, cells: Vec<Cell>) -> (result: Result<
        Universe,
        UniverseError,
    >)
        ensures
            match size_fault(width as int, height as int) {
                Some(fault) => result == Err::<Universe, UniverseError>(fault),
                None => if cells@.len() == width * height {
                    result is Ok && result->Ok_0@ == (Grid {
                        width: width as nat,
                        height: height as nat,
                        cells: cells@,
                    })
                } else {
                    result == Err::<Universe, UniverseError>(UniverseError::CellCount)
                },
            },
    {
        if width == 0 || height == 0 {
            return Err(UniverseError::EmptyGrid);
        }
        match width.checked_mul(height) {
            None => Err(UniverseError::TooLarge),
            Some(count) => {
                if cells.len() != count as usize {
                    return Err(UniverseError::CellCount);
                }
                Ok(Universe { width, height, cells })
            },
        }
    }

    /// The number of columns.
    pub fn width(&self) -> (width: u32)
        ensures
            width == self@.width,
            width > 0,
    {
        proof {
            use_type_invariant(self);
        }
        self.width
    }

    /// The number of rows.
    pub fn height(&self) -> (height: u32)
        ensures
            height == self@.height,
            height > 0,
    {
        proof {
            use_type_invariant(self);
        }
        self.height
    }

    /// The cells of the current generation, row after row.
    pub fn cells(&self) -> (cells: &Vec<Cell>)
        ensures
            cells@ == self@.cells,
            cells@.len() == self@.width * self@.height,
    {
        proof {
            use_type_invariant(self);
        }
        &self.cells
    }

    /// The place of `(row, col)` in the row-major cell sequence.
    pub fn get_index(&self, row: u32, col: u32) -> (index: usize)
        requires
            row < self@.height,
            col < self@.width,
        ensures
            index == self@.index(row as int, col as int),
            index < self@.cells.len(),
    {
        proof {
            use_type_invariant(self);
            lemma_index(self.width as int, self.height as int, row as int, col as int);
        }
        (row * self.width + col) as usize
    }

    /// The cell at `(row, col)`.
    fn cell_at(&self, row: u32, col: u32) -> (cell: Cell)
        requires
            row < self@.height,
            col < self@.width,
        ensures
            cell == self@.cell(row as int, col as int),
    {
        let index = self.get_index(row, col);
        self.cells[index]
    }

    /// How many of the eight cells around `(row, col)` are alive, with the
    /// grid wrapping at its edges.
    pub fn get_live_neighbor_count(&self, row: u32, col: u32) -> (count: u8)
        requires
            row < self@.height,
            col < self@.width,
        ensures
            count == self@.live_neighbors(row as int, col as int),
            count <= 8,
    {
        proof {
            use_type_invariant(self);
            vstd::arithmetic::div_mod::lemma_small_mod(row as nat, self.height as nat);
            vstd::arithmetic::div_mod::lemma_small_mod(col as nat, self.width as nat);
        }
        let north = ring_before(row, self.height);
        let south = ring_after(row, self.height);
        let west = ring_before(col, self.width);
        let east = ring_after(col, self.width);

        self.cell_at(north, west).value() + self.cell_at(north, col).value()
            + self.cell_at(north, east).value() + self.cell_at(row, west).value()
            + self.cell_at(row, east).value() + self.cell_at(south, west).value()
            + self.cell_at(south, col).value() + self.cell_at(south, east).value()
    }

    /// Advances the universe by one generation. Every cell is judged against
    /// the generation before the call.
    pub fn tick(&mut self)
        ensures
            final(self)@ == old(self)@.step(),
            final(self)@.wf(),
    {
        let mut next: Vec<Cell> = Vec::new();

        for row in 0..self.height
            invariant
                *self == *old(self),
                next@.len() == row * self.width,
                forall|i: int| 0 <= i < next@.len() ==> next@[i] == self@.step().cells[i],
        {
            for col in 0..self.width
                invariant
                    *self == *old(self),
                    row < self.height,
                    next@.len() == row * self.width + col,
                    forall|i: int| 0 <= i < next@.len() ==> next@[i] == self@.step().cells[i],
            {
                proof {
                    use_type_invariant(&*self);
                    lemma_index(self.width as int, self.height as int, row as int, col as int);
                }
                let live_count = self.get_live_neighbor_count(row, col);
                let cell = self.cell_at(row, col);
                next.push(cell.next(live_count));
            }
            assert((row + 1) * self.width == row * self.width + self.width) by (nonlinear_arith);
        }

        proof {
            use_type_invariant(&*self);
            assert(self.height * self.width == self.width * self.height) by (nonlinear_arith);
            assert(next@ =~= self@.step().cells);
        }
        self.cells = next;
    }

    /// The current generation as text: one line for each row, top to bottom,
    /// with a filled square for each live cell and a hollow square for each
    /// dead one, left to right, and a line break after each row.
    pub fn render(&self) -> (text: String)
        ensures
            text@ == self@.text(),
    {
        let mut text = String::new();
        for row in 0..self.height
            invariant
                text@ == self@.text_of_rows(row as nat),
        {
            let ghost done = text@;
            for col in 0..self.width
                invariant
                    row < self.height,
                    text@ == done + Seq::new(
                        col as nat,
                        |c: int| self@.cell(row as int, c).glyph(),
                    ),
            {
                let ghost line = text@;
                if self.cell_at(row, col) == Cell::Alive {
                    text.append("\u{25FC}");
                } else {
                    text.append("\u{25FB}");
                }
                proof {
                    reveal_strlit("\u{25FC}");
                    reveal_strlit("\u{25FB}");
                    assert(text@ =~= line.push(self@.cell(row as int, col as int).glyph()));
                    assert(text@ =~= done + Seq::new(
                        (col + 1) as nat,
                        |c: int| self@.cell(row as int, c).glyph(),
                    ));
                }
            }
            text.append("\n");
            proof {
                reveal_strlit("\n");
                assert(text@ =~= done + self@.row_text(row as int));
            }
        }
        text
    }
}

} // verus!
