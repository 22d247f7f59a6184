//! What holds of every grid: the laws that the universe's operations obey.

use vstd::prelude::*;
use crate::cell::{next_state, Cell};
use crate::grid::{lemma_index, seed_cell, Grid};

verus! {

/// The rule, case by case: a live cell with two or three live neighbours
/// stays alive; a live cell with fewer than two or more than three dies; a
/// dead cell with exactly three comes alive; any other dead cell stays dead.
pub proof fn lemma_rule_table(cell: Cell, live_neighbors: int)
    ensures
        cell == Cell::Alive && (live_neighbors == 2 || live_neighbors == 3) ==> next_state(
            cell,
            live_neighbors,
        ) == Cell::Alive,
        cell == Cell::Alive && (live_neighbors < 2 || live_neighbors > 3) ==> next_state(
            cell,
            live_neighbors,
        ) == Cell::Dead,
        cell == Cell::Dead && live_neighbors == 3 ==> next_state(cell, live_neighbors)
            == Cell::Alive,
        cell == Cell::Dead && live_neighbors != 3 ==> next_state(cell, live_neighbors)
            == Cell::Dead,
{
}

/// A cell has between zero and eight live neighbours.
pub proof fn lemma_live_neighbors_bound(grid: Grid, row: int, col: int)
    ensures
        0 <= grid.live_neighbors(row, col) <= 8,
{
}

/// A step judges every cell by the generation it starts from: the cell at
/// `(row, col)` of the next generation is what the rule gives for the cell
/// and the live neighbours that stand there before the step.
pub proof fn lemma_step_cell(grid: Grid, row: int, col: int)
    requires
        grid.wf(),
        0 <= row < grid.height,
        0 <= col < grid.width,
    ensures
        grid.step().cell(row, col) == next_state(
            grid.cell(row, col),
            grid.live_neighbors(row, col),
        ),
{
    lemma_index(grid.width as int, grid.height as int, row, col);
    assert(grid.width * grid.height == grid.cells.len());
}

/// A step keeps the size of the grid.
pub proof fn lemma_step_keeps_size(grid: Grid)
    requires
        grid.wf(),
    ensures
        grid.step().wf(),
        grid.step().width == grid.width,
        grid.step().height == grid.height,
{
}

/// After any number of steps the grid has the width and the height it began
/// with, and one cell for each position.
pub proof fn lemma_steps_keep_size(grid: Grid, n: nat)
    requires
        grid.wf(),
    ensures
        grid.steps(n).wf(),
        grid.steps(n).width == grid.width,
        grid.steps(n).height == grid.height,
        grid.steps(n).cells.len() == grid.width * grid.height,
    decreases n,
{
    if n > 0 {
        lemma_steps_keep_size(grid, (n - 1) as nat);
        lemma_step_keeps_size(grid.steps((n - 1) as nat));
    }
}

/// Seeding gives a well-formed grid of the size asked for, in which the cell
/// at linear index `i` is alive exactly where `i` is a multiple of 2 or of 7.
pub proof fn lemma_seeded(width: nat, height: nat, i: int)
    requires
        width > 0,
        height > 0,
        0 <= i < width * height,
    ensures
        Grid::seeded(width, height).wf(),
        Grid::seeded(width, height).width == width,
        Grid::seeded(width, height).height == height,
        Grid::seeded(width, height).cells[i] == Cell::Alive <==> (i % 2 == 0 || i % 7 == 0),
{
    assert(Grid::seeded(width, height).cells[i] == seed_cell(i));
}

/// The text of the first `rows` rows has a glyph and a line break for each
/// of their cells and rows.
proof fn lemma_text_of_rows_len(grid: Grid, rows: nat)
    ensures
        grid.text_of_rows(rows).len() == rows * (grid.width + 1),
    decreases rows,
{
    if rows > 0 {
        lemma_text_of_rows_len(grid, (rows - 1) as nat);
        assert((rows - 1) * (grid.width + 1) + (grid.width + 1) == rows * (grid.width + 1))
            by (nonlinear_arith);
    } else {
        assert(0 * (grid.width + 1) == 0) by (nonlinear_arith);
    }
}

/// In the text of the first `rows` rows, place `col` of line `row` holds the
/// glyph of the cell at `(row, col)`, or the line break where `col` is the
/// width.
proof fn lemma_text_of_rows_char(grid: Grid, rows: nat, row: int, col: int)
    requires
        0 <= row < rows,
        0 <= col <= grid.width,
    ensures
        0 <= row * (grid.width + 1) + col < grid.text_of_rows(rows).len(),
        grid.text_of_rows(rows)[row * (grid.width + 1) + col] == if col == grid.width {
            '\n'
        } else {
            grid.cell(row, col).glyph()
        },
    decreases rows,
{
    let line = grid.width + 1;
    let above = grid.text_of_rows((rows - 1) as nat);
    lemma_text_of_rows_len(grid, rows);
    lemma_text_of_rows_len(grid, (rows - 1) as nat);
    assert(0 <= row * line && row * line + line <= rows * line && (rows - 1) * line + line == rows
        * line) by (nonlinear_arith)
        requires
            0 <= row < rows,
            line > 0,
    ;
    if row == rows - 1 {
        assert(grid.text_of_rows(rows)[row * line + col] == grid.row_text(row)[col]);
    } else {
        lemma_text_of_rows_char(grid, (rows - 1) as nat, row, col);
        assert(grid.text_of_rows(rows)[row * line + col] == above[row * line + col]);
    }
}

/// The rendered text has one line for each row: `width` glyphs, each that of
/// the cell in its place, and then a line break. Place `col` of line `row`
/// is character `row * (width + 1) + col` of the text.
pub proof fn lemma_text_layout(grid: Grid, row: int, col: int)
    requires
        grid.wf(),
        0 <= row < grid.height,
        0 <= col <= grid.width,
    ensures
        grid.text().len() == grid.height * (grid.width + 1),
        0 <= row * (grid.width + 1) + col < grid.text().len(),
        col < grid.width ==> grid.text()[row * (grid.width + 1) + col] == grid.cell(
            row,
            col,
        ).glyph(),
        col == grid.width ==> grid.text()[row * (grid.width + 1) + col] == '\n',
        grid.cell(row, col).glyph() != '\n',
{
    lemma_text_of_rows_len(grid, grid.height);
    lemma_text_of_rows_char(grid, grid.height, row, col);
}

} // verus!
