//! The mathematical model of a generation: what a grid is, which cells count
//! as the neighbours of a cell on the torus, and what the next generation is.

use crate::cell::Cell;
use vstd::arithmetic::div_mod::{
    lemma_div_pos_is_pos, lemma_fundamental_div_mod, lemma_fundamental_div_mod_converse,
    lemma_mod_pos_bound, lemma_multiply_divide_lt,
};
use vstd::prelude::*;

verus! {

/// One generation of the automaton as a mathematical value: a rectangle of
/// `width` columns and `height` rows whose cells are listed row by row.
pub struct Grid {
    pub width: nat,
    pub height: nat,
    pub cells: Seq<Cell>,
}

impl Grid {
    /// A grid is well formed when it has at least one row and one column and
    /// holds exactly one cell for each position.
    pub open spec fn wf(self) -> bool {
        &&& self.width >= 1
        &&& self.height >= 1
        &&& self.cells.len() == self.width * self.height
    }

    /// The place of the cell at `row` and `col` in the row-major list of
    /// cells. Nothing wraps here: a caller that steps over an edge reduces
    /// the row and column modulo the dimensions first.
    pub open spec fn index(self, row: int, col: int) -> int {
        row * self.width + col
    }

    /// The cell at `row` and `col`.
    pub open spec fn cell(self, row: int, col: int) -> Cell {
        self.cells[self.index(row, col)]
    }

    /// The `k`-th of the three offsets by which a neighbour's row (or column)
    /// differs from a cell's own, along a dimension of `n` cells: one step
    /// back, none, one step forward. The step back is written as `n - 1`
    /// steps forward, so that the sum of a position and an offset is never
    /// negative before it is reduced modulo `n`.
    pub open spec fn offset(n: nat, k: int) -> int {
        if k == 0 {
            n - 1
        } else if k == 1 {
            0
        } else {
            1
        }
    }

    /// Whether the `k`-th offset along a dimension of `n` cells is the first
    /// of its value. The three offsets form a set: where the dimension has
    /// one or two cells, the step back is the same offset as no step or as
    /// the step forward, and it is taken once.
    pub open spec fn counted(n: nat, k: int) -> bool {
        k == 0 || Self::offset(n, k) != Self::offset(n, 0)
    }

    /// What the pair of the `i`-th row offset and the `j`-th column offset
    /// adds to the count of live neighbours of the cell at `row` and `col`:
    /// the byte of the cell that these offsets lead to, wrapping around the
    /// edges, or nothing for a repeated offset and for the pair of zero
    /// offsets, which leads to the cell itself.
    pub open spec fn neighbor(self, row: int, col: int, i: int, j: int) -> int {
        let delta_row = Self::offset(self.height, i);
        let delta_col = Self::offset(self.width, j);
        if Self::counted(self.height, i) && Self::counted(self.width, j) && !(delta_row == 0
            && delta_col == 0) {
            self.cell(
                (row + delta_row) % (self.height as int),
                (col + delta_col) % (self.width as int),
            ).byte()
        } else {
            0
        }
    }

    /// What the `i`-th row offset adds to the count: the sum over the three
    /// column offsets.
    pub open spec fn neighbor_row(self, row: int, col: int, i: int) -> int {
        self.neighbor(row, col, i, 0) + self.neighbor(row, col, i, 1) + self.neighbor(
            row,
            col,
            i,
            2,
        )
    }

    /// The number of live cells in the Moore neighbourhood of the cell at
    /// `row` and `col` on the torus: the sum over the three row offsets, and
    /// so over every pair of a row offset and a column offset but the pair
    /// of zeros, each pair of values once.
    pub open spec fn neighbor_count(self, row: int, col: int) -> int {
        self.neighbor_row(row, col, 0) + self.neighbor_row(row, col, 1) + self.neighbor_row(
            row,
            col,
            2,
        )
    }

    /// Whether the cell at `row` and `col` is at rest: the transition rule
    /// gives it the state that it has.
    pub open spec fn at_rest(self, row: int, col: int) -> bool {
        self.cell(row, col).next(self.neighbor_count(row, col)) == self.cell(row, col)
    }

    /// The next generation: every cell's next state follows from its own
    /// state and its live neighbours in this generation alone.
    pub open spec fn step(self) -> Grid {
        Grid {
            width: self.width,
            height: self.height,
            cells: Seq::new(
                self.cells.len(),
                |i: int|
                    self.cells[i].next(
                        self.neighbor_count(i / (self.width as int), i % (self.width as int)),
                    ),
            ),
        }
    }

    /// The generation that follows this one after `n` steps.
    pub open spec fn after(self, n: nat) -> Grid
        decreases n,
    {
        if n == 0 {
            self
        } else {
            self.after((n - 1) as nat).step()
        }
    }

    /// The state that the initial pattern gives to the cell at linear index
    /// `i`: alive where `i` is even or a multiple of eleven.
    pub open spec fn seed(i: int) -> Cell {
        if i % 2 == 0 || i % 11 == 0 {
            Cell::Alive
        } else {
            Cell::Dead
        }
    }

    /// The initial generation of the given dimensions.
    pub open spec fn seeded(width: nat, height: nat) -> Grid {
        Grid { width, height, cells: Seq::new(width * height, |i: int| Self::seed(i)) }
    }

    /// The text of one row: a glyph for each cell, then a newline.
    pub open spec fn row_text(self, row: int) -> Seq<char> {
        Seq::new(self.width, |col: int| self.cell(row, col).glyph()).push('\n')
    }

    /// The text of the first `n` rows.
    pub open spec fn rows_text(self, n: nat) -> Seq<char>
        decreases n,
    {
        if n == 0 {
            Seq::empty()
        } else {
            self.rows_text((n - 1) as nat) + self.row_text(n - 1)
        }
    }

    /// The text rendering of the grid: its rows from the top, each ended by
    /// a newline, and nothing before or after them.
    pub open spec fn render(self) -> Seq<char> {
        self.rows_text(self.height)
    }
}

/// A position inside a well-formed grid has its index inside the list of
/// cells.
pub proof fn lemma_index_in_range(g: Grid, row: int, col: int)
    requires
        g.wf(),
    ensures
        0 <= row < g.height && 0 <= col < g.width ==> 0 <= g.index(row, col) < g.cells.len(),
{
    if 0 <= row < g.height && 0 <= col < g.width {
        assert(0 <= row * g.width <= (g.height - 1) * g.width) by (nonlinear_arith)
            requires
                0 <= row <= g.height - 1,
                g.width >= 0,
        ;
        assert((g.height - 1) * g.width == g.height * g.width - g.width) by (nonlinear_arith);
        assert(g.width * g.height == g.height * g.width) by (nonlinear_arith);
    }
}

/// Every index into the cells of a well-formed grid is the index of one
/// position of the grid: of the row `i / width` and the column `i % width`.
pub proof fn lemma_position_of_index(g: Grid, i: int)
    requires
        g.wf(),
        0 <= i < g.cells.len(),
    ensures
        0 <= i / (g.width as int) < g.height,
        0 <= i % (g.width as int) < g.width,
        g.index(i / (g.width as int), i % (g.width as int)) == i,
{
    let w = g.width as int;
    lemma_fundamental_div_mod(i, w);
    lemma_mod_pos_bound(i, w);
    lemma_div_pos_is_pos(i, w);
    lemma_multiply_divide_lt(i, w, g.height as int);
}

/// In the next generation of a well-formed grid, the cell at a position of
/// the grid is what the transition rule gives for the state and the live
/// neighbours that this position has in the current generation.
pub proof fn lemma_step_cell(g: Grid, row: int, col: int)
    requires
        g.wf(),
        0 <= row < g.height,
        0 <= col < g.width,
    ensures
        g.step().cell(row, col) == g.cell(row, col).next(g.neighbor_count(row, col)),
{
    lemma_index_in_range(g, row, col);
    lemma_fundamental_div_mod_converse(g.index(row, col), g.width as int, row, col);
}

} // verus!

