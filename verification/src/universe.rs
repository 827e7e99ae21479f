//! The engine: a grid held in memory and advanced in place, generation by
//! generation.

use crate::cell::Cell;
use crate::grid::{lemma_index_in_range, lemma_step_cell, Grid};
use vstd::prelude::*;
use vstd::string::StringExecFns;

verus! {

/// A grid of fixed dimensions and the operations that read and advance it.
pub struct Universe {
    width: u32,
    height: u32,
    cells: Vec<Cell>,
}

impl View for Universe {
    type V = Grid;

    closed spec fn view(&self) -> Grid {
        Grid { width: self.width as nat, height: self.height as nat, cells: self.cells@ }
    }
}

impl Universe {
    /// Every universe holds a well-formed grid, from its construction on.
    #[verifier::type_invariant]
    spec fn inv(self) -> bool {
        self@.wf()
    }

    /// Builds the default universe: 64 rows of 64 cells in the initial
    /// pattern, in which the cell at linear index `i` is alive where
    /// `i` is even or a multiple of eleven.
    pub fn new() -> (universe: Universe)
        ensures
            universe@ == Grid::seeded(64, 64),
            universe@.wf(),
            forall|i: int|
                0 <= i < 64 * 64 ==> (#[trigger] universe@.cells[i] == Cell::Alive <==> i % 2 == 0
                    || i % 11 == 0),
    {
        Universe::seeded(64, 64).unwrap()
    }

    /// Builds a universe of the given dimensions in the initial pattern.
    /// There is none for an empty grid, one without rows or without columns,
    /// nor for one with more cells than this machine can address.
    pub fn seeded(width: u32, height: u32) -> (result: Option<Universe>)
        ensures
            result.is_some() <==> width >= 1 && height >= 1 && width * height <= usize::MAX,
            result matches Some(universe) ==> universe@ == Grid::seeded(width as nat, height as nat)
                && universe@.wf(),
    {
        assert(0 <= width * height <= u64::MAX) by (nonlinear_arith)
            requires
                0 <= width <= u32::MAX,
                0 <= height <= u32::MAX,
        ;
        let total: u64 = width as u64 * height as u64;
        if width == 0 || height == 0 || total > usize::MAX as u64 {
            return None;
        }
        let mut cells: Vec<Cell> = Vec::new();
        let mut i: usize = 0;
        while i < total as usize
            invariant
                i <= total <= usize::MAX,
                cells@.len() == i,
                forall|k: int| 0 <= k < i ==> cells@[k] == Grid::seed(k),
            decreases total - i,
        {
            cells.push(
                if i % 2 == 0 || i % 11 == 0 {
                    Cell::Alive
                } else {
                    Cell::Dead
                },
            );
            i += 1;
        }
        assert(cells@ =~= Grid::seeded(width as nat, height as nat).cells);
        Some(Universe { width, height, cells })
    }

    /// Builds a universe of the given dimensions from its cells, listed row
    /// by row. There is none for an empty grid, nor where the number of cells
    /// is not that of the positions.
    pub fn from_cells(width: u32, height: u32, cells: Vec<Cell>) -> (result: Option<Universe>)
        ensures
            result.is_some() <==> width >= 1 && height >= 1 && cells@.len() == width * height,
            result matches Some(universe) ==> universe@ == (Grid {
                width: width as nat,
                height: height as nat,
                cells: cells@,
            }) && universe@.wf(),
    {
        assert(0 <= width * height <= u64::MAX) by (nonlinear_arith)
            requires
                0 <= width <= u32::MAX,
                0 <= height <= u32::MAX,
        ;
        if width == 0 || height == 0 || cells.len() as u64 != width as u64 * height as u64 {
            return None;
        }
        Some(Universe { width, height, cells })
    }

    /// The number of columns, fixed at construction.
    pub fn width(&self) -> (width: u32)
        ensures
            width == self@.width,
            width >= 1,
            self@.wf(),
    {
        proof {
            use_type_invariant(self);
        }
        self.width
    }

    /// The number of rows, fixed at construction.
    pub fn height(&self) -> (height: u32)
        ensures
            height == self@.height,
            height >= 1,
            self@.wf(),
    {
        proof {
            use_type_invariant(self);
        }
        self.height
    }

    /// The cells row by row, for a renderer to read in place: one cell for
    /// each position of the grid, at the index that `get_index` gives.
    pub fn cells(&self) -> (cells: &[Cell])
        ensures
            cells@ == self@.cells,
            cells@.len() == self@.width * self@.height,
            self@.wf(),
    {
        proof {
            use_type_invariant(self);
        }
        self.cells.as_slice()
    }

    /// The place of the cell at `row` and `column` in the list of cells. The
    /// function does not wrap. For a row and a column inside the grid the
    /// result is the index of a cell.
    pub fn get_index(&self, row: u32, column: u32) -> (i: usize)
        requires
            self@.index(row as int, column as int) <= usize::MAX,
        ensures
            i == self@.index(row as int, column as int),
            row < self@.height && column < self@.width ==> i < self@.cells.len(),
    {
        proof {
            use_type_invariant(self);
            lemma_index_in_range(self@, row as int, column as int);
        }
        row as usize * self.width as usize + column as usize
    }

    /// Counts the live cells among the neighbours of the cell at `row` and
    /// `column`. The grid is a torus: a neighbour over an edge is the cell on
    /// the opposite edge. The step back along a dimension is taken as that
    /// dimension less one steps forward, so the sum is reduced modulo the
    /// dimension without ever being negative.
    pub fn live_neighbor_count(&self, row: u32, column: u32) -> (count: u8)
        ensures
            count == self@.neighbor_count(row as int, column as int),
            count <= 8,
    {
        proof {
            use_type_invariant(self);
        }
        assert(self.cells@.len() == self.cells.len());
        let row_offsets: [u32; 3] = [self.height - 1, 0, 1];
        let col_offsets: [u32; 3] = [self.width - 1, 0, 1];
        let mut count: u8 = 0;
        let mut i: usize = 0;
        while i < 3
            invariant
                i <= 3,
                self@.wf(),
                self.cells@.len() <= usize::MAX,
                forall|k: int| 0 <= k < 3 ==> row_offsets[k] == Grid::offset(self@.height, k),
                forall|k: int| 0 <= k < 3 ==> col_offsets[k] == Grid::offset(self@.width, k),
                count == rows_so_far(self@, row as int, column as int, i as int),
                count <= 3 * i - (if i >= 2 { 1int } else { 0int }),
            decreases 3 - i,
        {
            let mut j: usize = 0;
            while j < 3
                invariant
                    i < 3,
                    j <= 3,
                    self@.wf(),
                    self.cells@.len() <= usize::MAX,
                    forall|k: int| 0 <= k < 3 ==> row_offsets[k] == Grid::offset(self@.height, k),
                    forall|k: int| 0 <= k < 3 ==> col_offsets[k] == Grid::offset(self@.width, k),
                    count == rows_so_far(self@, row as int, column as int, i as int)
                        + row_so_far(self@, row as int, column as int, i as int, j as int),
                    count <= 3 * i + j - (if 3 * i + j > 4 { 1int } else { 0int }),
                decreases 3 - j,
            {
                let delta_row = row_offsets[i];
                let delta_col = col_offsets[j];
                let repeated = (i > 0 && delta_row == row_offsets[0]) || (j > 0 && delta_col
                    == col_offsets[0]);
                if !repeated && !(delta_row == 0 && delta_col == 0) {
                    let wrapped_row = (row as u64 + delta_row as u64) % (self.height as u64);
                    let wrapped_col = (column as u64 + delta_col as u64) % (self.width as u64);
                    let neighbor_row = wrapped_row as u32;
                    let neighbor_col = wrapped_col as u32;
                    proof {
                        lemma_index_in_range(self@, neighbor_row as int, neighbor_col as int);
                    }
                    let idx = self.get_index(neighbor_row, neighbor_col);
                    count += self.cells[idx].to_byte();
                }
                j += 1;
            }
            i += 1;
        }
        count
    }

    /// Advances the universe by one generation. The next grid is built
    /// apart from the current one, every cell from the current generation's
    /// states alone, and replaces it only when it is complete.
    pub fn tick(&mut self)
        ensures
            final(self)@ == old(self)@.step(),
            final(self)@.wf(),
    {
        proof {
            use_type_invariant(&*self);
        }
        assert(self.cells@.len() == self.cells.len());
        let mut next: Vec<Cell> = Vec::new();
        let mut row: u32 = 0;
        while row < self.height
            invariant
                row <= self.height,
                self@.wf(),
                self.cells@.len() <= usize::MAX,
                next@.len() == self@.index(row as int, 0),
                forall|k: int| 0 <= k < next@.len() ==> next@[k] == self@.step().cells[k],
            decreases self.height - row,
        {
            let mut col: u32 = 0;
            while col < self.width
                invariant
                    row < self.height,
                    col <= self.width,
                    self@.wf(),
                    self.cells@.len() <= usize::MAX,
                    next@.len() == self@.index(row as int, col as int),
                    forall|k: int| 0 <= k < next@.len() ==> next@[k] == self@.step().cells[k],
                decreases self.width - col,
            {
                proof {
                    lemma_index_in_range(self@, row as int, col as int);
                    lemma_step_cell(self@, row as int, col as int);
                }
                let idx = self.get_index(row, col);
                let cell = self.cells[idx];
                let live_neighbors = self.live_neighbor_count(row, col);
                next.push(cell.next_state(live_neighbors));
                col += 1;
            }
            assert(self@.index(row as int, self.width as int) == self@.index(row + 1, 0))
                by (nonlinear_arith)
                requires
                    self@.width == self.width,
            ;
            row += 1;
        }
        assert(next@ =~= self@.step().cells);
        self.cells = next;
    }

    /// Renders the grid as text: one line for each row from the top, one
    /// glyph for each cell of the row, and a newline after every row.
    pub fn render(&self) -> (text: String)
        ensures
            text@ == self@.render(),
    {
        proof {
            use_type_invariant(self);
        }
        assert(self.cells@.len() == self.cells.len());
        let mut text = String::new();
        let mut row: u32 = 0;
        while row < self.height
            invariant
                row <= self.height,
                self@.wf(),
                self.cells@.len() <= usize::MAX,
                text@ == self@.rows_text(row as nat),
            decreases self.height - row,
        {
            let ghost before = text@;
            let mut col: u32 = 0;
            while col < self.width
                invariant
                    row < self.height,
                    col <= self.width,
                    self@.wf(),
                    self.cells@.len() <= usize::MAX,
                    text@ == before + self@.row_text(row as int).take(col as int),
                decreases self.width - col,
            {
                proof {
                    lemma_index_in_range(self@, row as int, col as int);
                    reveal_strlit("\u{25FB}");
                    reveal_strlit("\u{25FC}");
                }
                let idx = self.get_index(row, col);
                match self.cells[idx] {
                    Cell::Dead => text.append("\u{25FB}"),
                    Cell::Alive => text.append("\u{25FC}"),
                }
                col += 1;
            }
            proof {
                reveal_strlit("\n");
            }
            text.append("\n");
            row += 1;
        }
        text
    }
}

/// What the first `i` row offsets add to the count of live neighbours.
spec fn rows_so_far(g: Grid, row: int, col: int, i: int) -> int {
    (if i > 0 {
        g.neighbor_row(row, col, 0)
    } else {
        0
    }) + (if i > 1 {
        g.neighbor_row(row, col, 1)
    } else {
        0
    }) + (if i > 2 {
        g.neighbor_row(row, col, 2)
    } else {
        0
    })
}

/// What the first `j` column offsets add under the `i`-th row offset.
spec fn row_so_far(g: Grid, row: int, col: int, i: int, j: int) -> int {
    (if j > 0 {
        g.neighbor(row, col, i, 0)
    } else {
        0
    }) + (if j > 1 {
        g.neighbor(row, col, i, 1)
    } else {
        0
    }) + (if j > 2 {
        g.neighbor(row, col, i, 2)
    } else {
        0
    })
}

} // verus!
