//! What holds of every grid and of every generation, proved over the model.

use crate::cell::Cell;
use crate::grid::{lemma_position_of_index, lemma_step_cell, Grid};
use vstd::arithmetic::div_mod::{
    lemma_fundamental_div_mod, lemma_fundamental_div_mod_converse, lemma_mod_add_multiples_vanish,
    lemma_mod_pos_bound, lemma_small_mod,
};
use vstd::prelude::*;

verus! {

/// A step keeps the dimensions: the next generation of a well-formed grid is
/// a well-formed grid of the same width and height.
pub proof fn law_step_keeps_dimensions(g: Grid)
    requires
        g.wf(),
    ensures
        g.step().wf(),
        g.step().width == g.width,
        g.step().height == g.height,
        g.step().cells.len() == g.width * g.height,
{
}

/// After any number of steps a well-formed grid is a well-formed grid of the
/// same width and height, with one cell for each position.
pub proof fn law_generations_keep_dimensions(g: Grid, n: nat)
    requires
        g.wf(),
    ensures
        g.after(n).wf(),
        g.after(n).width == g.width,
        g.after(n).height == g.height,
        g.after(n).cells.len() == g.width * g.height,
    decreases n,
{
    if n > 0 {
        law_generations_keep_dimensions(g, (n - 1) as nat);
        law_step_keeps_dimensions(g.after((n - 1) as nat));
    }
}

/// The initial pattern of a grid with at least one row and one column is a
/// well-formed grid, and its cell at linear index `i` is alive exactly where
/// `i` is even or a multiple of eleven.
pub proof fn law_seeding(width: nat, height: nat)
    requires
        width >= 1,
        height >= 1,
    ensures
        Grid::seeded(width, height).wf(),
        forall|i: int|
            0 <= i < width * height ==> (#[trigger] Grid::seeded(width, height).cells[i]
                == Cell::Alive <==> i % 2 == 0 || i % 11 == 0),
{
}

/// Nothing but the dimensions and the cells decides the future: two grids of
/// the same dimensions whose cells stand for the same bytes, as two initial
/// patterns of the same dimensions do, are the same grid after any equal
/// number of steps, byte for byte.
pub proof fn law_determinism(a: Grid, b: Grid, n: nat)
    requires
        a.width == b.width,
        a.height == b.height,
        a.cells.len() == b.cells.len(),
        forall|i: int| 0 <= i < a.cells.len() ==> a.cells[i].byte() == b.cells[i].byte(),
    ensures
        a.after(n) == b.after(n),
        a.after(n).cells.len() == b.after(n).cells.len(),
        forall|i: int|
            0 <= i < a.after(n).cells.len() ==> a.after(n).cells[i].byte() == b.after(
                n,
            ).cells[i].byte(),
{
    assert(a.cells =~= b.cells);
}

/// A live cell with fewer than two live neighbours is dead in the next
/// generation, and so is a live cell with more than three.
pub proof fn law_lonely_and_crowded_cells_die(g: Grid, row: int, col: int)
    requires
        g.wf(),
        0 <= row < g.height,
        0 <= col < g.width,
        g.cell(row, col) == Cell::Alive,
        g.neighbor_count(row, col) < 2 || g.neighbor_count(row, col) > 3,
    ensures
        g.step().cell(row, col) == Cell::Dead,
{
    lemma_step_cell(g, row, col);
}

/// A live cell with two or three live neighbours is alive in the next
/// generation.
pub proof fn law_survival(g: Grid, row: int, col: int)
    requires
        g.wf(),
        0 <= row < g.height,
        0 <= col < g.width,
        g.cell(row, col) == Cell::Alive,
        g.neighbor_count(row, col) == 2 || g.neighbor_count(row, col) == 3,
    ensures
        g.step().cell(row, col) == Cell::Alive,
{
    lemma_step_cell(g, row, col);
}

/// A dead cell is alive in the next generation exactly when it has three
/// live neighbours: with two or four, as with any other count, it stays
/// dead.
pub proof fn law_birth(g: Grid, row: int, col: int)
    requires
        g.wf(),
        0 <= row < g.height,
        0 <= col < g.width,
        g.cell(row, col) == Cell::Dead,
    ensures
        g.neighbor_count(row, col) == 3 ==> g.step().cell(row, col) == Cell::Alive,
        g.neighbor_count(row, col) != 3 ==> g.step().cell(row, col) == Cell::Dead,
{
    lemma_step_cell(g, row, col);
}

/// A still life is its own next generation: where every cell is at rest,
/// which is where every live cell has two or three live neighbours and no
/// dead cell has three, a step changes nothing, and neither does any number
/// of steps.
pub proof fn law_still_life(g: Grid, n: nat)
    requires
        g.wf(),
        forall|row: int, col: int|
            0 <= row < g.height && 0 <= col < g.width ==> #[trigger] g.at_rest(row, col),
    ensures
        g.step() == g,
        g.after(n) == g,
    decreases n,
{
    assert forall|i: int| 0 <= i < g.cells.len() implies g.step().cells[i] == g.cells[i] by {
        lemma_position_of_index(g, i);
        assert(g.at_rest(i / (g.width as int), i % (g.width as int)));
    }
    assert(g.step().cells =~= g.cells);
    if n > 0 {
        law_still_life(g, (n - 1) as nat);
    }
}

/// Every count of live neighbours lies between none and eight.
pub proof fn law_neighbor_count_bounds(g: Grid, row: int, col: int)
    ensures
        0 <= g.neighbor_count(row, col) <= 8,
{
}

/// The offsets along a dimension form a set: every one of the three offsets
/// has the value of an offset that is counted, and no two counted offsets
/// have the same value. So each distinct offset is taken exactly once, also
/// where the dimension has only one or two cells.
pub proof fn law_offsets_are_taken_once(n: nat, k: int, m: int)
    requires
        n >= 1,
        0 <= k < 3,
        0 <= m < 3,
    ensures
        exists|first: int|
            0 <= first < 3 && #[trigger] Grid::counted(n, first) && Grid::offset(n, first)
                == Grid::offset(n, k),
        Grid::counted(n, k) && Grid::counted(n, m) && k != m ==> Grid::offset(n, k)
            != Grid::offset(n, m),
        n >= 3 ==> Grid::counted(n, k),
{
    if !Grid::counted(n, k) {
        assert(Grid::counted(n, 0) && Grid::offset(n, 0) == Grid::offset(n, k));
    }
}

/// The step back along a dimension of `n` cells, taken as `n - 1` steps
/// forward, leads to the position before, and from the first position around
/// the edge to the last; the sum that is reduced modulo `n` is never
/// negative.
pub proof fn law_step_back_wraps(n: int, position: int)
    requires
        n >= 1,
        position >= 0,
    ensures
        position + (n - 1) >= 0,
        (position + (n - 1)) % n == (position - 1) % n,
        (position + (n - 1)) % n == (if position % n == 0 {
            n - 1
        } else {
            position % n - 1
        }),
{
    let q = position / n;
    let p = position % n;
    lemma_fundamental_div_mod(position, n);
    lemma_mod_pos_bound(position, n);
    lemma_mod_add_multiples_vanish(position - 1, n);
    if p == 0 {
        assert(position + (n - 1) == q * n + (n - 1)) by (nonlinear_arith)
            requires
                position == n * q + p,
                p == 0,
        ;
        lemma_fundamental_div_mod_converse(position + (n - 1), n, q, n - 1);
    } else {
        assert(position + (n - 1) == (q + 1) * n + (p - 1)) by (nonlinear_arith)
            requires
                position == n * q + p,
        ;
        lemma_fundamental_div_mod_converse(position + (n - 1), n, q + 1, p - 1);
    }
}

/// On a grid of at least three rows and three columns the count of live
/// neighbours is the number of live cells among the eight cells around the
/// position: those one row up or down, one column left or right, or both,
/// where a step over an edge comes back in on the opposite edge.
pub proof fn law_moore_neighborhood(g: Grid, row: int, col: int)
    requires
        g.wf(),
        g.width >= 3,
        g.height >= 3,
        0 <= row < g.height,
        0 <= col < g.width,
    ensures
        ({
            let h = g.height as int;
            let w = g.width as int;
            let up = (row - 1) % h;
            let down = (row + 1) % h;
            let left = (col - 1) % w;
            let right = (col + 1) % w;
            g.neighbor_count(row, col) == g.cell(up, left).byte() + g.cell(up, col).byte() + g.cell(
                up,
                right,
            ).byte() + g.cell(row, left).byte() + g.cell(row, right).byte() + g.cell(
                down,
                left,
            ).byte() + g.cell(down, col).byte() + g.cell(down, right).byte()
        }),
{
    let h = g.height as int;
    let w = g.width as int;
    law_step_back_wraps(h, row);
    law_step_back_wraps(w, col);
    lemma_small_mod(row as nat, h as nat);
    lemma_small_mod(col as nat, w as nat);
}

/// On the torus the corners of the grid touch: where the four corners are
/// alive and every other cell is dead, the corner at the top left has three
/// live neighbours. In a grid of two rows and two columns these are the other
/// three cells, each counted once.
pub proof fn law_corners_are_neighbors(g: Grid)
    requires
        g.wf(),
        forall|row: int, col: int|
            0 <= row < g.height && 0 <= col < g.width ==> (#[trigger] g.cell(row, col)
                == Cell::Alive <==> (row == 0 || row == g.height - 1) && (col == 0 || col
                == g.width - 1)),
    ensures
        g.neighbor_count(0, 0) == 3,
{
    let h = g.height as int;
    let w = g.width as int;
    lemma_wrapped_offsets(h);
    lemma_wrapped_offsets(w);
}

/// Where the three offsets lead from position 0 along a dimension of `n`
/// cells: to the last position, to position 0 itself, and to position 1 or,
/// in a dimension of a single cell, back to position 0.
proof fn lemma_wrapped_offsets(n: int)
    requires
        n >= 1,
    ensures
        (0 + (n - 1)) % n == n - 1,
        (0int + 0) % n == 0,
        (0int + 1) % n == (if n == 1 {
            0int
        } else {
            1int
        }),
{
    lemma_small_mod((n - 1) as nat, n as nat);
    lemma_small_mod(0, n as nat);
    if n > 1 {
        lemma_small_mod(1, n as nat);
    }
}

/// The text rendering has one line for each row, each of one glyph for each
/// cell and a newline.
pub proof fn law_render_length(g: Grid)
    ensures
        g.render().len() == g.height * (g.width + 1),
{
    lemma_rows_text_len(g, g.height);
}

/// The text rendering shows the cells as they are: the character at column
/// `col` of line `row` is the glyph of the cell at that row and column, which
/// is the glyph of a dead cell exactly where the cell's byte is 0, and each
/// line ends with a newline.
pub proof fn law_render_shows_cells(g: Grid, row: int, col: int)
    requires
        0 <= row < g.height,
        0 <= col < g.width,
    ensures
        0 <= row * (g.width + 1) + col < row * (g.width + 1) + g.width < g.render().len(),
        g.render()[row * (g.width + 1) + col] == g.cell(row, col).glyph(),
        g.render()[row * (g.width + 1) + col] == Cell::Dead.glyph() <==> g.cell(row, col).byte()
            == 0,
        g.render()[row * (g.width + 1) + g.width] == '\n',
{
    lemma_rows_text_index(g, g.height, row, col);
    lemma_rows_text_index(g, g.height, row, g.width as int);
}

/// The first `n` rows take `n` lines of the width and a newline.
proof fn lemma_rows_text_len(g: Grid, n: nat)
    ensures
        g.rows_text(n).len() == n * (g.width + 1),
    decreases n,
{
    if n > 0 {
        lemma_rows_text_len(g, (n - 1) as nat);
        assert((n - 1) * (g.width + 1) + (g.width + 1) == n * (g.width + 1))
            by (nonlinear_arith);
    }
}

/// In the text of the first `n` rows, the character at place `k` of line
/// `row` is the one at place `k` of that row's own text.
proof fn lemma_rows_text_index(g: Grid, n: nat, row: int, k: int)
    requires
        0 <= row < n,
        0 <= k <= g.width,
    ensures
        0 <= row * (g.width + 1) + k < g.rows_text(n).len(),
        g.rows_text(n)[row * (g.width + 1) + k] == g.row_text(row)[k],
    decreases n,
{
    lemma_rows_text_len(g, n);
    lemma_rows_text_len(g, (n - 1) as nat);
    if row < n - 1 {
        lemma_rows_text_index(g, (n - 1) as nat, row, k);
    }
}

} // verus!
