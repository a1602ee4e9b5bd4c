//! The guarantees the simulator gives, stated and proved once over the
//! model: the generation rule's four regimes, the boundary behavior of the
//! neighbor count, and the determinism of the seed.

use vstd::prelude::*;

use crate::model::{
    alive_at,
    cell_score,
    glyph,
    grid_wf,
    initial_grid,
    lemma_flat_index_bound,
    lemma_render_char_at,
    neighbor_count,
    next_cell,
    next_grid,
    render_char,
    Cell,
    GridModel,
};
use crate::universe::Universe;

verus! {

/// Snapshot consistency: the state a cell takes in the next generation is
/// a pure function of the pre-tick grid alone — its own pre-tick state and
/// its pre-tick neighbor count, both read from the frozen snapshot, with
/// the dimensions and the buffer length unchanged.
pub proof fn lemma_snapshot_consistency(g: GridModel, i: int)
    requires
        grid_wf(g),
        0 <= i < g.cells.len(),
    ensures
        next_grid(g).width == g.width,
        next_grid(g).height == g.height,
        next_grid(g).cells.len() == g.cells.len(),
        next_grid(g).cells[i] == next_cell(
            g.cells[i],
            neighbor_count(g, i % g.width as int, i / g.width as int),
        ),
{
}

/// Render shape: in a rendered text of `height * (width + 1)` characters
/// whose position `k` holds `render_char`, row `y` occupies positions
/// `y * (width + 1)` to `y * (width + 1) + width`: its first `width`
/// characters are the glyphs of that grid row's cells, in order, and the
/// character after them is the terminating newline.
pub proof fn lemma_render_shape(g: GridModel, s: Seq<char>, x: int, y: int)
    requires
        grid_wf(g),
        s.len() == g.height * (g.width + 1),
        forall|k: int| 0 <= k < s.len() ==> s[k] == render_char(g, k),
        0 <= y < g.height,
        0 <= x <= g.width,
    ensures
        0 <= y * (g.width + 1) + x < s.len(),
        s[y * (g.width + 1) + x] == (if x == g.width {
            '\n'
        } else {
            glyph(g.cells[y * g.width + x])
        }),
{
    lemma_render_char_at(g, x, y);
    lemma_flat_index_bound(x, y, g.width as int + 1, g.height as int);
    assert((g.width as int + 1) * (g.height as int) == g.height * (g.width + 1))
        by (nonlinear_arith);
}

/// Determinism of construction: any two universes that hold the seeded
/// grid agree on their dimensions and on every cell of their buffers.
pub proof fn lemma_new_deterministic(a: &Universe, b: &Universe)
    requires
        a@ == initial_grid(),
        b@ == initial_grid(),
    ensures
        a@.width == b@.width,
        a@.height == b@.height,
        a@.cells == b@.cells,
{
}

/// Interior neighbor count: for a cell whose full 3 x 3 block lies inside
/// the grid, the count is exactly the sum of the states of its 8 neighbors,
/// each taken as an integer (Dead = 0, Alive = 1).
pub proof fn lemma_interior_neighbor_count(g: GridModel, x: int, y: int)
    requires
        grid_wf(g),
        1 <= x,
        x + 1 < g.width,
        1 <= y,
        y + 1 < g.height,
    ensures
        neighbor_count(g, x, y) == cell_score(g.cells[(y - 1) * g.width + (x - 1)]) + cell_score(
            g.cells[(y - 1) * g.width + x],
        ) + cell_score(g.cells[(y - 1) * g.width + (x + 1)]) + cell_score(
            g.cells[y * g.width + (x - 1)],
        ) + cell_score(g.cells[y * g.width + (x + 1)]) + cell_score(
            g.cells[(y + 1) * g.width + (x - 1)],
        ) + cell_score(g.cells[(y + 1) * g.width + x]) + cell_score(
            g.cells[(y + 1) * g.width + (x + 1)],
        ),
{
}

/// Corner clamp: the corner cell (0, 0) has only the three candidates to
/// its right, below it, and diagonally below-right; positions off the grid
/// contribute nothing, so the count never wraps to the far corner and never
/// exceeds 3.
pub proof fn lemma_corner_clamp(g: GridModel)
    requires
        grid_wf(g),
    ensures
        neighbor_count(g, 0, 0) == alive_at(g, 1, 0) + alive_at(g, 0, 1) + alive_at(g, 1, 1),
        neighbor_count(g, 0, 0) <= 3,
{
}

/// Underpopulation: an Alive cell with 0 or 1 live neighbors dies.
pub proof fn lemma_underpopulation(n: int)
    requires
        0 <= n <= 1,
    ensures
        next_cell(Cell::Alive, n) is Dead,
{
}

/// Survival: an Alive cell with exactly 2 or 3 live neighbors stays Alive.
pub proof fn lemma_survival(n: int)
    requires
        2 <= n <= 3,
    ensures
        next_cell(Cell::Alive, n) is Alive,
{
}

/// Overpopulation: an Alive cell with 4 or more live neighbors dies.
pub proof fn lemma_overpopulation(n: int)
    requires
        n >= 4,
    ensures
        next_cell(Cell::Alive, n) is Dead,
{
}

/// Birth: a Dead cell comes Alive exactly with 3 live neighbors; with any
/// other count it stays Dead.
pub proof fn lemma_birth(n: int)
    ensures
        next_cell(Cell::Dead, n) == (if n == 3 {
            Cell::Alive
        } else {
            Cell::Dead
        }),
{
}

} // verus!
