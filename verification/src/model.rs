//! Mathematical model of a Game of Life grid: the cell state, the view of a
//! universe, the clamped-edge neighbor count, the generation rule, and the
//! deterministic seed pattern.

use vstd::prelude::*;

verus! {

/// State of one grid cell.
#[derive(Copy, Clone, Debug, PartialEq, Eq, Structural)]
pub enum Cell {
    /// The cell is dead.
    Dead,
    /// The cell is alive.
    Alive,
}

/// Abstract value of a universe: its dimensions and the row-major cell
/// buffer. The cell at column `x` of row `y` sits at flat index
/// `y * width + x`.
#[verifier::ext_equal]
pub struct GridModel {
    /// Number of columns.
    pub width: nat,
    /// Number of rows.
    pub height: nat,
    /// Flat row-major cell buffer of length `width * height`.
    pub cells: Seq<Cell>,
}

/// A grid is well formed when both dimensions are positive, the flat index
/// arithmetic fits in `u32`, and the buffer holds exactly one cell per
/// position.
pub open spec fn grid_wf(g: GridModel) -> bool {
    &&& 0 < g.width
    &&& 0 < g.height
    &&& g.width * g.height <= u32::MAX
    &&& g.cells.len() == g.width * g.height
}

/// A cell counted as an integer: 1 for Alive, 0 for Dead.
pub open spec fn cell_score(c: Cell) -> int {
    if c is Alive {
        1
    } else {
        0
    }
}

/// 1 when position `(x, y)` lies inside the grid and holds an Alive cell,
/// else 0. Positions outside the grid contribute nothing; this is the
/// clamped-edge (non-wrapping) boundary rule.
pub open spec fn alive_at(g: GridModel, x: int, y: int) -> int {
    if 0 <= x < g.width && 0 <= y < g.height && g.cells[y * g.width + x] is Alive {
        1
    } else {
        0
    }
}

/// Number of Alive cells among the up-to-8 Moore neighbors of `(x, y)`. The
/// cell itself is excluded, and candidates that fall outside the grid are
/// absent rather than wrapped to the opposite edge, so a corner cell has at
/// most 3 live neighbors and a non-corner edge cell at most 5.
pub open spec fn neighbor_count(g: GridModel, x: int, y: int) -> int {
    alive_at(g, x - 1, y - 1) + alive_at(g, x, y - 1) + alive_at(g, x + 1, y - 1) + alive_at(
        g,
        x - 1,
        y,
    ) + alive_at(g, x + 1, y) + alive_at(g, x - 1, y + 1) + alive_at(g, x, y + 1) + alive_at(
        g,
        x + 1,
        y + 1,
    )
}

/// The generation rule: next state of a cell from its current state and its
/// live-neighbor count. An Alive cell survives exactly with 2 or 3 live
/// neighbors (fewer is underpopulation, more is overpopulation); a Dead cell
/// is born exactly with 3.
pub open spec fn next_cell(c: Cell, n: int) -> Cell {
    match c {
        Cell::Alive => if 2 <= n <= 3 {
            Cell::Alive
        } else {
            Cell::Dead
        },
        Cell::Dead => if n == 3 {
            Cell::Alive
        } else {
            Cell::Dead
        },
    }
}

/// The grid one generation later: the same dimensions, and every cell the
/// rule applied to that cell's pre-tick state and pre-tick neighbor count.
/// The whole next buffer is a function of the frozen previous grid alone.
pub open spec fn next_grid(g: GridModel) -> GridModel {
    GridModel {
        width: g.width,
        height: g.height,
        cells: Seq::new(
            g.cells.len(),
            |i: int|
                next_cell(
                    g.cells[i],
                    neighbor_count(g, i % g.width as int, i / g.width as int),
                ),
        ),
    }
}

/// Seed rule for the initial pattern: the cell at flat index `i` is Alive
/// when `i` is even or divisible by 7.
pub open spec fn seed_cell(i: int) -> Cell {
    if i % 2 == 0 || i % 7 == 0 {
        Cell::Alive
    } else {
        Cell::Dead
    }
}

/// The 64 x 64 grid that `Universe::new` builds: every cell follows the seed
/// rule.
pub open spec fn initial_grid() -> GridModel {
    GridModel { width: 64, height: 64, cells: Seq::new(4096, |i: int| seed_cell(i)) }
}

/// Glyph used by `render`: a hollow square for Dead, a filled square for
/// Alive.
pub open spec fn glyph(c: Cell) -> char {
    if c is Dead {
        '◻'
    } else {
        '◼'
    }
}

/// Character at position `k` of the rendered text. Each row occupies
/// `width + 1` characters: `width` glyphs followed by a newline, in
/// row-major order.
pub open spec fn render_char(g: GridModel, k: int) -> char {
    let row = k / (g.width + 1) as int;
    let col = k % (g.width + 1) as int;
    if col == g.width {
        '\n'
    } else {
        glyph(g.cells[row * g.width + col])
    }
}

/// Row-major indexing stays inside the buffer: for in-range coordinates,
/// `y * w + x` lies below `w * h`.
pub proof fn lemma_flat_index_bound(x: int, y: int, w: int, h: int)
    by (nonlinear_arith)
    requires
        0 <= x < w,
        0 <= y < h,
    ensures
        0 <= y * w + x < w * h,
{
}

/// The rendered character at offset `x` of row `y`: the glyph of the cell
/// at `(x, y)` for `x < width`, and the newline at `x == width`.
pub proof fn lemma_render_char_at(g: GridModel, x: int, y: int)
    requires
        0 <= y,
        0 <= x <= g.width,
    ensures
        render_char(g, y * (g.width + 1) + x) == (if x == g.width {
            '\n'
        } else {
            glyph(g.cells[y * g.width + x])
        }),
{
    vstd::arithmetic::div_mod::lemma_fundamental_div_mod_converse(
        y * (g.width + 1) + x,
        (g.width + 1) as int,
        y,
        x,
    );
}

/// Splitting a flat index `i` into `(i % w, i / w)` lands on in-range
/// coordinates whose row-major index is `i` again.
pub proof fn lemma_flat_index_split(i: int, w: int, h: int)
    by (nonlinear_arith)
    requires
        0 < w,
        0 <= i < w * h,
    ensures
        0 <= i % w < w,
        0 <= i / w < h,
        (i / w) * w + (i % w) == i,
{
}

} // verus!
