//! The executable simulator: a `Universe` holds the grid and advances it one
//! generation per `tick`.

use vstd::prelude::*;

use crate::model::{
    alive_at,
    cell_score,
    grid_wf,
    initial_grid,
    lemma_flat_index_bound,
    lemma_flat_index_split,
    lemma_render_char_at,
    neighbor_count,
    next_cell,
    next_grid,
    render_char,
    seed_cell,
    Cell,
    GridModel,
};
use vstd::string::StringExecFns;

verus! {

/// A fixed-size Game of Life grid: dimensions set at construction and a flat
/// row-major cell buffer of length `width * height`.
#[derive(Debug, PartialEq, Eq)]
pub struct Universe {
    width: u32,
    height: u32,
    cells: Vec<Cell>,
}

impl View for Universe {
    type V = GridModel;

    closed spec fn view(&self) -> GridModel {
        GridModel { width: self.width as nat, height: self.height as nat, cells: self.cells@ }
    }
}

impl Universe {
    /// The universe is well formed: positive dimensions, index arithmetic
    /// that fits in `u32`, and one buffered cell per grid position.
    pub open spec fn well_formed(&self) -> bool {
        grid_wf(self@)
    }

    /// Flat row-major index of the cell at column `x` of row `y`. Pure
    /// arithmetic; callers must pass in-range coordinates.
    pub fn index(&self, x: u32, y: u32) -> (i: usize)
        requires
            self.well_formed(),
            x < self@.width,
            y < self@.height,
        ensures
            i == y * self@.width + x,
            i < self@.cells.len(),
    {
        proof {
            lemma_flat_index_bound(x as int, y as int, self@.width as int, self@.height as int);
        }
        ((y * self.width) + x) as usize
    }

    /// Builds the deterministically seeded 64 x 64 universe: the cell at
    /// flat index `i` is Alive when `i` is even or divisible by 7.
    pub fn new() -> (u: Universe)
        ensures
            u.well_formed(),
            u@ == initial_grid(),
    {
        let width: u32 = 64;
        let height: u32 = 64;
        let mut cells: Vec<Cell> = Vec::new();
        let mut i: u32 = 0;
        while i < 4096
            invariant
                i <= 4096,
                cells@.len() == i,
                forall|j: int| 0 <= j < i ==> cells@[j] == seed_cell(j),
            decreases 4096 - i,
        {
            if i % 2 == 0 || i % 7 == 0 {
                cells.push(Cell::Alive);
            } else {
                cells.push(Cell::Dead);
            }
            i = i + 1;
        }
        let u = Universe { width, height, cells };
        proof {
            assert(u@ =~= initial_grid());
        }
        u
    }

    /// Grid width in columns.
    pub fn width(&self) -> (w: u32)
        ensures
            w == self@.width,
    {
        self.width
    }

    /// Grid height in rows.
    pub fn height(&self) -> (h: u32)
        ensures
            h == self@.height,
    {
        self.height
    }

    /// The cell at column `x` of row `y`.
    pub fn get_cell(&self, x: u32, y: u32) -> (c: Cell)
        requires
            self.well_formed(),
            x < self@.width,
            y < self@.height,
        ensures
            c == self@.cells[y * self@.width + x],
    {
        let i = self.index(x, y);
        self.cells[i]
    }

    /// Contribution of the in-bounds position `(x, y)` to a neighbor count:
    /// 1 for an Alive cell, 0 for a Dead one.
    fn score_at(&self, x: u32, y: u32) -> (s: u32)
        requires
            self.well_formed(),
            x < self@.width,
            y < self@.height,
        ensures
            s == alive_at(self@, x as int, y as int),
            s == cell_score(self@.cells[y * self@.width + x]),
    {
        let i = self.index(x, y);
        match self.cells[i] {
            Cell::Alive => 1,
            Cell::Dead => 0,
        }
    }

    /// Number of Alive cells among the up-to-8 immediate (Moore) neighbors
    /// of `(x, y)`, with clamped edges: candidates outside the grid are
    /// skipped, never wrapped to the opposite side, and the cell itself is
    /// not counted.
    pub fn live_neighbor_count(&self, x: u32, y: u32) -> (n: u32)
        requires
            self.well_formed(),
            x < self@.width,
            y < self@.height,
        ensures
            n == neighbor_count(self@, x as int, y as int),
            n <= 8,
    {
        let w = self.width;
        let h = self.height;
        let mut n: u32 = 0;
        if x > 0 && y > 0 {
            n = n + self.score_at(x - 1, y - 1);
        }
        if y > 0 {
            n = n + self.score_at(x, y - 1);
        }
        if x + 1 < w && y > 0 {
            n = n + self.score_at(x + 1, y - 1);
        }
        if x > 0 {
            n = n + self.score_at(x - 1, y);
        }
        if x + 1 < w {
            n = n + self.score_at(x + 1, y);
        }
        if x > 0 && y + 1 < h {
            n = n + self.score_at(x - 1, y + 1);
        }
        if y + 1 < h {
            n = n + self.score_at(x, y + 1);
        }
        if x + 1 < w && y + 1 < h {
            n = n + self.score_at(x + 1, y + 1);
        }
        n
    }

    /// Builds a universe from explicit dimensions and a cell buffer, for
    /// patterns other than the seeded one. Rejects a zero-sized grid, a grid
    /// whose index arithmetic would not fit in `u32`, and a buffer whose
    /// length does not match the dimensions.
    pub fn from_cells(width: u32, height: u32, cells: Vec<Cell>) -> (r: Option<Universe>)
        ensures
            match r {
                Some(u) => {
                    &&& u.well_formed()
                    &&& u@.width == width
                    &&& u@.height == height
                    &&& u@.cells == cells@
                },
                None => {
                    ||| width == 0
                    ||| height == 0
                    ||| width * height > u32::MAX
                    ||| cells@.len() != width * height
                },
            },
    {
        if width == 0 || height == 0 {
            return None;
        }
        proof {
            assert((width as int) * (height as int) <= u64::MAX) by (nonlinear_arith)
                requires
                    width <= u32::MAX,
                    height <= u32::MAX,
            ;
        }
        let area: u64 = (width as u64) * (height as u64);
        if area > u32::MAX as u64 {
            return None;
        }
        if cells.len() != area as usize {
            return None;
        }
        Some(Universe { width, height, cells })
    }

    /// Applies the generation rule to one cell: Alive survives exactly with
    /// 2 or 3 live neighbors, Dead is born exactly with 3; every other
    /// combination yields a Dead cell for Alive and leaves Dead unchanged.
    pub fn next_cell_state(c: Cell, n: u32) -> (r: Cell)
        ensures
            r == next_cell(c, n as int),
    {
        match c {
            Cell::Alive => {
                if n < 2 {
                    Cell::Dead
                } else if n <= 3 {
                    Cell::Alive
                } else {
                    Cell::Dead
                }
            },
            Cell::Dead => {
                if n == 3 {
                    Cell::Alive
                } else {
                    Cell::Dead
                }
            },
        }
    }

    /// Advances the grid by one generation. Every neighbor count is taken
    /// against the frozen pre-tick buffer, and the whole next-generation
    /// buffer replaces the old one at once, so the new state of each cell is
    /// a pure function of the pre-tick grid.
    pub fn tick(&mut self)
        requires
            old(self).well_formed(),
        ensures
            final(self).well_formed(),
            final(self)@ == next_grid(old(self)@),
    {
        let w = self.width;
        let len: u32 = self.cells.len() as u32;
        proof {
            assert(len == self@.width * self@.height);
        }
        let mut next: Vec<Cell> = Vec::new();
        let mut i: u32 = 0;
        while i < len
            invariant
                self.well_formed(),
                w == self@.width,
                len == self@.cells.len(),
                i <= len,
                next@.len() == i,
                forall|j: int|
                    0 <= j < i ==> next@[j] == next_cell(
                        self@.cells[j],
                        neighbor_count(self@, j % self@.width as int, j / self@.width as int),
                    ),
            decreases len - i,
        {
            let x = i % w;
            let y = i / w;
            proof {
                lemma_flat_index_split(i as int, self@.width as int, self@.height as int);
            }
            let cur = self.cells[i as usize];
            let count = self.live_neighbor_count(x, y);
            next.push(Self::next_cell_state(cur, count));
            i = i + 1;
        }
        proof {
            assert(next@ =~= next_grid(self@).cells);
        }
        self.cells = next;
        proof {
            assert(self@ =~= next_grid(old(self)@));
        }
    }

    /// Renders the grid as text: `height` lines in row-major order, each of
    /// exactly `width` glyphs followed by a newline, with a hollow square
    /// for a Dead cell and a filled square for an Alive one.
    pub fn render(&self) -> (r: String)
        requires
            self.well_formed(),
        ensures
            r@.len() == self@.height * (self@.width + 1),
            forall|k: int| 0 <= k < r@.len() ==> r@[k] == render_char(self@, k),
    {
        let mut s = String::new();
        let mut y: u32 = 0;
        while y < self.height
            invariant
                self.well_formed(),
                y <= self@.height,
                s@.len() == y * (self@.width + 1),
                forall|k: int| 0 <= k < s@.len() ==> s@[k] == render_char(self@, k),
            decreases self@.height - y,
        {
            let mut x: u32 = 0;
            while x < self.width
                invariant
                    self.well_formed(),
                    y < self@.height,
                    x <= self@.width,
                    s@.len() == y * (self@.width + 1) + x,
                    forall|k: int| 0 <= k < s@.len() ==> s@[k] == render_char(self@, k),
                decreases self@.width - x,
            {
                let c = self.get_cell(x, y);
                proof {
                    reveal_strlit("◻");
                    reveal_strlit("◼");
                    lemma_render_char_at(self@, x as int, y as int);
                }
                match c {
                    Cell::Dead => s.append("◻"),
                    Cell::Alive => s.append("◼"),
                }
                x = x + 1;
            }
            proof {
                reveal_strlit("\n");
                lemma_render_char_at(self@, self@.width as int, y as int);
                assert((y + 1) * (self@.width + 1) == y * (self@.width + 1) + (self@.width + 1))
                    by (nonlinear_arith);
            }
            s.append("\n");
            y = y + 1;
        }
        s
    }
}

} // verus!
