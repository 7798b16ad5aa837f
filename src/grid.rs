use vstd::prelude::*;

use crate::error::EngineError;
use crate::rule::{
    all_dead, alive_at, in_bounds, lemma_cell_index, lemma_index_cell, live_neighbors, stepped,
    toggled,
};

verus! {

/// The largest number of columns, and of rows, that a grid may have.
pub const MAX_DIMENSION: u32 = 8192;

/// Whether a grid of `w` columns and `h` rows can be allocated.
pub open spec fn valid_dimensions(w: int, h: int) -> bool {
    1 <= w <= MAX_DIMENSION && 1 <= h <= MAX_DIMENSION
}

/// A grid of valid dimensions has at most `MAX_DIMENSION * MAX_DIMENSION`
/// cells, a number that fits in a `usize`.
proof fn lemma_cells_fit(w: int, h: int)
    requires
        valid_dimensions(w, h),
    ensures
        w * h <= MAX_DIMENSION * MAX_DIMENSION,
        MAX_DIMENSION * MAX_DIMENSION <= usize::MAX,
{
    assert(w * h <= MAX_DIMENSION * MAX_DIMENSION) by (nonlinear_arith)
        requires
            valid_dimensions(w, h),
    ;
}

/// Names one of the two cell buffers of a grid.
enum Board {
    A,
    B,
}

/// The cells of the simulation, held twice: the active buffer is the
/// present generation, the other is scratch space that the next operation
/// overwrites before the two trade places.
///
/// Its view is the active buffer, in row-major order, `true` for a live cell.
pub struct Grid {
    board_a: Vec<bool>,
    board_b: Vec<bool>,
    active: Board,
    width: u32,
    height: u32,
}

impl View for Grid {
    type V = Seq<bool>;

    closed spec fn view(&self) -> Seq<bool> {
        match self.active {
            Board::A => self.board_a@,
            Board::B => self.board_b@,
        }
    }
}

/// Whether the cell `(x, y)` of a `w` by `h` buffer is alive; a position
/// outside the grid is dead.
fn alive(cells: &Vec<bool>, w: u32, h: u32, x: i64, y: i64) -> (r: bool)
    requires
        valid_dimensions(w as int, h as int),
        cells@.len() == w * h,
    ensures
        r == alive_at(cells@, w as int, h as int, x as int, y as int),
{
    if 0 <= x && x < w as i64 && 0 <= y && y < h as i64 {
        proof {
            lemma_cell_index(w as int, h as int, x as int, y as int);
            lemma_cells_fit(w as int, h as int);
        }
        cells[(y as usize) * (w as usize) + (x as usize)]
    } else {
        false
    }
}

/// Counts the live neighbours of the cell `(x, y)`.
fn live_neighbor_count(cells: &Vec<bool>, w: u32, h: u32, x: u32, y: u32) -> (r: u8)
    requires
        valid_dimensions(w as int, h as int),
        cells@.len() == w * h,
        x < w,
        y < h,
    ensures
        r == live_neighbors(cells@, w as int, h as int, x as int, y as int),
{
    let x = x as i64;
    let y = y as i64;
    let mut n: u8 = 0;
    if alive(cells, w, h, x - 1, y - 1) {
        n += 1;
    }
    if alive(cells, w, h, x, y - 1) {
        n += 1;
    }
    if alive(cells, w, h, x + 1, y - 1) {
        n += 1;
    }
    if alive(cells, w, h, x - 1, y) {
        n += 1;
    }
    if alive(cells, w, h, x + 1, y) {
        n += 1;
    }
    if alive(cells, w, h, x - 1, y + 1) {
        n += 1;
    }
    if alive(cells, w, h, x, y + 1) {
        n += 1;
    }
    if alive(cells, w, h, x + 1, y + 1) {
        n += 1;
    }
    n
}

/// Writes the generation that follows `cells` into `next`, overwriting all
/// of it.
fn step_into(cells: &Vec<bool>, next: &mut Vec<bool>, w: u32, h: u32)
    requires
        valid_dimensions(w as int, h as int),
        cells@.len() == w * h,
        old(next)@.len() == w * h,
    ensures
        final(next)@ == stepped(cells@, w as int, h as int),
{
    proof {
        lemma_cells_fit(w as int, h as int);
    }
    let n: usize = (w as usize) * (h as usize);
    let mut i: usize = 0;
    let mut x: u32 = 0;
    let mut y: u32 = 0;
    while i < n
        invariant
            valid_dimensions(w as int, h as int),
            cells@.len() == w * h,
            n == w * h,
            next@.len() == n,
            i <= n,
            x < w,
            i == y * w + x,
            forall|j: int| 0 <= j < i ==> next@[j] == stepped(cells@, w as int, h as int)[j],
        decreases n - i,
    {
        proof {
            vstd::arithmetic::div_mod::lemma_fundamental_div_mod_converse(
                i as int,
                w as int,
                y as int,
                x as int,
            );
            lemma_index_cell(w as int, h as int, i as int);
        }
        let count = live_neighbor_count(cells, w, h, x, y);
        let alive_next = count == 3 || (cells[i] && count == 2);
        next.set(i, alive_next);
        i += 1;
        x += 1;
        if x == w {
            assert((y + 1) * w == y * w + w) by (nonlinear_arith);
            x = 0;
            y += 1;
        }
    }
    assert(next@ =~= stepped(cells@, w as int, h as int));
}

/// Copies `src` into `dst` unchanged.
fn copy_into(src: &Vec<bool>, dst: &mut Vec<bool>)
    requires
        old(dst)@.len() == src@.len(),
    ensures
        final(dst)@ == src@,
{
    let mut i: usize = 0;
    while i < src.len()
        invariant
            dst@.len() == src@.len(),
            i <= src@.len(),
            forall|j: int| 0 <= j < i ==> dst@[j] == src@[j],
        decreases src@.len() - i,
    {
        dst.set(i, src[i]);
        i += 1;
    }
    assert(dst@ =~= src@);
}

/// `n` dead cells.
fn dead_cells(n: usize) -> (r: Vec<bool>)
    ensures
        r@ == all_dead(n as nat),
{
    let mut cells: Vec<bool> = Vec::new();
    let mut i: usize = 0;
    while i < n
        invariant
            i <= n,
            cells@ == all_dead(i as nat),
        decreases n - i,
    {
        cells.push(false);
        i += 1;
        assert(cells@ =~= all_dead(i as nat));
    }
    cells
}

impl Grid {
    /// The number of columns.
    pub closed spec fn spec_width(&self) -> int {
        self.width as int
    }

    /// The number of rows.
    pub closed spec fn spec_height(&self) -> int {
        self.height as int
    }

    /// The buffer that is not active.
    pub closed spec fn scratch(&self) -> Seq<bool> {
        match self.active {
            Board::A => self.board_b@,
            Board::B => self.board_a@,
        }
    }

    /// Both buffers hold one cell for each column of each row.
    pub closed spec fn wf(&self) -> bool {
        &&& valid_dimensions(self.width as int, self.height as int)
        &&& self.board_a@.len() == self.width * self.height
        &&& self.board_b@.len() == self.width * self.height
    }

    /// What a well-formed grid tells of its dimensions and buffers.
    pub proof fn lemma_wf(&self)
        requires
            self.wf(),
        ensures
            valid_dimensions(self.spec_width(), self.spec_height()),
            self@.len() == self.spec_width() * self.spec_height(),
            self.scratch().len() == self.spec_width() * self.spec_height(),
    {
    }

    /// A grid of `width` columns and `height` rows with every cell dead in
    /// both buffers; `ResourceExhausted` where a dimension is 0 or above
    /// `MAX_DIMENSION`.
    pub fn allocate(width: u32, height: u32) -> (r: Result<Grid, EngineError>)
        ensures
            r is Ok <==> valid_dimensions(width as int, height as int),
            match r {
                Ok(g) => {
                    &&& g.wf()
                    &&& g.spec_width() == width
                    &&& g.spec_height() == height
                    &&& g@ == all_dead((width * height) as nat)
                    &&& g.scratch() == all_dead((width * height) as nat)
                },
                Err(e) => e == EngineError::ResourceExhausted,
            },
    {
        if width == 0 || height == 0 || width > MAX_DIMENSION || height > MAX_DIMENSION {
            return Err(EngineError::ResourceExhausted);
        }
        proof {
            lemma_cells_fit(width as int, height as int);
        }
        let n: usize = (width as usize) * (height as usize);
        let board_a = dead_cells(n);
        let board_b = dead_cells(n);
        Ok(Grid { board_a, board_b, active: Board::A, width, height })
    }

    pub fn width(&self) -> (r: u32)
        requires
            self.wf(),
        ensures
            r == self.spec_width(),
            1 <= r <= MAX_DIMENSION,
    {
        self.width
    }

    pub fn height(&self) -> (r: u32)
        requires
            self.wf(),
        ensures
            r == self.spec_height(),
            1 <= r <= MAX_DIMENSION,
    {
        self.height
    }

    /// The buffer that holds the present generation.
    pub fn active_buffer(&self) -> (r: &Vec<bool>)
        ensures
            r@ == self@,
    {
        match self.active {
            Board::A => &self.board_a,
            Board::B => &self.board_b,
        }
    }

    /// Makes the scratch buffer the active one, and the active one scratch.
    pub fn swap(&mut self)
        requires
            old(self).wf(),
        ensures
            final(self).wf(),
            final(self).spec_width() == old(self).spec_width(),
            final(self).spec_height() == old(self).spec_height(),
            final(self)@ == old(self).scratch(),
            final(self).scratch() == old(self)@,
    {
        self.active = match self.active {
            Board::A => Board::B,
            Board::B => Board::A,
        };
    }

    /// Advances the grid by one generation: the next generation is written
    /// into the scratch buffer, which then becomes the active one.
    pub fn step(&mut self)
        requires
            old(self).wf(),
        ensures
            final(self).wf(),
            final(self).spec_width() == old(self).spec_width(),
            final(self).spec_height() == old(self).spec_height(),
            final(self)@ == stepped(old(self)@, old(self).spec_width(), old(self).spec_height()),
    {
        match self.active {
            Board::A => step_into(&self.board_a, &mut self.board_b, self.width, self.height),
            Board::B => step_into(&self.board_b, &mut self.board_a, self.width, self.height),
        }
        self.swap();
    }

    /// Flips the cell `(x, y)` between alive and dead. The active buffer is
    /// copied into the scratch buffer, the cell is flipped there, and the two
    /// trade places, so the buffer that was active is never written.
    /// `InvalidAddress`, with the grid unchanged, where `(x, y)` is outside
    /// the grid.
    pub fn toggle(&mut self, x: i32, y: i32) -> (r: Result<(), EngineError>)
        requires
            old(self).wf(),
        ensures
            final(self).wf(),
            final(self).spec_width() == old(self).spec_width(),
            final(self).spec_height() == old(self).spec_height(),
            r is Ok <==> in_bounds(old(self).spec_width(), old(self).spec_height(), x as int, y as int),
            match r {
                Ok(_) => final(self)@ == toggled(old(self)@, old(self).spec_width(), x as int, y as int),
                Err(e) => e == EngineError::InvalidAddress && final(self)@ == old(self)@,
            },
    {
        if x < 0 || y < 0 || x as u32 >= self.width || y as u32 >= self.height {
            return Err(EngineError::InvalidAddress);
        }
        proof {
            lemma_cell_index(self.width as int, self.height as int, x as int, y as int);
            lemma_cells_fit(self.width as int, self.height as int);
        }
        let i: usize = (y as usize) * (self.width as usize) + (x as usize);
        match self.active {
            Board::A => {
                copy_into(&self.board_a, &mut self.board_b);
                let flipped = !self.board_b[i];
                self.board_b.set(i, flipped);
            },
            Board::B => {
                copy_into(&self.board_b, &mut self.board_a);
                let flipped = !self.board_a[i];
                self.board_a.set(i, flipped);
            },
        }
        self.swap();
        Ok(())
    }
}

} // verus!
