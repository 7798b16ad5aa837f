use vstd::prelude::*;

verus! {

// A grid of `w` columns and `h` rows is a sequence of `w * h` cells in
// row-major order: the cell in column `x` and row `y` sits at `y * w + x`.
// `true` is a live cell, `false` a dead one.

/// Whether `(x, y)` names a cell of a `w` by `h` grid.
pub open spec fn in_bounds(w: int, h: int, x: int, y: int) -> bool {
    0 <= x < w && 0 <= y < h
}

/// Whether the cell at `(x, y)` is alive. Positions outside the grid count
/// as dead: the border is padded with dead cells, it does not wrap around.
pub open spec fn alive_at(cells: Seq<bool>, w: int, h: int, x: int, y: int) -> bool {
    in_bounds(w, h, x, y) && cells[y * w + x]
}

pub open spec fn count_if(b: bool) -> int {
    if b {
        1
    } else {
        0
    }
}

/// The number of live cells among the eight that surround `(x, y)`.
pub open spec fn live_neighbors(cells: Seq<bool>, w: int, h: int, x: int, y: int) -> int {
    count_if(alive_at(cells, w, h, x - 1, y - 1)) + count_if(alive_at(cells, w, h, x, y - 1))
        + count_if(alive_at(cells, w, h, x + 1, y - 1)) + count_if(alive_at(cells, w, h, x - 1, y))
        + count_if(alive_at(cells, w, h, x + 1, y)) + count_if(alive_at(cells, w, h, x - 1, y + 1))
        + count_if(alive_at(cells, w, h, x, y + 1)) + count_if(alive_at(cells, w, h, x + 1, y + 1))
}

/// Conway's rule: a cell lives in the next generation when it has exactly
/// three live neighbours, or when it is alive and has exactly two.
pub open spec fn next_alive(alive: bool, neighbors: int) -> bool {
    neighbors == 3 || (alive && neighbors == 2)
}

/// The generation that follows `cells`.
pub open spec fn stepped(cells: Seq<bool>, w: int, h: int) -> Seq<bool> {
    Seq::new(
        cells.len(),
        |i: int| next_alive(cells[i], live_neighbors(cells, w, h, i % w, i / w)),
    )
}

/// The generation reached from `cells` after `n` steps.
pub open spec fn stepped_n(cells: Seq<bool>, w: int, h: int, n: nat) -> Seq<bool>
    decreases n,
{
    if n == 0 {
        cells
    } else {
        stepped(stepped_n(cells, w, h, (n - 1) as nat), w, h)
    }
}

/// `cells` with the cell at `(x, y)` flipped between alive and dead.
pub open spec fn toggled(cells: Seq<bool>, w: int, x: int, y: int) -> Seq<bool> {
    cells.update(y * w + x, !cells[y * w + x])
}

/// `n` dead cells.
pub open spec fn all_dead(n: nat) -> Seq<bool> {
    Seq::new(n, |i: int| false)
}

/// The cell `(x, y)` of a `w` by `h` grid has an index below `w * h`, and
/// that index gives back its column and row.
pub proof fn lemma_cell_index(w: int, h: int, x: int, y: int)
    requires
        in_bounds(w, h, x, y),
    ensures
        0 <= y * w + x < w * h,
        (y * w + x) % w == x,
        (y * w + x) / w == y,
{
    assert(0 <= y * w + x < w * h) by (nonlinear_arith)
        requires
            0 <= x < w,
            0 <= y < h,
    ;
    vstd::arithmetic::div_mod::lemma_fundamental_div_mod_converse(y * w + x, w, y, x);
}

/// Every index below `w * h` is the cell of a column and a row in bounds.
pub proof fn lemma_index_cell(w: int, h: int, i: int)
    requires
        w > 0,
        0 <= i < w * h,
    ensures
        in_bounds(w, h, i % w, i / w),
        (i / w) * w + i % w == i,
{
    vstd::arithmetic::div_mod::lemma_fundamental_div_mod(i, w);
    vstd::arithmetic::div_mod::lemma_mod_pos_bound(i, w);
    let q = i / w;
    let r = i % w;
    assert(0 <= q < h) by (nonlinear_arith)
        requires
            i == w * q + r,
            0 <= r < w,
            0 <= i < w * h,
    ;
    assert(q * w == w * q) by (nonlinear_arith);
}

/// The step rule is a function of the grid alone: two equal grids step to
/// equal grids, however often the step is repeated.
pub proof fn lemma_step_deterministic(a: Seq<bool>, b: Seq<bool>, w: int, h: int, n: nat)
    requires
        a == b,
    ensures
        stepped(a, w, h) == stepped(b, w, h),
        stepped_n(a, w, h, n) == stepped_n(b, w, h, n),
{
}

/// The next generation of each cell of the grid follows Conway's rule from
/// the cell and its live neighbours: a live cell with fewer than two or
/// more than three live neighbours dies, a dead cell with exactly three
/// comes alive, and a live cell with two or three stays alive.
pub proof fn lemma_cell_rule(cells: Seq<bool>, w: int, h: int, x: int, y: int)
    requires
        cells.len() == w * h,
        in_bounds(w, h, x, y),
    ensures
        ({
            let i = y * w + x;
            let n = live_neighbors(cells, w, h, x, y);
            let next = stepped(cells, w, h);
            &&& next.len() == cells.len()
            &&& next[i] == next_alive(cells[i], n)
            &&& cells[i] && (n < 2 || n > 3) ==> !next[i]
            &&& !cells[i] && n == 3 ==> next[i]
            &&& cells[i] && (n == 2 || n == 3) ==> next[i]
        }),
{
    lemma_cell_index(w, h, x, y);
}

/// A grid with no live cell has none after one step.
pub proof fn lemma_empty_step(w: int, h: int)
    requires
        w >= 0,
        h >= 0,
    ensures
        stepped(all_dead((w * h) as nat), w, h) == all_dead((w * h) as nat),
{
    let n = (w * h) as nat;
    assert forall|x: int, y: int| !#[trigger] alive_at(all_dead(n), w, h, x, y) by {
        if in_bounds(w, h, x, y) {
            lemma_cell_index(w, h, x, y);
        }
    }
    assert(stepped(all_dead(n), w, h) =~= all_dead(n));
}

/// A grid with no live cell stays without one, however many steps are taken.
pub proof fn lemma_empty_stays_empty(w: int, h: int, steps: nat)
    requires
        w >= 0,
        h >= 0,
    ensures
        stepped_n(all_dead((w * h) as nat), w, h, steps) == all_dead((w * h) as nat),
    decreases steps,
{
    if steps > 0 {
        lemma_empty_stays_empty(w, h, (steps - 1) as nat);
        lemma_empty_step(w, h);
    }
}

/// Toggling a cell flips that cell and no other, and toggling the same cell
/// twice gives the grid back as it was.
pub proof fn lemma_toggle_round_trip(cells: Seq<bool>, w: int, h: int, x: int, y: int)
    requires
        cells.len() == w * h,
        in_bounds(w, h, x, y),
    ensures
        toggled(cells, w, x, y).len() == cells.len(),
        toggled(cells, w, x, y)[y * w + x] == !cells[y * w + x],
        forall|i: int|
            0 <= i < cells.len() && i != y * w + x ==> #[trigger] toggled(cells, w, x, y)[i]
                == cells[i],
        toggled(toggled(cells, w, x, y), w, x, y) == cells,
{
    lemma_cell_index(w, h, x, y);
    assert(toggled(toggled(cells, w, x, y), w, x, y) =~= cells);
}

} // verus!
