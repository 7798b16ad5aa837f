use vstd::prelude::*;

use crate::grid::valid_dimensions;
use crate::rule::in_bounds;

verus! {

// Positions on screen are normalized viewport coordinates held in fixed
// point: `FIXED_ONE` units make one normalized unit, so the viewport spans
// `-FIXED_ONE ..= FIXED_ONE` on both axes, with `y` growing upwards.

/// The number of fixed-point units in one normalized viewport unit.
pub const FIXED_ONE: i32 = 65536;

/// A pointer position in fixed-point viewport coordinates.
#[derive(Clone, Copy, Debug, PartialEq, Eq, Structural)]
pub struct Point {
    pub x: i32,
    pub y: i32,
}

/// The rectangle the grid is drawn in, in fixed-point viewport
/// coordinates: `left` and `top` are one corner, `right` and `bottom` the
/// opposite one. Column 0 is on the left, row 0 at the top.
#[derive(Clone, Copy, Debug, PartialEq, Eq, Structural)]
pub struct Placement {
    pub left: i32,
    pub top: i32,
    pub right: i32,
    pub bottom: i32,
}

/// Whether the pointer lies on the grid's area: the left and top edges
/// belong to it, the right and bottom edges do not.
pub open spec fn inside(p: Point, a: Placement) -> bool {
    a.left <= p.x < a.right && a.bottom < p.y <= a.top
}

/// The column under the pointer: `floor(fraction * w)`, where the fraction
/// is the pointer's distance from the left edge over the area's width.
pub open spec fn column_of(p: Point, a: Placement, w: int) -> int {
    (p.x - a.left) * w / (a.right - a.left)
}

/// The row under the pointer: `floor(fraction * h)`, where the fraction is
/// the pointer's distance from the top edge over the area's height.
pub open spec fn row_of(p: Point, a: Placement, h: int) -> int {
    (a.top - p.y) * h / (a.top - a.bottom)
}

/// The cell under the pointer, if the pointer is on the grid's area.
pub open spec fn cell_at(p: Point, a: Placement, w: int, h: int) -> Option<(int, int)> {
    if inside(p, a) {
        Some((column_of(p, a, w), row_of(p, a, h)))
    } else {
        None
    }
}

/// `floor(n * k / d)` for `0 <= n < d` lies in `0 .. k`.
proof fn lemma_scaled_fraction(n: int, d: int, k: int)
    requires
        0 <= n < d,
        k >= 1,
    ensures
        0 <= n * k / d < k,
{
    vstd::arithmetic::div_mod::lemma_fundamental_div_mod(n * k, d);
    vstd::arithmetic::div_mod::lemma_mod_pos_bound(n * k, d);
    let q = n * k / d;
    let r = n * k % d;
    assert(0 <= q < k) by (nonlinear_arith)
        requires
            n * k == d * q + r,
            0 <= r < d,
            0 <= n < d,
            k >= 1,
    ;
}

/// `floor(n * k / d)` with the operands as machine integers.
fn scaled_fraction(n: i64, d: i64, k: u32) -> (r: i32)
    requires
        0 <= n < d,
        d <= u32::MAX,
        1 <= k <= i32::MAX,
    ensures
        r == (n as int) * (k as int) / (d as int),
        0 <= r < k,
{
    proof {
        lemma_scaled_fraction(n as int, d as int, k as int);
        assert(n * k <= u32::MAX * i32::MAX) by (nonlinear_arith)
            requires
                0 <= n < d,
                d <= u32::MAX,
                1 <= k <= i32::MAX,
        ;
    }
    ((n as u64) * (k as u64) / (d as u64)) as i32
}

/// Finds the cell of a `width` by `height` grid drawn in `area` that lies
/// under `pointer`, or `None` where the pointer is off the grid's area.
pub fn map_to_cell(pointer: Point, area: Placement, width: u32, height: u32) -> (r: Option<(i32, i32)>)
    requires
        valid_dimensions(width as int, height as int),
    ensures
        r is Some <==> inside(pointer, area),
        match r {
            Some((c, row)) => {
                &&& cell_at(pointer, area, width as int, height as int) == Some((c as int, row as int))
                &&& in_bounds(width as int, height as int, c as int, row as int)
            },
            None => cell_at(pointer, area, width as int, height as int) is None,
        },
{
    if area.left <= pointer.x && pointer.x < area.right && area.bottom < pointer.y && pointer.y
        <= area.top {
        let column = scaled_fraction(
            pointer.x as i64 - area.left as i64,
            area.right as i64 - area.left as i64,
            width,
        );
        let row = scaled_fraction(
            area.top as i64 - pointer.y as i64,
            area.top as i64 - area.bottom as i64,
            height,
        );
        Some((column, row))
    } else {
        None
    }
}

/// Every pointer on the grid's area names a cell of the grid.
pub proof fn lemma_inside_in_bounds(p: Point, a: Placement, w: int, h: int)
    requires
        w >= 1,
        h >= 1,
        inside(p, a),
    ensures
        in_bounds(w, h, column_of(p, a, w), row_of(p, a, h)),
{
    lemma_scaled_fraction(p.x - a.left, a.right - a.left, w);
    lemma_scaled_fraction(a.top - p.y, a.top - a.bottom, h);
}

/// `floor(k * n / (2 * k)) == floor(n / 2)` for `k >= 1`.
proof fn lemma_half(k: int, n: int)
    requires
        k >= 1,
        n >= 0,
    ensures
        k * n / (2 * k) == n / 2,
{
    let q = n / 2;
    let r = n % 2;
    vstd::arithmetic::div_mod::lemma_fundamental_div_mod(n, 2);
    assert(k * n == q * (2 * k) + k * r && 0 <= k * r < 2 * k) by (nonlinear_arith)
        requires
            n == 2 * q + r,
            0 <= r < 2,
            k >= 1,
    ;
    vstd::arithmetic::div_mod::lemma_fundamental_div_mod_converse(k * n, 2 * k, q, k * r);
}

/// The pointer at the exact center of an area whose sides span an even
/// number of units maps to the cell `(w / 2, h / 2)`.
pub proof fn lemma_center_maps_to_middle(a: Placement, w: int, h: int)
    requires
        a.left < a.right,
        a.bottom < a.top,
        (a.right - a.left) % 2 == 0,
        (a.top - a.bottom) % 2 == 0,
        w >= 1,
        h >= 1,
    ensures
        cell_at(
            Point { x: ((a.left + a.right) / 2) as i32, y: ((a.bottom + a.top) / 2) as i32 },
            a,
            w,
            h,
        ) == Some((w / 2, h / 2)),
{
    let kx = (a.right - a.left) / 2;
    let ky = (a.top - a.bottom) / 2;
    let p = Point { x: ((a.left + a.right) / 2) as i32, y: ((a.bottom + a.top) / 2) as i32 };
    assert(p.x == a.left + kx);
    assert(p.y == a.bottom + ky);
    lemma_half(kx, w);
    lemma_half(ky, h);
}

/// The edges of the area map consistently: a pointer on the left edge is in
/// column 0 and one on the top edge in row 0, while a pointer on the right
/// or bottom edge, or anywhere off the area, maps to no cell.
pub proof fn lemma_edges(p: Point, a: Placement, w: int, h: int)
    requires
        a.left < a.right,
        a.bottom < a.top,
        w >= 1,
        h >= 1,
    ensures
        p.x == a.left && a.bottom < p.y <= a.top ==> cell_at(p, a, w, h) == Some(
            (0int, row_of(p, a, h)),
        ),
        p.y == a.top && a.left <= p.x < a.right ==> cell_at(p, a, w, h) == Some(
            (column_of(p, a, w), 0int),
        ),
        p.x == a.left && p.y == a.top ==> cell_at(p, a, w, h) == Some((0int, 0int)),
        p.x == a.right ==> cell_at(p, a, w, h) is None,
        p.y == a.bottom ==> cell_at(p, a, w, h) is None,
        !inside(p, a) ==> cell_at(p, a, w, h) is None,
{
}

} // verus!
