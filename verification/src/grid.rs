//! The placement grid and its relation to canvas space.
//!
//! A grid cell is `GRID_SCALE` canvas units wide. Going from the grid to the
//! canvas multiplies; going back snaps to the nearest cell.

use vstd::prelude::*;
use crate::geometry::Point;

verus! {

/// Canvas units per grid cell.
pub const GRID_SCALE: i64 = 16;

/// A cell of the placement grid.
#[derive(Clone, Copy, Debug, PartialEq, Eq, Structural)]
pub struct Coords {
    pub x: i32,
    pub y: i32,
}

/// Index of the grid line nearest to canvas coordinate `v`. A coordinate
/// half-way between two lines goes to the one farther from zero.
pub open spec fn snap(v: int) -> int {
    if v >= 0 {
        (v + GRID_SCALE / 2) / (GRID_SCALE as int)
    } else {
        -((-v + GRID_SCALE / 2) / (GRID_SCALE as int))
    }
}

/// `n` brought into the range of grid indices that a `Coords` can hold.
pub open spec fn clamp_index(n: int) -> int {
    if n < i32::MIN {
        i32::MIN as int
    } else if n > i32::MAX {
        i32::MAX as int
    } else {
        n
    }
}

/// Index of the representable grid line nearest to canvas coordinate `v`.
pub open spec fn grid_index(v: int) -> int {
    clamp_index(snap(v))
}

/// The cell nearest to the canvas position `p`.
pub open spec fn nearest_cell(p: (int, int)) -> Coords {
    Coords { x: grid_index(p.0) as i32, y: grid_index(p.1) as i32 }
}

/// Snaps one canvas coordinate to the grid.
pub(crate) fn snap_axis(v: i128) -> (n: i32)
    requires
        -0x1_0000_0000_0000_0000 <= v <= 0x1_0000_0000_0000_0000,
    ensures
        n == grid_index(v as int),
{
    let half: i128 = (GRID_SCALE / 2) as i128;
    let scale: i128 = GRID_SCALE as i128;
    let lines: i128 = if v >= 0 {
        (v + half) / scale
    } else {
        -((-v + half) / scale)
    };
    if lines < i32::MIN as i128 {
        i32::MIN
    } else if lines > i32::MAX as i128 {
        i32::MAX
    } else {
        lines as i32
    }
}

impl Coords {
    pub fn new(x: i32, y: i32) -> (c: Coords)
        ensures
            c.x == x,
            c.y == y,
    {
        Coords { x, y }
    }

    /// Canvas position of this cell's grid point.
    pub open spec fn canvas_point(self) -> (int, int) {
        (self.x * GRID_SCALE, self.y * GRID_SCALE)
    }

    /// The canvas position that this cell stands for.
    pub fn to_canvas_space(&self) -> (p: Point)
        ensures
            p@ == self.canvas_point(),
    {
        Point { x: self.x as i64 * GRID_SCALE, y: self.y as i64 * GRID_SCALE }
    }

    /// The cell whose grid point lies nearest to `p`.
    pub fn from_canvas_space(p: Point) -> (c: Coords)
        ensures
            c == nearest_cell(p@),
    {
        Coords { x: snap_axis(p.x as i128), y: snap_axis(p.y as i128) }
    }
}

/// Snapping picks a nearest grid line: no other line lies closer to `v`.
pub proof fn lemma_snap_is_nearest(v: int, n: int)
    ensures
        vstd::math::abs(snap(v) * GRID_SCALE - v) <= vstd::math::abs(n * GRID_SCALE - v),
        vstd::math::abs(snap(v) * GRID_SCALE - v) <= GRID_SCALE / 2,
{
}

/// A point that lies on the grid snaps to its own cell.
pub proof fn lemma_snap_of_grid_point(n: int)
    ensures
        snap(n * GRID_SCALE) == n,
{
}

/// Going to canvas space and back gives the cell one started from.
pub proof fn lemma_round_trip(c: Coords)
    ensures
        nearest_cell(c.canvas_point()) == c,
{
    lemma_snap_of_grid_point(c.x as int);
    lemma_snap_of_grid_point(c.y as int);
}

/// Snapping never reverses the order of two coordinates.
pub proof fn lemma_grid_index_monotonic(v: int, w: int)
    requires
        v <= w,
    ensures
        grid_index(v) <= grid_index(w),
{
}

/// Moving a coordinate by whole cells moves its grid line by as many lines,
/// unless the coordinate lies half-way between two lines: ties go away from
/// zero, on either side of it.
pub proof fn lemma_snap_translates(v: int, cells: int)
    requires
        v % (GRID_SCALE as int) != GRID_SCALE / 2,
    ensures
        snap(v + cells * GRID_SCALE) == snap(v) + cells,
{
}

} // verus!
