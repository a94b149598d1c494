//! Integer grid coordinates on the fixed-size board, and the pure mapping
//! from a grid cell to its render-space pixel offset from the board centre.

use vstd::prelude::*;

verus! {

/// Board width in cells.
pub const GRID_W: i32 = 40;

/// Board height in cells.
pub const GRID_H: i32 = 22;

/// Total number of cells on the board.
pub const GRID_CELLS: usize = 880;

/// Side of one cell in pixels: the drawn contents plus the border.
pub const CELL_PIXELS: i32 = 32;

/// Half a cell side in pixels; the mapping to render space centres each
/// cell, so offsets are odd multiples of this.
pub const HALF_CELL: i32 = 16;

/// One cell of the board, addressed by integer column and row.
/// Entities that are parked off the board carry coordinates outside
/// the bounds; every live entity stays within them.
#[derive(Clone, Copy, Debug, PartialEq, Eq, Structural)]
pub struct GridPos {
    pub x: i32,
    pub y: i32,
}

/// Whether integer coordinates lie on the board.
pub open spec fn in_bounds_xy(x: int, y: int) -> bool {
    0 <= x < GRID_W as int && 0 <= y < GRID_H as int
}

/// Whether a cell lies on the board.
pub open spec fn in_bounds(p: GridPos) -> bool {
    in_bounds_xy(p.x as int, p.y as int)
}

/// Horizontal pixel offset of the centre of column `x` from the board centre.
pub open spec fn translation_x(x: int) -> int {
    (2 * x - GRID_W as int + 1) * HALF_CELL as int
}

/// Vertical pixel offset of the centre of row `y` from the board centre.
pub open spec fn translation_y(y: int) -> int {
    (2 * y - GRID_H as int + 1) * HALF_CELL as int
}

impl GridPos {
    /// The cell at the given column and row.
    pub fn new(x: i32, y: i32) -> (r: GridPos)
        ensures
            r.x == x,
            r.y == y,
    {
        GridPos { x, y }
    }

    /// Whether this cell lies on the board.
    pub fn is_in_bounds(&self) -> (r: bool)
        ensures
            r == in_bounds(*self),
    {
        0 <= self.x && self.x < GRID_W && 0 <= self.y && self.y < GRID_H
    }

    /// Render-space offset of this cell's centre from the board centre,
    /// in pixels. A pure function of the coordinates and the board shape:
    /// no other state affects it.
    pub fn to_translation(&self) -> (r: (i64, i64))
        ensures
            r.0 as int == translation_x(self.x as int),
            r.1 as int == translation_y(self.y as int),
    {
        let ax: i64 = 2 * (self.x as i64) - (GRID_W as i64) + 1;
        let ay: i64 = 2 * (self.y as i64) - (GRID_H as i64) + 1;
        let tx: i64 = ax * 16;
        let ty: i64 = ay * 16;
        (tx, ty)
    }
}

/// Law: the mapping from cells to render space is injective, so two
/// entities are drawn at the same pixel offset only when they occupy the
/// same cell; in particular a segment is rendered on the head exactly
/// when its cell equals the head's cell.
pub proof fn lemma_translation_injective(a: GridPos, b: GridPos)
    requires
        translation_x(a.x as int) == translation_x(b.x as int),
        translation_y(a.y as int) == translation_y(b.y as int),
    ensures
        a == b,
{
}

/// Fixed window size in pixels: board extent times cell size, not resizable.
pub fn window_size() -> (r: (i32, i32))
    ensures
        r.0 == GRID_W * CELL_PIXELS,
        r.1 == GRID_H * CELL_PIXELS,
{
    (GRID_W * CELL_PIXELS, GRID_H * CELL_PIXELS)
}

} // verus!
