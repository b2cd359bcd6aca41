//! The dimensions of the playfield, the glyphs, and the fixed-point unit.

use vstd::prelude::*;

verus! {

/// The left bound: the column of the left border.
pub const XMIN: u16 = 0;

/// The top bound: the row of the top border.
pub const YMIN: u16 = 0;

/// The right bound, which is also the width of the grid in cells.
pub const XMAX: u16 = 79;

/// The bottom bound, which is also the height of the grid in cells.
pub const YMAX: u16 = 24;

/// The number of cells of the grid, `XMAX * YMAX`.
pub const FIELD_SIZE: usize = 1896;

/// The glyph of a cell that holds nothing: a space.
pub const PIXEL_EMPTY: u8 = 32;

/// The glyph that `Field::set_pixel` writes, and the glyph of a paddle: the
/// letter X.
pub const PIXEL_SOLID: u8 = 88;

/// The glyph of the ball: the letter O.
pub const PIXEL_BALL: u8 = 79;

/// The glyph of the top and bottom border: a hyphen.
pub const PIXEL_DASH: u8 = 45;

/// The glyph of the net in the middle column: an apostrophe.
pub const PIXEL_NET: u8 = 39;

/// The glyph of the left and right border: a vertical bar.
pub const PIXEL_PIPE: u8 = 124;

/// The number of position units in one cell. Fine positions and velocities
/// count in units of one billionth of a cell.
pub const CELL: u64 = 1000000000;

/// The largest speed along one axis, in units per tick: one cell per tick.
pub const MAX_STEP: i32 = 1000000000;

/// The flat index of the cell in column `x` of row `y`.
pub open spec fn flat_index(x: int, y: int) -> int {
    x + y * XMAX
}

/// The buffer has one cell for each column of each row, and a cell has as
/// many units as the fastest ball moves in a tick.
pub proof fn grid_constants()
    ensures
        FIELD_SIZE == XMAX * YMAX,
        MAX_STEP == CELL,
{
}

} // verus!
