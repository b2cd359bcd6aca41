//! The entity model: the ball and the paddles.

use vstd::prelude::*;
use crate::grid::{CELL, MAX_STEP, XMAX, YMAX, YMIN};

verus! {

/// The ball or a paddle.
///
/// An entity stands in column `xpos` and covers the rows
/// `[ypos, ypos + size)`. Beside the cell it keeps its fine position, in
/// units of which `CELL` make one cell, and its velocity in units per tick.
#[derive(Clone, Copy, Debug, PartialEq, Eq, Structural)]
pub struct Thing {
    /// The column.
    pub xpos: u16,
    /// The first row that the entity covers.
    pub ypos: u16,
    /// The number of rows that the entity covers.
    pub size: u16,
    /// The glyph that shows the entity.
    pub pixel: u8,
    /// The horizontal velocity, in units per tick.
    pub xmov: i32,
    /// The vertical velocity, in units per tick.
    pub ymov: i32,
    /// The horizontal fine position, in units.
    pub xfine: u64,
    /// The vertical fine position, in units.
    pub yfine: u64,
}

/// The entity that `Thing::new` makes: at rest on the given cell.
pub open spec fn resting(x: u16, y: u16, size: u16, pixel: u8) -> Thing {
    Thing {
        xpos: x,
        ypos: y,
        size: size,
        pixel: pixel,
        xmov: 0,
        ymov: 0,
        xfine: (x * CELL) as u64,
        yfine: (y * CELL) as u64,
    }
}

/// The entity one tick later, before any collision is looked at: the fine
/// position has moved by the velocity and the cell is the floor of it.
pub open spec fn advanced(t: Thing) -> Thing {
    Thing {
        xpos: ((t.xfine + t.xmov) / (CELL as int)) as u16,
        ypos: ((t.yfine + t.ymov) / (CELL as int)) as u16,
        xfine: (t.xfine + t.xmov) as u64,
        yfine: (t.yfine + t.ymov) as u64,
        ..t
    }
}

/// The paddle after a move up by one cell; it stays where it is when the
/// move would bring it onto the top border.
pub open spec fn moved_up(t: Thing) -> Thing {
    if t.ypos > YMIN + 1 {
        Thing { ypos: (t.ypos - 1) as u16, yfine: (t.yfine - CELL) as u64, ..t }
    } else {
        t
    }
}

/// The paddle after a move down by one cell; it stays where it is when the
/// move would bring its last row onto the bottom border.
pub open spec fn moved_down(t: Thing) -> Thing {
    if t.ypos + t.size < YMAX - 1 {
        Thing { ypos: (t.ypos + 1) as u16, yfine: (t.yfine + CELL) as u64, ..t }
    } else {
        t
    }
}

impl Thing {
    /// The cell is the floor of the fine position, on both axes.
    pub open spec fn aligned(self) -> bool {
        &&& self.xpos == self.xfine / CELL
        &&& self.ypos == self.yfine / CELL
    }

    /// The velocity is at most one cell per tick on each axis.
    pub open spec fn slow(self) -> bool {
        &&& -MAX_STEP <= self.xmov <= MAX_STEP
        &&& -MAX_STEP <= self.ymov <= MAX_STEP
    }

    /// One more tick of movement keeps the entity on cells that a position
    /// can name: the fine position does not fall below zero.
    pub open spec fn can_advance(self) -> bool {
        &&& self.aligned()
        &&& self.slow()
        &&& self.xpos < u16::MAX
        &&& self.ypos < u16::MAX
        &&& 0 <= self.xfine + self.xmov
        &&& 0 <= self.yfine + self.ymov
    }

    /// The rows `[ypos, ypos + size)` hold row `y`.
    pub open spec fn spans(self, y: int) -> bool {
        self.ypos <= y < self.ypos + self.size
    }

    /// The span lies strictly between the top and the bottom border.
    pub open spec fn inside_borders(self) -> bool {
        &&& YMIN < self.ypos
        &&& self.ypos + self.size <= YMAX - 1
    }

    /// Whether the cell is the floor of the fine position, on both axes.
    pub fn is_aligned(&self) -> (b: bool)
        ensures
            b == self.aligned(),
    {
        self.xpos as u64 == self.xfine / CELL && self.ypos as u64 == self.yfine / CELL
    }

    /// Whether the velocity is at most one cell per tick on each axis.
    pub fn is_slow(&self) -> (b: bool)
        ensures
            b == self.slow(),
    {
        -MAX_STEP <= self.xmov && self.xmov <= MAX_STEP && -MAX_STEP <= self.ymov && self.ymov
            <= MAX_STEP
    }

    /// Whether one more tick of movement keeps the entity on cells that a
    /// position can name.
    pub fn may_advance(&self) -> (b: bool)
        ensures
            b == self.can_advance(),
    {
        self.is_aligned() && self.is_slow() && self.xpos < u16::MAX && self.ypos < u16::MAX && 0
            <= self.xfine as i128 + self.xmov as i128 && 0 <= self.yfine as i128 + self.ymov
            as i128
    }

    /// Whether the span lies strictly between the top and the bottom border.
    pub fn is_inside_borders(&self) -> (b: bool)
        ensures
            b == self.inside_borders(),
    {
        YMIN < self.ypos && self.ypos as u32 + self.size as u32 <= (YMAX - 1) as u32
    }

    /// An entity at rest on cell `(x, y)`.
    pub fn new(x: u16, y: u16, size: u16, pixel: u8) -> (t: Thing)
        ensures
            t == resting(x, y, size, pixel),
            t.aligned(),
    {
        let xfine: u64 = x as u64 * CELL;
        let yfine: u64 = y as u64 * CELL;
        Thing { xpos: x, ypos: y, size, pixel, xmov: 0, ymov: 0, xfine, yfine }
    }

    /// The flat index of the entity's first cell.
    pub fn get_pos_idx(&self) -> (idx: usize)
        ensures
            idx == self.xpos + self.ypos * XMAX,
    {
        self.xpos as usize + self.ypos as usize * (XMAX as usize)
    }

    /// The first row of the span.
    pub fn get_ymin(&self) -> (y: u16)
        ensures
            y == self.ypos,
    {
        self.ypos
    }

    /// The row after the last row of the span.
    pub fn get_ymax(&self) -> (y: u16)
        requires
            self.ypos + self.size <= u16::MAX,
        ensures
            y == self.ypos + self.size,
    {
        self.ypos + self.size
    }

    /// Whether the span holds row `y`.
    pub fn covers(&self, y: u16) -> (b: bool)
        ensures
            b == self.spans(y as int),
    {
        self.ypos <= y && (y as u32) < self.ypos as u32 + self.size as u32
    }

    /// Moves the entity by its velocity for one tick and puts it on the cell
    /// that holds its new fine position.
    pub fn advance(&mut self)
        requires
            old(self).can_advance(),
        ensures
            *final(self) == advanced(*old(self)),
            final(self).aligned(),
            final(self).xfine == old(self).xfine + old(self).xmov,
            final(self).yfine == old(self).yfine + old(self).ymov,
    {
        let xfine: i128 = self.xfine as i128 + self.xmov as i128;
        let yfine: i128 = self.yfine as i128 + self.ymov as i128;
        self.xfine = xfine as u64;
        self.yfine = yfine as u64;
        self.xpos = (self.xfine / CELL) as u16;
        self.ypos = (self.yfine / CELL) as u16;
    }

    /// Moves a paddle up by one cell unless it already touches the row below
    /// the top border.
    pub fn step_up(&mut self)
        requires
            old(self).aligned(),
        ensures
            *final(self) == moved_up(*old(self)),
            final(self).aligned(),
            old(self).inside_borders() ==> final(self).inside_borders(),
    {
        if self.ypos > YMIN + 1 {
            self.ypos = self.ypos - 1;
            self.yfine = self.yfine - CELL;
        }
    }

    /// Moves a paddle down by one cell unless its last row already touches the
    /// row above the bottom border.
    pub fn step_down(&mut self)
        requires
            old(self).aligned(),
        ensures
            *final(self) == moved_down(*old(self)),
            final(self).aligned(),
            old(self).inside_borders() ==> final(self).inside_borders(),
    {
        if (self.ypos as u32) + (self.size as u32) < (YMAX as u32) - 1 {
            self.ypos = self.ypos + 1;
            self.yfine = self.yfine + CELL;
        }
    }
}

} // verus!
