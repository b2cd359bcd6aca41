//! The frame buffer: one character per cell of the grid, row after row.

use vstd::prelude::*;
use vstd::string::StringSliceAdditionalSpecFns;
use crate::grid::{
    flat_index, FIELD_SIZE, PIXEL_DASH, PIXEL_EMPTY, PIXEL_NET, PIXEL_PIPE, PIXEL_SOLID, XMAX,
    XMIN, YMAX, YMIN,
};
use crate::thing::Thing;

verus! {

/// One rendered frame. The cell in column `x` of row `y` is `curr[x + y * XMAX]`.
pub struct Field {
    /// The glyphs of the cells.
    pub curr: [u8; FIELD_SIZE],
}

impl View for Field {
    type V = Seq<u8>;

    open spec fn view(&self) -> Seq<u8> {
        self.curr@
    }
}

/// The glyph that an empty playfield shows in column `x` of row `y`: dashes
/// in the top and the bottom row, else the net in the middle column, else
/// bars in the first and the last column, else nothing.
pub open spec fn border_glyph(x: int, y: int) -> u8 {
    if y == YMIN || y == YMAX - 1 {
        PIXEL_DASH
    } else if x == (XMAX - XMIN) / 2 {
        PIXEL_NET
    } else if x == XMIN || x == XMAX - 1 {
        PIXEL_PIPE
    } else {
        PIXEL_EMPTY
    }
}

/// The frame of an empty playfield.
pub open spec fn blank_frame() -> Seq<u8> {
    Seq::new(FIELD_SIZE as nat, |i: int| border_glyph(i % (XMAX as int), i / (XMAX as int)))
}

/// Flat index `i` is the cell of column `t.xpos` in one of the rows that
/// `t` covers.
pub open spec fn covered(t: Thing, i: int) -> bool {
    &&& t.xpos <= i
    &&& (i - t.xpos) % (XMAX as int) == 0
    &&& t.spans((i - t.xpos) / (XMAX as int))
}

/// The frame with the glyph of `t` in every cell that `t` covers.
pub open spec fn stamped(frame: Seq<u8>, t: Thing) -> Seq<u8> {
    Seq::new(frame.len(), |i: int| if covered(t, i) { t.pixel } else { frame[i] })
}

/// The frame with `bytes` written forward from flat index `start`.
pub open spec fn overwritten(frame: Seq<u8>, start: int, bytes: Seq<u8>) -> Seq<u8> {
    Seq::new(
        frame.len(),
        |i: int| if start <= i < start + bytes.len() { bytes[i - start] } else { frame[i] },
    )
}

/// The last cell that `t` covers lies in the buffer.
pub open spec fn fits(t: Thing) -> bool {
    t.size > 0 ==> flat_index(t.xpos as int, t.ypos + t.size - 1) < FIELD_SIZE
}

/// Whether the last cell that `thing` covers lies in the buffer.
pub fn holds(thing: &Thing) -> (b: bool)
    ensures
        b == fits(*thing),
{
    if thing.size == 0 {
        true
    } else {
        let last: u64 = thing.ypos as u64 + thing.size as u64 - 1;
        assert(last * XMAX <= 131069 * 79) by (nonlinear_arith)
            requires
                last <= 131069,
                XMAX == 79,
        ;
        thing.xpos as u64 + last * (XMAX as u64) < FIELD_SIZE as u64
    }
}

impl Field {
    /// A buffer of empty cells.
    pub fn new() -> (f: Field)
        ensures
            f@.len() == FIELD_SIZE,
            forall|i: int| 0 <= i < FIELD_SIZE ==> f@[i] == PIXEL_EMPTY,
    {
        Field { curr: [PIXEL_EMPTY;FIELD_SIZE] }
    }

    /// Resets the buffer to the empty playfield.
    pub fn clear(&mut self)
        ensures
            final(self)@ == blank_frame(),
    {
        let mut i: usize = 0;
        while i < FIELD_SIZE
            invariant
                i <= FIELD_SIZE,
                self@.len() == FIELD_SIZE,
                forall|k: int| 0 <= k < i ==> self@[k] == blank_frame()[k],
            decreases FIELD_SIZE - i,
        {
            let x: usize = i % (XMAX as usize);
            let y: usize = i / (XMAX as usize);
            let c: u8 = if y == YMIN as usize || y == (YMAX - 1) as usize {
                PIXEL_DASH
            } else if x == ((XMAX - XMIN) / 2) as usize {
                PIXEL_NET
            } else if x == XMIN as usize || x == (XMAX - 1) as usize {
                PIXEL_PIPE
            } else {
                PIXEL_EMPTY
            };
            self.curr[i] = c;
            i = i + 1;
        }
        assert(self@ =~= blank_frame());
    }

    /// The flat index of the cell in column `x` of row `y`.
    pub fn get_idx(&self, x: &u16, y: &u16) -> (idx: usize)
        ensures
            idx == flat_index(*x as int, *y as int),
    {
        *x as usize + *y as usize * (XMAX as usize)
    }

    /// Writes the solid glyph into the cell in column `x` of row `y`.
    pub fn set_pixel(&mut self, x: u16, y: u16)
        requires
            flat_index(x as int, y as int) < FIELD_SIZE,
        ensures
            final(self)@ == old(self)@.update(flat_index(x as int, y as int), PIXEL_SOLID),
    {
        let idx = self.get_idx(&x, &y);
        self.curr[idx] = PIXEL_SOLID;
    }

    /// Stamps the glyph of `thing` into every cell that it covers.
    pub fn draw_thing(&mut self, thing: &Thing)
        requires
            fits(*thing),
        ensures
            final(self)@ == stamped(old(self)@, *thing),
    {
        let x = thing.xpos;
        let ymin: usize = thing.ypos as usize;
        let ymax: usize = thing.ypos as usize + thing.size as usize;
        let mut y: usize = ymin;
        while y < ymax
            invariant
                ymin == thing.ypos,
                ymax == thing.ypos + thing.size,
                x == thing.xpos,
                ymin <= y <= ymax,
                fits(*thing),
                self@.len() == FIELD_SIZE,
                forall|i: int|
                    0 <= i < FIELD_SIZE ==> self@[i] == if covered(*thing, i) && (i - x) / (
                    XMAX as int) < y {
                        thing.pixel
                    } else {
                        old(self)@[i]
                    },
            decreases ymax - y,
        {
            let idx: usize = x as usize + y * (XMAX as usize);
            self.curr[idx] = thing.pixel;
            y = y + 1;
        }
        assert(self@ =~= stamped(old(self)@, *thing));
    }

    /// Writes `bytes` forward from the cell in column `x` of row `y`, one
    /// byte per cell, running on into the next row where a row ends.
    pub fn write_bytes(&mut self, x: u16, y: u16, bytes: &[u8])
        requires
            flat_index(x as int, y as int) + bytes@.len() <= FIELD_SIZE,
        ensures
            final(self)@ == overwritten(old(self)@, flat_index(x as int, y as int), bytes@),
    {
        let start = self.get_idx(&x, &y);
        let n = bytes.len();
        let mut j: usize = 0;
        while j < n
            invariant
                n == bytes@.len(),
                start == flat_index(x as int, y as int),
                start + n <= FIELD_SIZE,
                j <= n,
                self@.len() == FIELD_SIZE,
                forall|i: int|
                    0 <= i < FIELD_SIZE ==> self@[i] == if start <= i < start + j {
                        bytes@[i - start]
                    } else {
                        old(self)@[i]
                    },
            decreases n - j,
        {
            self.curr[start + j] = bytes[j];
            j = j + 1;
        }
        assert(self@ =~= overwritten(old(self)@, start as int, bytes@));
    }

    /// Writes the bytes of `text` forward from the cell in column `x` of row
    /// `y`.
    pub fn write(&mut self, x: u16, y: u16, text: &str)
        requires
            flat_index(x as int, y as int) + text.spec_bytes().len() <= FIELD_SIZE,
        ensures
            final(self)@ == overwritten(
                old(self)@,
                flat_index(x as int, y as int),
                text.spec_bytes(),
            ),
    {
        self.write_bytes(x, y, text.as_bytes());
    }
}

} // verus!
