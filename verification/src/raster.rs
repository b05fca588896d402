//! The output sink's strict sequential-write cursor.
//!
//! The sink consumes exactly `width * height` pixels in raster order: row
//! major, top row first, left to right within a row, each pixel followed by
//! a space and each finished row by a newline. The cursor tracks that order
//! and hands the writer the separator due after each pixel; the writer
//! itself belongs to the surrounding application.

use vstd::prelude::*;

verus! {

/// What the text sink writes after a pixel's three channels.
#[derive(Clone, Copy, PartialEq, Eq, Structural, Debug)]
pub enum Separator {
    /// Another pixel of the same row follows.
    Space,
    /// The pixel closed its row.
    Newline,
}

/// The sequential-write cursor of the output sink.
///
/// `row` counts finished rows, `col` pixels written in the current row; the
/// image is complete when `row` reaches `height`.
pub struct RasterCursor {
    /// Pixels per row; at least one.
    pub width: usize,
    /// Rows in the image.
    pub height: usize,
    /// The row the next pixel falls in.
    pub row: usize,
    /// The column the next pixel falls in.
    pub col: usize,
}

impl RasterCursor {
    /// The cursor never leaves the raster: the column stays inside the row,
    /// the row stops at `height`, and a complete image rests at column zero.
    pub open spec fn wf(self) -> bool {
        &&& 1 <= self.width
        &&& self.col < self.width
        &&& self.row <= self.height
        &&& (self.row == self.height ==> self.col == 0)
    }

    /// How many pixels the cursor has passed, in raster order.
    pub open spec fn position(self) -> int {
        self.row * self.width + self.col
    }

    /// How many pixels the image takes in all.
    pub open spec fn total(self) -> int {
        self.width * self.height
    }

    /// The position runs from zero to the pixel total, reaching the total
    /// exactly when the image is complete: the sink sees exactly
    /// `width * height` pixels, no more, no fewer.
    pub proof fn lemma_position_bounds(self)
        requires
            self.wf(),
        ensures
            0 <= self.position() <= self.total(),
            self.position() == self.total() <==> self.row == self.height,
    {
        assert(self.row < self.height ==> self.row * self.width + self.col < self.width
            * self.height) by (nonlinear_arith)
            requires
                self.col < self.width,
                self.row <= self.height,
                0 <= self.col,
                0 <= self.row,
                0 <= self.width,
        ;
        assert(self.row == self.height ==> self.position() == self.total()) by (nonlinear_arith)
            requires
                self.row == self.height ==> self.col == 0,
        ;
        assert(0 <= self.row * self.width) by (nonlinear_arith)
            requires
                0 <= self.row,
                0 <= self.width,
        ;
    }

    /// Start a cursor at the top left of a `width` by `height` raster.
    pub fn new(width: usize, height: usize) -> (c: RasterCursor)
        requires
            1 <= width,
        ensures
            c.wf(),
            c.width == width,
            c.height == height,
            c.row == 0,
            c.col == 0,
    {
        RasterCursor { width, height, row: 0, col: 0 }
    }

    /// Whether the image is complete and no further pixel is accepted.
    pub fn done(&self) -> (r: bool)
        requires
            self.wf(),
        ensures
            r == (self.row == self.height),
    {
        self.row == self.height
    }

    /// Pass one pixel and name the separator the writer owes after it.
    ///
    /// A pixel anywhere but at the end of its row is followed by a space;
    /// the last pixel of a row closes it with a newline. Either way the
    /// cursor moves to the next raster position.
    pub fn advance(&mut self) -> (sep: Separator)
        requires
            old(self).wf(),
            old(self).row < old(self).height,
        ensures
            final(self).wf(),
            final(self).width == old(self).width,
            final(self).height == old(self).height,
            final(self).position() == old(self).position() + 1,
            (sep is Newline) == (old(self).col == old(self).width - 1),
            sep is Newline ==> final(self).row == old(self).row + 1 && final(self).col == 0,
            sep is Space ==> final(self).row == old(self).row && final(self).col == old(
                self,
            ).col + 1,
    {
        if self.col < self.width - 1 {
            self.col = self.col + 1;
            Separator::Space
        } else {
            proof {
                let r = old(self).row as int;
                let w = old(self).width as int;
                assert((r + 1) * w == r * w + w) by (nonlinear_arith);
            }
            self.col = 0;
            self.row = self.row + 1;
            Separator::Newline
        }
    }
}

} // verus!
