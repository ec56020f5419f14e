use vstd::prelude::*;
use crate::text::clamp_int;

verus! {

/// The terminal's dimensions in cells, as last queried: `(width, height)`.
#[derive(Debug, Clone, Copy)]
pub struct OutputHandler {
    pub size: (u16, u16),
}

/// The 1-based screen cell that shows the 0-based document position `pos`
/// on an axis of `limit` cells.
pub open spec fn screen_cell(pos: int, limit: int) -> int {
    clamp_int(pos + 1, 1, limit)
}

impl OutputHandler {
    pub fn new(size: (u16, u16)) -> (o: OutputHandler)
        ensures
            o.size == size,
    {
        OutputHandler { size }
    }

    /// Brings a 1-based cell position into the terminal's cell range.
    pub fn temp_clamp_coords(&self, x: usize, y: usize) -> (r: (u16, u16))
        requires
            self.size.0 >= 1,
            self.size.1 >= 1,
        ensures
            r.0 as int == clamp_int(x as int, 1, self.size.0 as int),
            r.1 as int == clamp_int(y as int, 1, self.size.1 as int),
    {
        (clamp_cell(x, self.size.0), clamp_cell(y, self.size.1))
    }

    /// The screen cell of the document position at column `col` and row
    /// `row`, for a viewport whose top-left cell shows the document origin.
    pub fn project(&self, col: usize, row: usize) -> (r: (u16, u16))
        requires
            self.size.0 >= 1,
            self.size.1 >= 1,
        ensures
            r.0 as int == screen_cell(col as int, self.size.0 as int),
            r.1 as int == screen_cell(row as int, self.size.1 as int),
            r.0 >= 1,
            r.1 >= 1,
    {
        let x: u16 = if col >= self.size.0 as usize {
            self.size.0
        } else {
            (col + 1) as u16
        };
        let y: u16 = if row >= self.size.1 as usize {
            self.size.1
        } else {
            (row + 1) as u16
        };
        (x, y)
    }
}

fn clamp_cell(v: usize, limit: u16) -> (r: u16)
    requires
        limit >= 1,
    ensures
        r as int == clamp_int(v as int, 1, limit as int),
{
    if v < 1 {
        1
    } else if v > limit as usize {
        limit
    } else {
        v as u16
    }
}

} // verus!
