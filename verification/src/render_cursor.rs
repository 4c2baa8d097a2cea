//! The insertion point for flowed content: a pair of pixel coordinates that
//! the pipeline resets at the start of a pass and advances at each flush.

use vstd::prelude::*;

verus! {

/// Tracks where the next flushed block is placed inside the viewport.
pub struct RenderCursor {
    pub x: u64,
    pub y: u64,
}

impl RenderCursor {
    /// A cursor at the top-left origin.
    pub fn new() -> (c: Self)
        ensures
            c.x == 0,
            c.y == 0,
    {
        Self { x: 0, y: 0 }
    }

    /// Move the cursor to the absolute position `(x, y)`.
    pub fn move_to(&mut self, x: u64, y: u64)
        ensures
            final(self).x == x,
            final(self).y == y,
    {
        self.x = x;
        self.y = y;
    }

    /// Advance the cursor by `(dx, dy)`, i.e. cursor += (dx, dy).
    pub fn adjust(&mut self, dx: u64, dy: u64)
        requires
            old(self).x + dx <= u64::MAX,
            old(self).y + dy <= u64::MAX,
        ensures
            final(self).x == old(self).x + dx,
            final(self).y == old(self).y + dy,
    {
        self.x = self.x + dx;
        self.y = self.y + dy;
    }
}

} // verus!
