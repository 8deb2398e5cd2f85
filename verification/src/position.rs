//! The cursor: a column within the logical line and a terminal row.

use vstd::prelude::*;

verus! {

/// Where the cursor is. The column counts characters from the start of the
/// logical line and leaves the prompt out; the row is a terminal row.
#[derive(Debug)]
pub struct Position {
    x: u16,
    y: u16,
}

impl Position {
    /// The column, as a number.
    pub closed spec fn column(&self) -> nat {
        self.x as nat
    }

    /// The row, as a number.
    pub closed spec fn row(&self) -> nat {
        self.y as nat
    }

    pub(crate) fn new(x: u16, y: u16) -> (p: Position)
        ensures
            p.column() == x,
            p.row() == y,
    {
        Position { x, y }
    }

    pub fn x(&self) -> (x: u16)
        ensures
            x == self.column(),
    {
        self.x
    }

    pub fn set_x(&mut self, x: u16)
        ensures
            final(self).column() == x,
            final(self).row() == old(self).row(),
    {
        self.x = x;
    }

    pub fn set_y(&mut self, y: u16)
        ensures
            final(self).column() == old(self).column(),
            final(self).row() == y,
    {
        self.y = y;
    }

    pub fn y(&self) -> (y: u16)
        ensures
            y == self.row(),
    {
        self.y
    }

    /// One column to the left; at column 0 the cursor stays.
    pub fn move_left(&mut self)
        ensures
            final(self).column() == if old(self).column() > 0 {
                old(self).column() - 1
            } else {
                0
            },
            final(self).row() == old(self).row(),
    {
        if self.x > 0 {
            self.x -= 1;
        }
    }

    /// One column to the right. The line, not the cursor, knows where the
    /// text ends, so no ceiling but the width of the integer applies.
    pub fn move_right(&mut self)
        requires
            old(self).column() < u16::MAX,
        ensures
            final(self).column() == old(self).column() + 1,
            final(self).row() == old(self).row(),
    {
        self.x += 1;
    }

    /// One row down.
    pub fn down(&mut self)
        requires
            old(self).row() < u16::MAX,
        ensures
            final(self).column() == old(self).column(),
            final(self).row() == old(self).row() + 1,
    {
        self.y += 1;
    }
}

} // verus!
