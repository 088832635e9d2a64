use vstd::prelude::*;

verus! {

/// `a + b`, or the largest `usize` where that overflows.
pub open spec fn sat_add(a: usize, b: usize) -> usize {
    if a + b > usize::MAX {
        usize::MAX
    } else {
        (a + b) as usize
    }
}

/// `a - b`, or zero where that would be negative.
pub open spec fn sat_sub(a: usize, b: usize) -> usize {
    if a < b {
        0
    } else {
        (a - b) as usize
    }
}

/// The dimensions of the viewport, in terminal columns and rows.
#[derive(Clone, Copy, PartialEq, Eq, Structural, Debug)]
pub struct Size {
    pub width: usize,
    pub height: usize,
}

impl Default for Size {
    fn default() -> (r: Self)
        ensures
            r.width == 0 && r.height == 0,
    {
        Size { width: 0, height: 0 }
    }
}

/// A cell on screen: column and row.
#[derive(Clone, Copy, PartialEq, Eq, Structural, Debug)]
pub struct Position {
    pub col: usize,
    pub row: usize,
}

impl Default for Position {
    fn default() -> (r: Self)
        ensures
            r.col == 0 && r.row == 0,
    {
        Position { col: 0, row: 0 }
    }
}

/// A place in the text: grapheme column `x` and line `y`.
#[derive(Clone, Copy, PartialEq, Eq, Structural, Debug)]
pub struct Location {
    pub x: usize,
    pub y: usize,
}

impl Default for Location {
    fn default() -> (r: Self)
        ensures
            r.x == 0 && r.y == 0,
    {
        Location { x: 0, y: 0 }
    }
}

impl Location {
    /// The component-wise difference, each component stopping at zero.
    pub fn subtract(&self, other: &Location) -> (r: Location)
        ensures
            r.x == sat_sub(self.x, other.x),
            r.y == sat_sub(self.y, other.y),
    {
        Location { x: self.x.saturating_sub(other.x), y: self.y.saturating_sub(other.y) }
    }
}

impl From<Location> for Position {
    fn from(location: Location) -> (r: Position)
        ensures
            r.col == location.x && r.row == location.y,
    {
        Position { col: location.x, row: location.y }
    }
}

impl vstd::std_specs::convert::FromSpecImpl<Location> for Position {
    open spec fn obeys_from_spec() -> bool {
        true
    }

    open spec fn from_spec(location: Location) -> Position {
        Position { col: location.x, row: location.y }
    }
}

} // verus!
