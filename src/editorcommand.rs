use crate::geometry::Size;
use vstd::prelude::*;

verus! {

/// A direction the cursor can move in.
#[derive(Clone, Copy, PartialEq, Eq, Structural, Debug)]
pub enum Direction {
    Up,
    Left,
    Right,
    Down,
}

/// A decoded input event.
#[derive(Clone, Copy, PartialEq, Eq, Structural, Debug)]
pub enum EditorCommand {
    Move(Direction),
    Resize(Size),
    Quit,
}

} // verus!
