//! Colours and the contents of one square of the play field.

use vstd::prelude::*;

verus! {

/// Display colour of a block. Each piece kind has one.
#[derive(Clone, Copy, Debug, PartialEq, Eq, Structural)]
pub enum Color {
    Cyan,
    Yellow,
    Purple,
    Green,
    Red,
    Blue,
    Orange,
}

/// One square of the play field: empty, or holding a locked block of some colour.
#[derive(Clone, Copy, Debug, PartialEq, Eq, Structural)]
pub enum Cell {
    Empty,
    Filled(Color),
}

impl Cell {
    /// Whether the square holds a block.
    pub fn is_filled(self) -> (filled: bool)
        ensures
            filled == (self != Cell::Empty),
    {
        match self {
            Cell::Empty => false,
            Cell::Filled(_) => true,
        }
    }
}

} // verus!
