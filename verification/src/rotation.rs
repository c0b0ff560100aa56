//! The four rotation states of a piece and the cyclic order between them.

use vstd::prelude::*;

verus! {

/// Orientation of a piece, in clockwise order.
#[derive(Clone, Copy, Debug, PartialEq, Eq, Structural)]
pub enum RotationState {
    R0,
    R90,
    R180,
    R270,
}

impl RotationState {
    /// Position of the state in the clockwise cycle, starting from `R0`.
    pub open spec fn index(self) -> int {
        match self {
            RotationState::R0 => 0,
            RotationState::R90 => 1,
            RotationState::R180 => 2,
            RotationState::R270 => 3,
        }
    }

    /// The state at position `i` of the clockwise cycle, taken modulo four.
    pub open spec fn at(i: int) -> RotationState {
        let k = i % 4;
        if k == 0 {
            RotationState::R0
        } else if k == 1 {
            RotationState::R90
        } else if k == 2 {
            RotationState::R180
        } else {
            RotationState::R270
        }
    }

    /// The next state clockwise.
    pub fn cw(self) -> (next: RotationState)
        ensures
            next == RotationState::at(self.index() + 1),
    {
        match self {
            RotationState::R0 => RotationState::R90,
            RotationState::R90 => RotationState::R180,
            RotationState::R180 => RotationState::R270,
            RotationState::R270 => RotationState::R0,
        }
    }

    /// The next state counter-clockwise.
    pub fn ccw(self) -> (next: RotationState)
        ensures
            next == RotationState::at(self.index() + 3),
    {
        match self {
            RotationState::R0 => RotationState::R270,
            RotationState::R90 => RotationState::R0,
            RotationState::R180 => RotationState::R90,
            RotationState::R270 => RotationState::R180,
        }
    }
}

} // verus!
