//! The ways in which an operation of the engine can be refused.

use vstd::prelude::*;

verus! {

/// Why an operation was refused.
#[derive(Clone, Copy, Debug, PartialEq, Eq, Structural)]
pub enum EngineError {
    /// A square outside the field was addressed.
    OutOfBounds,
    /// A rotation found no kick at which the piece fits; the piece stays as it was.
    RotationRejected,
    /// The next piece does not fit at its spawn position; the game is over.
    SpawnBlocked,
}

} // verus!
