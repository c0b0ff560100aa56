//! Setting a game up: the builder and the game it builds.

use vstd::prelude::*;
use crate::grid::Field;
use crate::session::{GameSession, SessionModel};

verus! {

/// Number of columns of the field of a game.
pub const GRID_COLUMNS: u16 = 10;

/// Number of rows of the field of a game.
pub const GRID_ROWS: u16 = 20;

/// Builds a game.
pub struct KarpasBuilder;

impl KarpasBuilder {
    /// Builds the game. This always succeeds.
    pub fn build(self) -> (result: Result<Karpas, ()>)
        ensures
            result is Ok,
    {
        return Ok(Karpas);
    }
}

/// A game that is set up and waits to be started.
pub struct Karpas;

impl Karpas {
    /// Starts a session of the game: an empty field of `GRID_COLUMNS` by
    /// `GRID_ROWS` squares, the order of pieces that `seed` gives, and the first
    /// piece in the field.
    pub fn session(&self, seed: u64) -> (session: GameSession)
        ensures
            session.wf(),
            session@ == SessionModel::opening(
                Field::empty(GRID_COLUMNS as int, GRID_ROWS as int),
                seed,
            ),
    {
        GameSession::new(GRID_COLUMNS, GRID_ROWS, seed)
    }
}

} // verus!
