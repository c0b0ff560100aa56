//! Core of a falling-block puzzle: the play field, the seven pieces, collision,
//! rotation with wall kicks, gravity and locking, row clearing, and the game that
//! ties them together.
//!
//! Each module that holds executable code states what its functions do over a
//! mathematical model: `grid::Field` for the field, `bag::QueueModel` for the queue
//! of pieces, `session::SessionModel` for a game. The modules `clearing`, `motion`,
//! `draws` and `play` hold what is proved of those models.

pub mod active;
pub mod bag;
pub mod boot;
pub mod cell;
pub mod clearing;
pub mod command;
pub mod draws;
pub mod error;
pub mod grid;
pub mod kick;
pub mod lock;
pub mod motion;
pub mod piece;
pub mod play;
pub mod rotation;
pub mod session;
