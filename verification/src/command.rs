//! The commands a player can give, and which of several queued commands is applied.

use vstd::prelude::*;

verus! {

/// What the player asks for in one tick.
#[derive(Clone, Copy, Debug, PartialEq, Eq, Structural)]
pub enum Command {
    MoveLeft,
    MoveRight,
    RotateCW,
    RotateCCW,
    SoftDrop,
    HardDrop,
    Hold,
    /// No command.
    Idle,
}

/// The command that a tick applies: the last of those queued, `Idle` when none is
/// queued.
pub open spec fn selected(queued: Seq<Command>) -> Command {
    if queued.len() == 0 {
        Command::Idle
    } else {
        queued[queued.len() - 1]
    }
}

/// Picks the command to apply in a tick from those queued since the tick before:
/// the last one wins, and an empty queue gives `Command::Idle`.
pub fn select_command(queued: &Vec<Command>) -> (command: Command)
    ensures
        command == selected(queued@),
{
    if queued.len() == 0 {
        Command::Idle
    } else {
        queued[queued.len() - 1]
    }
}

} // verus!
