//! Gravity and lock delay: the life of a piece from falling, through resting on a
//! surface, to being locked.
//!
//! Time is counted in units that the caller chooses; the constants below are laid
//! out for sixty units to the second and follow the published guideline. A falling
//! piece goes down one row each time `GRAVITY_INTERVAL` units have passed; one
//! tick brings at most one such step, however long it is, and what it has over
//! is dropped. A falling piece that cannot go down has landed, and every landing
//! starts the full `LOCK_DELAY`; the piece is locked once the delay has passed.
//!
//! A sideways move or a turn that succeeds while the piece is landed starts the
//! delay afresh, and lets the piece fall again where it has left the surface. Each
//! such step uses up one reset, and one piece has `MAX_LOCK_RESETS` of them. When
//! they are used up a step changes nothing any more: the piece stays landed, its
//! delay runs on, and when it is over the piece is locked where it comes to rest.
//! So a piece spends at most `(MAX_LOCK_RESETS + 1) * LOCK_DELAY` units landed:
//! that is its patience, which no step and no landing makes longer.

use vstd::prelude::*;

verus! {

/// Time units between two steps of gravity: one row a second.
pub const GRAVITY_INTERVAL: u32 = 60;

/// Time units between landing and locking: half a second.
pub const LOCK_DELAY: u32 = 30;

/// How often one piece can start its lock delay afresh.
pub const MAX_LOCK_RESETS: u32 = 15;

/// Where a piece is in its life.
#[derive(Clone, Copy, Debug, PartialEq, Eq, Structural)]
pub enum LockState {
    /// The piece is free to go down.
    Falling,
    /// The piece has landed; `timer` units are left until it is locked.
    Landed { timer: u32 },
    /// The piece is to be written into the field.
    Locked,
}

/// What the passing of time brings for a piece.
#[derive(Clone, Copy, Debug, PartialEq, Eq, Structural)]
pub enum Due {
    /// Nothing happens to the piece.
    Nothing,
    /// The piece is to try to go down one row.
    Gravity,
    /// The lock delay is over: the piece is to be locked where it comes to rest.
    Lock,
}

/// The lock state of a piece together with its clocks.
#[derive(Clone, Copy, Debug, PartialEq, Eq, Structural)]
pub struct LockController {
    /// Where the piece is in its life.
    pub state: LockState,
    /// How many of its resets the piece has used.
    pub resets: u32,
    /// Time units gone by since the last step of gravity.
    pub gravity_clock: u32,
}

impl LockController {
    /// The controller of a piece that has just entered the field.
    pub open spec fn fresh() -> LockController {
        LockController { state: LockState::Falling, resets: 0, gravity_clock: 0 }
    }

    /// No more resets are used than there are, and no delay is longer than the
    /// full one.
    pub open spec fn wf(self) -> bool {
        &&& self.resets <= MAX_LOCK_RESETS
        &&& (self.state matches LockState::Landed { timer } ==> timer <= LOCK_DELAY)
    }

    /// After an attempt to go down one row. A falling piece that could not go down
    /// has landed and its lock delay starts, in full, however many resets it has
    /// used; everything else stays as it is.
    pub open spec fn after_down(self, moved: bool) -> LockController {
        if self.state == LockState::Falling && !moved {
            LockController {
                state: LockState::Landed { timer: LOCK_DELAY },
                resets: self.resets,
                gravity_clock: 0,
            }
        } else {
            self
        }
    }

    /// After a sideways move or a turn that succeeded. A landed piece with a reset
    /// left uses one: its delay starts afresh, and where it no longer rests on
    /// anything it falls again. With no reset left, and for a piece that is not
    /// landed, nothing changes. `grounded` says whether the piece, where it now
    /// stands, cannot go down.
    pub open spec fn after_step(self, grounded: bool) -> LockController {
        if self.state is Landed && self.resets < MAX_LOCK_RESETS {
            LockController {
                state: if grounded {
                    LockState::Landed { timer: LOCK_DELAY }
                } else {
                    LockState::Falling
                },
                resets: (self.resets + 1) as u32,
                gravity_clock: 0,
            }
        } else {
            self
        }
    }

    /// After a hard drop: the piece is locked at once.
    pub open spec fn after_hard_drop(self) -> LockController {
        LockController { state: LockState::Locked, resets: self.resets, gravity_clock: 0 }
    }

    /// What `elapsed` more units of time bring: a step of gravity for a falling
    /// piece whose interval is over, the lock for a landed piece whose delay is
    /// over.
    pub open spec fn due(self, elapsed: u32) -> Due {
        match self.state {
            LockState::Falling => if self.gravity_clock + elapsed >= GRAVITY_INTERVAL {
                Due::Gravity
            } else {
                Due::Nothing
            },
            LockState::Landed { timer } => if timer <= elapsed {
                Due::Lock
            } else {
                Due::Nothing
            },
            LockState::Locked => Due::Nothing,
        }
    }

    /// After `elapsed` units of time. The gravity clock of a falling piece runs on,
    /// and starts again from zero when a step of gravity is due. The delay of a
    /// landed piece runs down, and the piece is locked when nothing is left of it.
    pub open spec fn after_time(self, elapsed: u32) -> LockController {
        match self.state {
            LockState::Falling => LockController {
                state: self.state,
                resets: self.resets,
                gravity_clock: if self.gravity_clock + elapsed >= GRAVITY_INTERVAL {
                    0
                } else {
                    (self.gravity_clock + elapsed) as u32
                },
            },
            LockState::Landed { timer } => LockController {
                state: if timer <= elapsed {
                    LockState::Locked
                } else {
                    LockState::Landed { timer: (timer - elapsed) as u32 }
                },
                resets: self.resets,
                gravity_clock: self.gravity_clock,
            },
            LockState::Locked => self,
        }
    }

    /// The time that the piece can still spend landed before it is locked, at the
    /// most: what is left of its delay, a full delay for each reset it has left,
    /// and, while it falls, the delay of the landing to come.
    pub open spec fn patience(self) -> int {
        match self.state {
            LockState::Falling => (MAX_LOCK_RESETS - self.resets + 1) * LOCK_DELAY,
            LockState::Landed { timer } => timer + (MAX_LOCK_RESETS - self.resets) * LOCK_DELAY,
            LockState::Locked => 0,
        }
    }

    /// The controller of a piece that has just entered the field: falling, with no
    /// reset used and both clocks at zero.
    pub fn new() -> (controller: LockController)
        ensures
            controller == LockController::fresh(),
    {
        LockController { state: LockState::Falling, resets: 0, gravity_clock: 0 }
    }

    /// Takes note of an attempt to go down one row, by gravity or by a soft drop.
    pub fn on_down(self, moved: bool) -> (next: LockController)
        ensures
            next == self.after_down(moved),
    {
        match self.state {
            LockState::Falling => {
                if moved {
                    self
                } else {
                    LockController {
                        state: LockState::Landed { timer: LOCK_DELAY },
                        resets: self.resets,
                        gravity_clock: 0,
                    }
                }
            },
            _ => self,
        }
    }

    /// Takes note of a sideways move or a turn that succeeded.
    pub fn on_step(self, grounded: bool) -> (next: LockController)
        ensures
            next == self.after_step(grounded),
    {
        match self.state {
            LockState::Landed { timer: _ } => {
                if self.resets < MAX_LOCK_RESETS {
                    let state = if grounded {
                        LockState::Landed { timer: LOCK_DELAY }
                    } else {
                        LockState::Falling
                    };
                    LockController { state, resets: self.resets + 1, gravity_clock: 0 }
                } else {
                    self
                }
            },
            _ => self,
        }
    }

    /// Takes note of a hard drop.
    pub fn on_hard_drop(self) -> (next: LockController)
        ensures
            next == self.after_hard_drop(),
    {
        LockController { state: LockState::Locked, resets: self.resets, gravity_clock: 0 }
    }

    /// Lets `elapsed` units of time pass. Returns the controller after them and
    /// what they bring for the piece.
    pub fn on_time(self, elapsed: u32) -> (next: (LockController, Due))
        ensures
            next.0 == self.after_time(elapsed),
            next.1 == self.due(elapsed),
    {
        match self.state {
            LockState::Falling => {
                if elapsed >= GRAVITY_INTERVAL || self.gravity_clock >= GRAVITY_INTERVAL - elapsed {
                    (
                        LockController { state: self.state, resets: self.resets, gravity_clock: 0 },
                        Due::Gravity,
                    )
                } else {
                    (
                        LockController {
                            state: self.state,
                            resets: self.resets,
                            gravity_clock: self.gravity_clock + elapsed,
                        },
                        Due::Nothing,
                    )
                }
            },
            LockState::Landed { timer } => {
                if timer <= elapsed {
                    (
                        LockController {
                            state: LockState::Locked,
                            resets: self.resets,
                            gravity_clock: self.gravity_clock,
                        },
                        Due::Lock,
                    )
                } else {
                    (
                        LockController {
                            state: LockState::Landed { timer: timer - elapsed },
                            resets: self.resets,
                            gravity_clock: self.gravity_clock,
                        },
                        Due::Nothing,
                    )
                }
            },
            LockState::Locked => (self, Due::Nothing),
        }
    }
}

/// Whatever happens to a piece leaves its controller well formed: the resets it has
/// used never go down and never pass `MAX_LOCK_RESETS`, and no delay is longer
/// than `LOCK_DELAY`.
pub proof fn law_resets_are_bounded(controller: LockController, moved: bool, grounded: bool, elapsed: u32)
    requires
        controller.wf(),
    ensures
        controller.after_step(grounded).wf(),
        controller.after_down(moved).wf(),
        controller.after_time(elapsed).wf(),
        controller.after_hard_drop().wf(),
        controller.resets <= controller.after_step(grounded).resets,
        controller.after_down(moved).resets == controller.resets,
        controller.after_time(elapsed).resets == controller.resets,
        controller.after_hard_drop().resets == controller.resets,
{
}

/// Every landing starts the full lock delay: a falling piece that cannot go down
/// is landed with `LOCK_DELAY` units to go, however many resets it has used, and
/// one that can go down keeps falling.
pub proof fn law_landing_starts_the_delay(controller: LockController)
    requires
        controller.state == LockState::Falling,
    ensures
        controller.after_down(false).state == (LockState::Landed { timer: LOCK_DELAY }),
        controller.after_down(false).resets == controller.resets,
        controller.after_down(true) == controller,
{
}

/// The delay of a landed piece runs down with the time that passes and the piece
/// is locked exactly when nothing is left of it.
pub proof fn law_delay_runs_out(controller: LockController, elapsed: u32)
    requires
        controller.state is Landed,
    ensures
        controller.state->timer <= elapsed ==> controller.after_time(elapsed).state
            == LockState::Locked && controller.due(elapsed) == Due::Lock,
        controller.state->timer > elapsed ==> controller.after_time(elapsed).state
            == (LockState::Landed { timer: (controller.state->timer - elapsed) as u32 })
            && controller.due(elapsed) == Due::Nothing,
{
}

/// A landed piece with no reset left can do nothing for itself: a step leaves its
/// controller as it is, so that it neither falls again nor gains time.
pub proof fn law_no_reset_no_way_back(controller: LockController, grounded: bool)
    requires
        controller.state is Landed,
        controller.resets >= MAX_LOCK_RESETS,
    ensures
        controller.after_step(grounded) == controller,
{
}

/// A piece cannot put off its lock for ever. Its patience, which begins at
/// `(MAX_LOCK_RESETS + 1) * LOCK_DELAY`, is never made longer by anything that
/// happens to it, and while the piece is landed the time that passes is taken off
/// it until the piece is locked.
pub proof fn law_patience_runs_out(controller: LockController, moved: bool, grounded: bool, elapsed: u32)
    requires
        controller.wf(),
    ensures
        LockController::fresh().patience() == (MAX_LOCK_RESETS + 1) * LOCK_DELAY,
        0 <= controller.patience(),
        controller.after_down(moved).patience() <= controller.patience(),
        controller.after_step(grounded).patience() <= controller.patience(),
        controller.after_hard_drop().patience() <= controller.patience(),
        controller.after_time(elapsed).patience() <= controller.patience(),
        controller.state is Landed && controller.after_time(elapsed).state is Landed
            ==> controller.after_time(elapsed).patience() == controller.patience() - elapsed,
        controller.state is Landed ==> controller.state->timer <= controller.patience(),
{
    assert((MAX_LOCK_RESETS - controller.resets) * LOCK_DELAY >= 0) by (nonlinear_arith)
        requires
            controller.resets <= MAX_LOCK_RESETS,
    ;
}

} // verus!
