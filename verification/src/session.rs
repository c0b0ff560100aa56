//! A game: the field, the falling piece, its lock state, the queue of pieces to
//! come and the flag that ends it, moved forward one tick at a time.
//!
//! `SessionModel` is the mathematical model of a game and `SessionModel::step`
//! says what one tick does to it. Within a tick the command is applied first,
//! then time passes and gravity acts, and last a locked piece is written into the
//! field, full rows are cleared and the next piece enters.

use vstd::prelude::*;
use crate::active::{lemma_fit_bounds, spawn, ActivePiece, Position, Shift, Spin};
use crate::bag::{PieceQueue, QueueModel};
use crate::cell::{Cell, Color};
use crate::command::{select_command, selected, Command};
use crate::grid::{Field, Grid};
use crate::lock::{Due, LockController, LockState, MAX_LOCK_RESETS};
use crate::motion::{law_drop_rests, law_turn_result};
use crate::piece::{color_of, shape, PieceKind};

verus! {

/// No falling piece ever has its anchor above this row.
pub const TOP_ANCHOR_ROW: i32 = -5;

/// The falling piece together with its lock state.
#[derive(Clone, Copy, Debug, PartialEq, Eq, Structural)]
pub struct Phase {
    pub piece: ActivePiece,
    pub lock: LockController,
}

/// Whether the piece rests on something: it cannot go down one row.
pub open spec fn grounded(field: Field, piece: ActivePiece) -> bool {
    piece.shifted(field, Shift::Down) is None
}

impl Phase {
    /// What the tick counts on between its steps: the piece fits and stands no
    /// higher than `TOP_ANCHOR_ROW`, its controller is well formed, and while it is
    /// landed with a reset left it rests on something.
    pub open spec fn sound(self, field: Field) -> bool {
        &&& !self.piece.collides_in(field)
        &&& self.piece.anchor.row >= TOP_ANCHOR_ROW
        &&& self.lock.wf()
        &&& (self.lock.state is Landed && self.lock.resets < MAX_LOCK_RESETS ==> grounded(
            field,
            self.piece,
        ))
    }

    /// After an attempt to move one square sideways.
    pub open spec fn after_move(self, field: Field, shift: Shift) -> Phase {
        match self.piece.shifted(field, shift) {
            Some(piece) => Phase { piece, lock: self.lock.after_step(grounded(field, piece)) },
            None => self,
        }
    }

    /// After an attempt to turn a quarter.
    pub open spec fn after_turn(self, field: Field, spin: Spin) -> Phase {
        match self.piece.rotated(field, spin) {
            Ok(piece) => Phase { piece, lock: self.lock.after_step(grounded(field, piece)) },
            Err(_) => self,
        }
    }

    /// After an attempt to go down one row, by gravity or by a soft drop.
    pub open spec fn after_fall(self, field: Field) -> Phase {
        match self.piece.shifted(field, Shift::Down) {
            Some(piece) => Phase { piece, lock: self.lock.after_down(true) },
            None => Phase { piece: self.piece, lock: self.lock.after_down(false) },
        }
    }

    /// After a hard drop: the piece rests as far down as it can go and is locked.
    pub open spec fn after_hard_drop(self, field: Field) -> Phase {
        Phase { piece: self.piece.dropped(field), lock: self.lock.after_hard_drop() }
    }

    /// After the command of a tick is applied. `Hold` and `Idle` leave the piece
    /// as it is: a game keeps no piece in reserve.
    pub open spec fn after_command(self, field: Field, command: Command) -> Phase {
        match command {
            Command::MoveLeft => self.after_move(field, Shift::Left),
            Command::MoveRight => self.after_move(field, Shift::Right),
            Command::RotateCW => self.after_turn(field, Spin::Clockwise),
            Command::RotateCCW => self.after_turn(field, Spin::CounterClockwise),
            Command::SoftDrop => self.after_fall(field),
            Command::HardDrop => self.after_hard_drop(field),
            Command::Hold => self,
            Command::Idle => self,
        }
    }

    /// After `elapsed` units of time have passed, with what they bring: a step of
    /// gravity for a falling piece, and for a landed piece whose delay is over
    /// the lock, where it comes to rest.
    pub open spec fn after_clock(self, field: Field, elapsed: u32) -> Phase {
        let timed = Phase { piece: self.piece, lock: self.lock.after_time(elapsed) };
        match self.lock.due(elapsed) {
            Due::Gravity => timed.after_fall(field),
            Due::Lock => Phase { piece: self.piece.dropped(field), lock: timed.lock },
            Due::Nothing => timed,
        }
    }
}

/// Model of a game.
pub struct SessionModel {
    pub field: Field,
    pub piece: Option<ActivePiece>,
    pub lock: LockController,
    pub queue: QueueModel,
    pub game_over: bool,
}

impl SessionModel {
    /// The invariant of a game. While it runs there is a falling piece, which is
    /// sound and not yet locked; when it is over there is none.
    pub open spec fn wf(self) -> bool {
        &&& self.field.wf()
        &&& self.queue.wf()
        &&& (self.game_over ==> self.piece is None)
        &&& (!self.game_over ==> self.piece is Some && self.lock.state != LockState::Locked && (Phase {
            piece: self.piece->Some_0,
            lock: self.lock,
        }).sound(self.field))
    }

    /// The game after the next piece of `queue` has tried to enter `field`: running
    /// with that piece where it fits, over where it does not.
    pub open spec fn entered(field: Field, queue: QueueModel) -> SessionModel {
        let piece = ActivePiece::entering(queue.upcoming(0), field.width);
        let blocked = piece.collides_in(field);
        SessionModel {
            field,
            piece: if blocked {
                None
            } else {
                Some(piece)
            },
            lock: LockController::fresh(),
            queue: queue.after_draw(),
            game_over: blocked,
        }
    }

    /// The game as it begins on `field` with the order of pieces that `seed` gives.
    pub open spec fn opening(field: Field, seed: u64) -> SessionModel {
        SessionModel::entered(field, QueueModel::fresh(seed))
    }

    /// The piece and its lock state after the command and the clock of a tick.
    pub open spec fn moved(self, command: Command, elapsed: u32) -> Phase {
        (Phase { piece: self.piece->Some_0, lock: self.lock }).after_command(
            self.field,
            command,
        ).after_clock(self.field, elapsed)
    }

    /// Whether the tick locks the piece.
    pub open spec fn locks(self, command: Command, elapsed: u32) -> bool {
        !self.game_over && self.piece is Some && self.moved(command, elapsed).lock.state
            == LockState::Locked
    }

    /// The field with the piece that the tick locks written into it, before any row
    /// is cleared.
    pub open spec fn locked_field(self, command: Command, elapsed: u32) -> Field {
        self.moved(command, elapsed).piece.merged_into(self.field)
    }

    /// The game after one tick. A game that is over stays as it is.
    pub open spec fn step(self, command: Command, elapsed: u32) -> SessionModel {
        if self.game_over || self.piece is None {
            self
        } else if self.locks(command, elapsed) {
            SessionModel::entered(self.locked_field(command, elapsed).without_full_rows(), self.queue)
        } else {
            SessionModel {
                field: self.field,
                piece: Some(self.moved(command, elapsed).piece),
                lock: self.moved(command, elapsed).lock,
                queue: self.queue,
                game_over: false,
            }
        }
    }

    /// The number of rows that the tick clears.
    pub open spec fn rows_cleared(self, command: Command, elapsed: u32) -> int {
        if self.locks(command, elapsed) {
            self.locked_field(command, elapsed).full_rows().len() as int
        } else {
            0
        }
    }
}

/// The squares of the falling piece and their colour, as a renderer needs them.
#[derive(Clone, Copy, Debug)]
pub struct ActiveSquares {
    pub squares: [Position; 4],
    pub color: Color,
}

/// What a renderer may see of a game between two ticks.
#[derive(Clone, Debug)]
pub struct Snapshot {
    /// The squares of the field, row by row from the top.
    pub cells: Vec<Vec<Cell>>,
    /// The falling piece, if there is one.
    pub active: Option<ActiveSquares>,
    /// The kind of the piece that enters next.
    pub next: PieceKind,
    /// Whether the game is over.
    pub game_over: bool,
}

impl ActiveSquares {
    /// Whether these are the squares and the colour of `piece`.
    pub open spec fn shows(self, piece: ActivePiece) -> bool {
        &&& self.color == color_of(piece.kind)
        &&& forall|i: int|
            0 <= i < 4 ==> (#[trigger] self.squares@[i]).col == piece.anchor.col + shape(
                piece.kind,
                piece.rotation,
            )[i].dx && self.squares@[i].row == piece.anchor.row + shape(
                piece.kind,
                piece.rotation,
            )[i].dy
    }
}

impl Snapshot {
    /// Whether the snapshot shows the game `model`.
    pub open spec fn shows(self, model: SessionModel) -> bool {
        &&& self.cells@.len() == model.field.height()
        &&& forall|r: int| 0 <= r < self.cells@.len() ==> (#[trigger] self.cells@[r])@ == model.field.rows[r]
        &&& (model.piece is None ==> self.active is None)
        &&& (model.piece is Some ==> self.active is Some && self.active->Some_0.shows(
            model.piece->Some_0,
        ))
        &&& self.next == model.queue.upcoming(0)
        &&& self.game_over == model.game_over
    }
}

/// What a tick reports.
#[derive(Clone, Debug)]
pub struct TickReport {
    /// The game as it stands after the tick.
    pub snapshot: Snapshot,
    /// The number of rows that the tick cleared.
    pub rows_cleared: usize,
    /// Whether the game ended in this tick.
    pub game_over_raised: bool,
}

/// A sideways move or a turn leaves a sound piece sound.
proof fn lemma_step_keeps_sound(field: Field, phase: Phase, piece: ActivePiece)
    requires
        phase.sound(field),
        !piece.collides_in(field),
        piece.anchor.row >= TOP_ANCHOR_ROW,
    ensures
        (Phase { piece, lock: phase.lock.after_step(grounded(field, piece)) }).sound(field),
{
}

/// An attempt to go down leaves a sound piece sound.
proof fn lemma_fall_keeps_sound(field: Field, phase: Phase)
    requires
        field.wf(),
        phase.sound(field),
    ensures
        phase.after_fall(field).sound(field),
{
    let col = phase.piece.anchor.col as int;
    let row = phase.piece.anchor.row as int;
    if phase.piece.shifted(field, Shift::Down) is Some {
        lemma_fit_bounds(field, phase.piece.kind, phase.piece.rotation, col, row + 1);
    }
}

/// The command of a tick leaves a sound piece sound.
pub proof fn lemma_command_keeps_sound(field: Field, phase: Phase, command: Command)
    requires
        field.wf(),
        phase.sound(field),
    ensures
        phase.after_command(field, command).sound(field),
{
    let piece = phase.piece;
    let col = piece.anchor.col as int;
    let row = piece.anchor.row as int;
    match command {
        Command::MoveLeft => {
            if piece.shifted(field, Shift::Left) is Some {
                lemma_fit_bounds(field, piece.kind, piece.rotation, col - 1, row);
                lemma_step_keeps_sound(field, phase, piece.shifted(field, Shift::Left)->Some_0);
            }
        },
        Command::MoveRight => {
            if piece.shifted(field, Shift::Right) is Some {
                lemma_fit_bounds(field, piece.kind, piece.rotation, col + 1, row);
                lemma_step_keeps_sound(field, phase, piece.shifted(field, Shift::Right)->Some_0);
            }
        },
        Command::RotateCW => {
            if piece.rotated(field, Spin::Clockwise) is Ok {
                law_turn_result(field, piece, Spin::Clockwise);
                lemma_step_keeps_sound(field, phase, piece.rotated(field, Spin::Clockwise)->Ok_0);
            }
        },
        Command::RotateCCW => {
            if piece.rotated(field, Spin::CounterClockwise) is Ok {
                law_turn_result(field, piece, Spin::CounterClockwise);
                lemma_step_keeps_sound(
                    field,
                    phase,
                    piece.rotated(field, Spin::CounterClockwise)->Ok_0,
                );
            }
        },
        Command::SoftDrop => {
            lemma_fall_keeps_sound(field, phase);
        },
        Command::HardDrop => {
            law_drop_rests(field, piece.kind, piece.rotation, col, row);
            lemma_fit_bounds(field, piece.kind, piece.rotation, col, row);
        },
        Command::Hold => {},
        Command::Idle => {},
    }
}

/// The clock of a tick leaves a sound piece sound.
pub proof fn lemma_clock_keeps_sound(field: Field, phase: Phase, elapsed: u32)
    requires
        field.wf(),
        phase.sound(field),
    ensures
        phase.after_clock(field, elapsed).sound(field),
{
    let timed = Phase { piece: phase.piece, lock: phase.lock.after_time(elapsed) };
    let col = phase.piece.anchor.col as int;
    let row = phase.piece.anchor.row as int;
    match phase.lock.due(elapsed) {
        Due::Gravity => {
            lemma_fall_keeps_sound(field, timed);
        },
        Due::Lock => {
            law_drop_rests(field, phase.piece.kind, phase.piece.rotation, col, row);
            lemma_fit_bounds(field, phase.piece.kind, phase.piece.rotation, col, row);
        },
        Due::Nothing => {},
    }
}

fn is_grounded(grid: &Grid, piece: &ActivePiece) -> (resting: bool)
    requires
        grid.wf(),
    ensures
        resting == grounded(grid@, *piece),
{
    piece.shift(grid, Shift::Down).is_none()
}

impl Phase {
    fn apply_move(self, grid: &Grid, shift: Shift) -> (next: Phase)
        requires
            grid.wf(),
        ensures
            next == self.after_move(grid@, shift),
    {
        match self.piece.shift(grid, shift) {
            Some(piece) => {
                let resting = is_grounded(grid, &piece);
                Phase { piece, lock: self.lock.on_step(resting) }
            },
            None => self,
        }
    }

    fn apply_turn(self, grid: &Grid, spin: Spin) -> (next: Phase)
        requires
            grid.wf(),
            self.piece.anchor.row >= i32::MIN + 2,
        ensures
            next == self.after_turn(grid@, spin),
    {
        match self.piece.rotate(grid, spin) {
            Ok(piece) => {
                let resting = is_grounded(grid, &piece);
                Phase { piece, lock: self.lock.on_step(resting) }
            },
            Err(_) => self,
        }
    }

    fn apply_fall(self, grid: &Grid) -> (next: Phase)
        requires
            grid.wf(),
        ensures
            next == self.after_fall(grid@),
    {
        match self.piece.shift(grid, Shift::Down) {
            Some(piece) => Phase { piece, lock: self.lock.on_down(true) },
            None => Phase { piece: self.piece, lock: self.lock.on_down(false) },
        }
    }

    /// Applies the command of a tick to the piece and its lock state.
    ///
    /// The anchor must lie at least two rows above the lowest row number there is,
    /// as a turn asks.
    pub fn apply_command(self, grid: &Grid, command: Command) -> (next: Phase)
        requires
            grid.wf(),
            self.piece.anchor.row >= i32::MIN + 2,
        ensures
            next == self.after_command(grid@, command),
    {
        match command {
            Command::MoveLeft => self.apply_move(grid, Shift::Left),
            Command::MoveRight => self.apply_move(grid, Shift::Right),
            Command::RotateCW => self.apply_turn(grid, Spin::Clockwise),
            Command::RotateCCW => self.apply_turn(grid, Spin::CounterClockwise),
            Command::SoftDrop => self.apply_fall(grid),
            Command::HardDrop => Phase {
                piece: self.piece.hard_drop(grid),
                lock: self.lock.on_hard_drop(),
            },
            Command::Hold => self,
            Command::Idle => self,
        }
    }

    /// Lets `elapsed` units of time pass for the piece, with the step of gravity or
    /// the lock that they bring when one is due.
    pub fn apply_clock(self, grid: &Grid, elapsed: u32) -> (next: Phase)
        requires
            grid.wf(),
        ensures
            next == self.after_clock(grid@, elapsed),
    {
        let (lock, due) = self.lock.on_time(elapsed);
        let timed = Phase { piece: self.piece, lock };
        match due {
            Due::Gravity => timed.apply_fall(grid),
            Due::Lock => Phase { piece: self.piece.hard_drop(grid), lock },
            Due::Nothing => timed,
        }
    }
}

/// A game in progress.
#[derive(Clone, Debug)]
pub struct GameSession {
    grid: Grid,
    piece: Option<ActivePiece>,
    lock: LockController,
    queue: PieceQueue,
    game_over: bool,
}

impl View for GameSession {
    type V = SessionModel;

    closed spec fn view(&self) -> SessionModel {
        SessionModel {
            field: self.grid@,
            piece: self.piece,
            lock: self.lock,
            queue: self.queue@,
            game_over: self.game_over,
        }
    }
}

impl GameSession {
    /// The invariant of a game: its model is well formed.
    pub open spec fn wf(&self) -> bool {
        self@.wf()
    }

    /// A new game on an empty field of the given size, with the order of pieces
    /// that `seed` gives. The first piece enters at once; on a field too small for
    /// it the game is over from the start.
    pub fn new(width: u16, height: u16, seed: u64) -> (session: GameSession)
        ensures
            session.wf(),
            session@ == SessionModel::opening(Field::empty(width as int, height as int), seed),
    {
        GameSession::from_grid(Grid::new(width, height), seed)
    }

    /// A new game on a field that already holds blocks, with the order of pieces
    /// that `seed` gives. The first piece enters at once; where it does not fit the
    /// game is over from the start.
    pub fn from_grid(grid: Grid, seed: u64) -> (session: GameSession)
        requires
            grid.wf(),
        ensures
            session.wf(),
            session@ == SessionModel::opening(grid@, seed),
    {
        let queue = PieceQueue::new(seed);
        let mut session = GameSession {
            grid,
            piece: None,
            lock: LockController::new(),
            queue,
            game_over: true,
        };
        session.enter();
        session
    }

    fn enter(&mut self)
        requires
            old(self).grid.wf(),
            old(self).queue.wf(),
        ensures
            final(self).wf(),
            final(self)@ == SessionModel::entered(old(self).grid@, old(self).queue@),
    {
        let kind = self.queue.draw();
        self.lock = LockController::new();
        match spawn(&self.grid, kind) {
            Ok(piece) => {
                self.piece = Some(piece);
                self.game_over = false;
                proof {
                    lemma_fit_bounds(
                        self.grid@,
                        piece.kind,
                        piece.rotation,
                        piece.anchor.col as int,
                        piece.anchor.row as int,
                    );
                }
            },
            Err(_) => {
                self.piece = None;
                self.game_over = true;
            },
        }
    }

    /// The field.
    pub fn grid(&self) -> (grid: &Grid)
        ensures
            grid@ == self@.field,
    {
        &self.grid
    }

    /// The falling piece; `None` once the game is over.
    pub fn piece(&self) -> (piece: Option<ActivePiece>)
        ensures
            piece == self@.piece,
    {
        self.piece
    }

    /// The lock state of the falling piece and its clocks.
    pub fn lock(&self) -> (lock: LockController)
        ensures
            lock == self@.lock,
    {
        self.lock
    }

    /// The kind of the piece that enters next.
    pub fn next_kind(&self) -> (kind: PieceKind)
        requires
            self.wf(),
        ensures
            kind == self@.queue.upcoming(0),
    {
        self.queue.peek()
    }

    /// Whether the game is over.
    pub fn is_game_over(&self) -> (over: bool)
        ensures
            over == self@.game_over,
    {
        self.game_over
    }

    /// What a renderer may see of the game as it stands.
    pub fn snapshot(&self) -> (snapshot: Snapshot)
        requires
            self.wf(),
        ensures
            snapshot.shows(self@),
    {
        let active = match self.piece {
            Some(piece) => {
                proof {
                    lemma_fit_bounds(
                        self.grid@,
                        piece.kind,
                        piece.rotation,
                        piece.anchor.col as int,
                        piece.anchor.row as int,
                    );
                }
                Some(ActiveSquares { squares: piece.cells(), color: piece.kind.color() })
            },
            None => None,
        };
        Snapshot {
            cells: self.grid.rows(),
            active,
            next: self.queue.peek(),
            game_over: self.game_over,
        }
    }

    /// Moves the game forward by one tick. Of the commands queued since the tick
    /// before the last one is applied; then `elapsed` units of time pass, and a
    /// falling piece takes the step of gravity that is due while a landed piece
    /// whose delay is over is locked where it comes to rest; then, if the piece is
    /// locked, it is written into the field, full rows are cleared and the next
    /// piece enters, which ends the game when it does not fit. A game that is over
    /// is left as it is.
    pub fn tick(&mut self, elapsed: u32, commands: &Vec<Command>) -> (report: TickReport)
        requires
            old(self).wf(),
        ensures
            final(self).wf(),
            final(self)@ == old(self)@.step(selected(commands@), elapsed),
            report.rows_cleared == old(self)@.rows_cleared(selected(commands@), elapsed),
            report.game_over_raised == (!old(self)@.game_over && final(self)@.game_over),
            report.snapshot.shows(final(self)@),
    {
        let mut rows_cleared: usize = 0;
        let mut game_over_raised = false;
        if !self.game_over {
            match self.piece {
                Some(piece) => {
                    let command = select_command(commands);
                    let start = Phase { piece, lock: self.lock };
                    proof {
                        lemma_command_keeps_sound(self.grid@, start, command);
                        lemma_clock_keeps_sound(
                            self.grid@,
                            start.after_command(self.grid@, command),
                            elapsed,
                        );
                    }
                    let moved = start.apply_command(&self.grid, command).apply_clock(
                        &self.grid,
                        elapsed,
                    );
                    match moved.lock.state {
                        LockState::Locked => {
                            moved.piece.lock_into(&mut self.grid);
                            rows_cleared = self.grid.clear_full_rows();
                            self.enter();
                            game_over_raised = self.game_over;
                        },
                        _ => {
                            self.piece = Some(moved.piece);
                            self.lock = moved.lock;
                        },
                    }
                },
                None => {},
            }
        }
        TickReport { snapshot: self.snapshot(), rows_cleared, game_over_raised }
    }
}

} // verus!
