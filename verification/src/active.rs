//! The falling piece: where it is, whether a placement collides, and the moves that
//! take it from one placement to another without ever passing through a collision.

use vstd::prelude::*;
use crate::cell::Cell;
use crate::error::EngineError;
use crate::grid::{Field, Grid};
use crate::kick::{kicks, law_kicks_are_short};
use crate::piece::{box_side, color_of, law_shape_in_box, shape, Offset, PieceKind};
use crate::rotation::RotationState;

verus! {

/// A place on the field, by column and row. Row 0 is the top row; rows above it
/// have negative numbers.
#[derive(Clone, Copy, Debug, PartialEq, Eq, Structural)]
pub struct Position {
    pub col: i32,
    pub row: i32,
}

/// The falling piece: its kind, its rotation state and the place of its anchor.
#[derive(Clone, Copy, Debug, PartialEq, Eq, Structural)]
pub struct ActivePiece {
    pub kind: PieceKind,
    pub rotation: RotationState,
    pub anchor: Position,
}

/// A move by one square.
#[derive(Clone, Copy, Debug, PartialEq, Eq, Structural)]
pub enum Shift {
    Left,
    Right,
    Down,
}

/// The direction of a quarter turn.
#[derive(Clone, Copy, Debug, PartialEq, Eq, Structural)]
pub enum Spin {
    Clockwise,
    CounterClockwise,
}

/// Whether square `i` of the piece, anchored at `(col, row)`, lies where it may not.
pub open spec fn square_blocked(
    field: Field,
    kind: PieceKind,
    rotation: RotationState,
    col: int,
    row: int,
    i: int,
) -> bool {
    field.blocked(col + shape(kind, rotation)[i].dx, row + shape(kind, rotation)[i].dy)
}

/// Whether the piece, anchored at `(col, row)`, collides: one of its four squares
/// lies beside the field, below the floor or on an occupied square.
pub open spec fn collides_at(
    field: Field,
    kind: PieceKind,
    rotation: RotationState,
    col: int,
    row: int,
) -> bool {
    square_blocked(field, kind, rotation, col, row, 0) || square_blocked(
        field,
        kind,
        rotation,
        col,
        row,
        1,
    ) || square_blocked(field, kind, rotation, col, row, 2) || square_blocked(
        field,
        kind,
        rotation,
        col,
        row,
        3,
    )
}

/// The piece of the given kind and state anchored at `(col, row)`.
pub open spec fn piece_at(kind: PieceKind, rotation: RotationState, col: int, row: int) -> ActivePiece {
    ActivePiece { kind, rotation, anchor: Position { col: col as i32, row: row as i32 } }
}

/// The column and row steps of a one-square move.
pub open spec fn shift_step(shift: Shift) -> (int, int) {
    match shift {
        Shift::Left => (-1, 0),
        Shift::Right => (1, 0),
        Shift::Down => (0, 1),
    }
}

/// The state that a quarter turn leads to.
pub open spec fn turned(rotation: RotationState, spin: Spin) -> RotationState {
    match spin {
        Spin::Clockwise => RotationState::at(rotation.index() + 1),
        Spin::CounterClockwise => RotationState::at(rotation.index() + 3),
    }
}

/// The index of the first offset of `table`, from index `k` on, at which the piece
/// fits; the length of the table when it fits at none.
pub open spec fn first_fit(
    field: Field,
    kind: PieceKind,
    rotation: RotationState,
    col: int,
    row: int,
    table: Seq<Offset>,
    k: int,
) -> int
    decreases table.len() - k,
{
    if k < 0 || k >= table.len() {
        table.len() as int
    } else if !collides_at(field, kind, rotation, col + table[k].dx, row + table[k].dy) {
        k
    } else {
        first_fit(field, kind, rotation, col, row, table, k + 1)
    }
}

/// The row at which a piece anchored at `(col, row)` comes to rest when it falls
/// straight down: the first row, from `row` on, below which the next step collides.
pub open spec fn rest_row(
    field: Field,
    kind: PieceKind,
    rotation: RotationState,
    col: int,
    row: int,
) -> int
    decreases field.height() - row,
{
    if row >= field.height() || collides_at(field, kind, rotation, col, row + 1) {
        row
    } else {
        rest_row(field, kind, rotation, col, row + 1)
    }
}

/// The column at which a piece of the given kind enters a field of the given width:
/// its box stands in the middle, half a square to the left where that is not
/// whole.
pub open spec fn spawn_col(kind: PieceKind, width: int) -> int {
    if width >= box_side(kind) {
        (width - box_side(kind)) / 2
    } else {
        0
    }
}

/// The field with a block of the given colour on `(col, row)`, where that is a
/// square of the field; the field itself where it is not.
pub open spec fn stamped(field: Field, col: int, row: int, cell: Cell) -> Field {
    if field.in_bounds(col, row) {
        field.with_cell(col, row, cell)
    } else {
        field
    }
}

/// The field with the first `n` squares of the piece written into it.
pub open spec fn merged_upto(field: Field, piece: ActivePiece, n: int) -> Field
    decreases n,
{
    if n <= 0 {
        field
    } else {
        stamped(
            merged_upto(field, piece, n - 1),
            piece.anchor.col + shape(piece.kind, piece.rotation)[n - 1].dx,
            piece.anchor.row + shape(piece.kind, piece.rotation)[n - 1].dy,
            Cell::Filled(color_of(piece.kind)),
        )
    }
}

/// A piece that does not collide stands between the walls and above the floor.
pub proof fn lemma_fit_bounds(
    field: Field,
    kind: PieceKind,
    rotation: RotationState,
    col: int,
    row: int,
)
    requires
        field.wf(),
        !collides_at(field, kind, rotation, col, row),
    ensures
        -4 < col < field.width,
        row < field.height(),
{
    law_shape_in_box(kind, rotation);
}

fn collides_wide(grid: &Grid, kind: PieceKind, rotation: RotationState, col: i64, row: i64) -> (hit:
    bool)
    requires
        grid.wf(),
        -0x1_0000_0000 <= col <= 0x1_0000_0000,
        -0x1_0000_0000 <= row <= 0x1_0000_0000,
    ensures
        hit == collides_at(grid@, kind, rotation, col as int, row as int),
{
    let offsets = kind.offsets(rotation);
    let width = grid.width() as i64;
    let height = grid.height() as i64;
    proof {
        law_shape_in_box(kind, rotation);
    }
    let mut i: usize = 0;
    while i < 4
        invariant
            i <= 4,
            grid.wf(),
            width == grid@.width,
            height == grid@.height(),
            offsets@ == shape(kind, rotation),
            -0x1_0000_0000 <= col <= 0x1_0000_0000,
            -0x1_0000_0000 <= row <= 0x1_0000_0000,
            forall|j: int|
                0 <= j < 4 ==> 0 <= (#[trigger] shape(kind, rotation)[j]).dx < 4 && 0 <= shape(
                    kind,
                    rotation,
                )[j].dy < 4,
            forall|j: int|
                0 <= j < i ==> !square_blocked(grid@, kind, rotation, col as int, row as int, j),
        decreases 4 - i,
    {
        let square = offsets[i];
        let c = col + square.dx as i64;
        let r = row + square.dy as i64;
        if c < 0 || c >= width || r >= height {
            return true;
        }
        if r >= 0 && grid.is_occupied(c as i32, r as i32) {
            return true;
        }
        i = i + 1;
    }
    false
}

/// Whether a piece of the given kind and state, anchored at `anchor`, collides with
/// the walls, the floor or a locked block. The field is left as it is.
pub fn collides(grid: &Grid, kind: PieceKind, rotation: RotationState, anchor: Position) -> (hit:
    bool)
    requires
        grid.wf(),
    ensures
        hit == collides_at(grid@, kind, rotation, anchor.col as int, anchor.row as int),
{
    collides_wide(grid, kind, rotation, anchor.col as i64, anchor.row as i64)
}

/// Where a piece of the given kind enters the field: `Ok` with the piece at its
/// spawn position when it fits there, `SpawnBlocked` when it does not.
pub fn spawn(grid: &Grid, kind: PieceKind) -> (result: Result<ActivePiece, EngineError>)
    requires
        grid.wf(),
    ensures
        result == (if ActivePiece::entering(kind, grid@.width).collides_in(grid@) {
            Err::<ActivePiece, EngineError>(EngineError::SpawnBlocked)
        } else {
            Ok::<ActivePiece, EngineError>(ActivePiece::entering(kind, grid@.width))
        }),
{
    let piece = ActivePiece::enter(kind, grid);
    if collides(grid, piece.kind, piece.rotation, piece.anchor) {
        Err(EngineError::SpawnBlocked)
    } else {
        Ok(piece)
    }
}

impl Shift {
    fn step(self) -> (step: (i64, i64))
        ensures
            step.0 == shift_step(self).0,
            step.1 == shift_step(self).1,
    {
        match self {
            Shift::Left => (-1, 0),
            Shift::Right => (1, 0),
            Shift::Down => (0, 1),
        }
    }
}

impl Spin {
    /// The state that a quarter turn in this direction leads to from `rotation`.
    pub fn apply(self, rotation: RotationState) -> (to: RotationState)
        ensures
            to == turned(rotation, self),
    {
        match self {
            Spin::Clockwise => rotation.cw(),
            Spin::CounterClockwise => rotation.ccw(),
        }
    }
}

impl ActivePiece {
    /// Whether the piece collides where it is.
    pub open spec fn collides_in(self, field: Field) -> bool {
        collides_at(field, self.kind, self.rotation, self.anchor.col as int, self.anchor.row as int)
    }

    /// The piece after a one-square move, if the move is free of collision.
    pub open spec fn shifted(self, field: Field, shift: Shift) -> Option<ActivePiece> {
        let col = self.anchor.col + shift_step(shift).0;
        let row = self.anchor.row + shift_step(shift).1;
        if collides_at(field, self.kind, self.rotation, col, row) {
            None
        } else {
            Some(piece_at(self.kind, self.rotation, col, row))
        }
    }

    /// The outcome of a quarter turn: the piece in its new state at the first kick
    /// offset at which it fits, or `RotationRejected` when it fits at none.
    pub open spec fn rotated(self, field: Field, spin: Spin) -> Result<ActivePiece, EngineError> {
        let to = turned(self.rotation, spin);
        let table = kicks(self.kind, self.rotation, to);
        let k = first_fit(field, self.kind, to, self.anchor.col as int, self.anchor.row as int, table, 0);
        if k < table.len() {
            Ok(piece_at(self.kind, to, self.anchor.col + table[k].dx, self.anchor.row + table[k].dy))
        } else {
            Err(EngineError::RotationRejected)
        }
    }

    /// The piece where it comes to rest when it falls straight down.
    pub open spec fn dropped(self, field: Field) -> ActivePiece {
        piece_at(
            self.kind,
            self.rotation,
            self.anchor.col as int,
            rest_row(field, self.kind, self.rotation, self.anchor.col as int, self.anchor.row as int),
        )
    }

    /// The piece of the given kind as it enters a field of the given width: in its
    /// first rotation state, its box in the middle of the top rows.
    pub open spec fn entering(kind: PieceKind, width: int) -> ActivePiece {
        piece_at(kind, RotationState::R0, spawn_col(kind, width), 0)
    }

    /// The lowest row on which the piece has a square.
    pub open spec fn bottom_row(self) -> int {
        let s = shape(self.kind, self.rotation);
        let a = if s[0].dy >= s[1].dy { s[0].dy } else { s[1].dy };
        let b = if s[2].dy >= s[3].dy { s[2].dy } else { s[3].dy };
        self.anchor.row + (if a >= b { a } else { b })
    }

    /// The field with the piece's squares written into it in the piece's colour.
    /// A square of the piece above the top row is not part of the field and leaves
    /// no block.
    pub open spec fn merged_into(self, field: Field) -> Field {
        merged_upto(field, self, 4)
    }

    /// The piece of the given kind at its spawn position on `grid`, whether or not
    /// it fits there.
    pub fn enter(kind: PieceKind, grid: &Grid) -> (piece: ActivePiece)
        requires
            grid.wf(),
        ensures
            piece == ActivePiece::entering(kind, grid@.width),
    {
        let width = grid.width();
        let side = kind.box_side() as usize;
        let col = if width >= side {
            (width - side) / 2
        } else {
            0
        };
        ActivePiece { kind, rotation: RotationState::R0, anchor: Position { col: col as i32, row: 0 } }
    }

    /// Moves the piece by one square if it fits there: `Some` with the moved piece,
    /// or `None`, when the move would collide.
    pub fn shift(&self, grid: &Grid, shift: Shift) -> (moved: Option<ActivePiece>)
        requires
            grid.wf(),
        ensures
            moved == self.shifted(grid@, shift),
    {
        let step = shift.step();
        let col = self.anchor.col as i64 + step.0;
        let row = self.anchor.row as i64 + step.1;
        if collides_wide(grid, self.kind, self.rotation, col, row) {
            None
        } else {
            proof {
                lemma_fit_bounds(grid@, self.kind, self.rotation, col as int, row as int);
            }
            Some(
                ActivePiece {
                    kind: self.kind,
                    rotation: self.rotation,
                    anchor: Position { col: col as i32, row: row as i32 },
                },
            )
        }
    }

    /// Turns the piece a quarter. The offsets of the kick table are tried in order
    /// and the first at which the turned piece fits is taken; when it fits at none
    /// the turn is refused with `RotationRejected`. The piece itself is not
    /// changed: the turned piece is the result.
    ///
    /// The anchor must lie at least two rows above the lowest row number there is,
    /// so that a kick upwards has a row to go to.
    pub fn rotate(&self, grid: &Grid, spin: Spin) -> (result: Result<ActivePiece, EngineError>)
        requires
            grid.wf(),
            self.anchor.row >= i32::MIN + 2,
        ensures
            result == self.rotated(grid@, spin),
    {
        let to = spin.apply(self.rotation);
        let table = self.kind.kick_offsets(self.rotation, to);
        let ghost col0 = self.anchor.col as int;
        let ghost row0 = self.anchor.row as int;
        let mut k: usize = 0;
        while k < table.len()
            invariant
                k <= table@.len(),
                grid.wf(),
                to == turned(self.rotation, spin),
                table@ == kicks(self.kind, self.rotation, to),
                col0 == self.anchor.col,
                row0 == self.anchor.row,
                row0 >= i32::MIN + 2,
                first_fit(grid@, self.kind, to, col0, row0, table@, 0) == first_fit(
                    grid@,
                    self.kind,
                    to,
                    col0,
                    row0,
                    table@,
                    k as int,
                ),
            decreases table@.len() - k,
        {
            proof {
                law_kicks_are_short(self.kind, self.rotation, to, k as int);
            }
            let kick = table[k];
            let col = self.anchor.col as i64 + kick.dx as i64;
            let row = self.anchor.row as i64 + kick.dy as i64;
            if !collides_wide(grid, self.kind, to, col, row) {
                proof {
                    lemma_fit_bounds(grid@, self.kind, to, col as int, row as int);
                }
                return Ok(
                    ActivePiece {
                        kind: self.kind,
                        rotation: to,
                        anchor: Position { col: col as i32, row: row as i32 },
                    },
                );
            }
            k = k + 1;
        }
        Err(EngineError::RotationRejected)
    }

    /// Lets the piece fall straight down until the next step would collide, and
    /// returns it where it rests.
    pub fn hard_drop(&self, grid: &Grid) -> (rested: ActivePiece)
        requires
            grid.wf(),
        ensures
            rested == self.dropped(grid@),
    {
        let col = self.anchor.col as i64;
        let height = grid.height() as i64;
        let ghost start = self.anchor.row as int;
        let mut row = self.anchor.row as i64;
        let mut resting = row >= height || collides_wide(grid, self.kind, self.rotation, col, row + 1);
        while !resting
            invariant
                grid.wf(),
                height == grid@.height(),
                col == self.anchor.col,
                start == self.anchor.row,
                start <= row,
                row <= i32::MAX,
                resting <==> (row >= height || collides_at(
                    grid@,
                    self.kind,
                    self.rotation,
                    col as int,
                    row + 1,
                )),
                rest_row(grid@, self.kind, self.rotation, col as int, row as int) == rest_row(
                    grid@,
                    self.kind,
                    self.rotation,
                    col as int,
                    start,
                ),
            decreases height - row,
        {
            row = row + 1;
            resting = row >= height || collides_wide(grid, self.kind, self.rotation, col, row + 1);
        }
        ActivePiece {
            kind: self.kind,
            rotation: self.rotation,
            anchor: Position { col: self.anchor.col, row: row as i32 },
        }
    }

    /// The four squares that the piece covers, in the order of its shape.
    ///
    /// The anchor must lie at least three squares from the largest column and row
    /// number there is, so that every square has a place.
    pub fn cells(&self) -> (cells: [Position; 4])
        requires
            self.anchor.col <= i32::MAX - 3,
            self.anchor.row <= i32::MAX - 3,
        ensures
            forall|i: int|
                0 <= i < 4 ==> (#[trigger] cells@[i]).col == self.anchor.col + shape(
                    self.kind,
                    self.rotation,
                )[i].dx && cells@[i].row == self.anchor.row + shape(self.kind, self.rotation)[i].dy,
    {
        let offsets = self.kind.offsets(self.rotation);
        proof {
            law_shape_in_box(self.kind, self.rotation);
        }
        [
            Position { col: self.anchor.col + offsets[0].dx, row: self.anchor.row + offsets[0].dy },
            Position { col: self.anchor.col + offsets[1].dx, row: self.anchor.row + offsets[1].dy },
            Position { col: self.anchor.col + offsets[2].dx, row: self.anchor.row + offsets[2].dy },
            Position { col: self.anchor.col + offsets[3].dx, row: self.anchor.row + offsets[3].dy },
        ]
    }

    /// Writes the piece's squares into the field in the piece's colour, as locking
    /// does. A square that is not part of the field is passed over.
    pub fn lock_into(&self, grid: &mut Grid)
        requires
            old(grid).wf(),
        ensures
            final(grid).wf(),
            final(grid)@ == self.merged_into(old(grid)@),
    {
        let offsets = self.kind.offsets(self.rotation);
        let color = self.kind.color();
        proof {
            law_shape_in_box(self.kind, self.rotation);
        }
        let mut i: usize = 0;
        while i < 4
            invariant
                i <= 4,
                grid.wf(),
                offsets@ == shape(self.kind, self.rotation),
                color == color_of(self.kind),
                forall|j: int|
                    0 <= j < 4 ==> 0 <= (#[trigger] shape(self.kind, self.rotation)[j]).dx < 4 && 0
                        <= shape(self.kind, self.rotation)[j].dy < 4,
                grid@ == merged_upto(old(grid)@, *self, i as int),
            decreases 4 - i,
        {
            let square = offsets[i];
            let col = self.anchor.col as i64 + square.dx as i64;
            let row = self.anchor.row as i64 + square.dy as i64;
            if 0 <= col && col < grid.width() as i64 && 0 <= row && row < grid.height() as i64 {
                let _ = grid.set(col as i32, row as i32, color);
            }
            i = i + 1;
        }
    }
}

} // verus!
