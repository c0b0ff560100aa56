//! What holds of the moves of a piece: when a turn succeeds in place, how far a
//! kick can lift a piece, where a falling piece comes to rest, and when a piece
//! cannot enter the field.

use vstd::prelude::*;
use crate::active::{
    collides_at, first_fit, lemma_fit_bounds, rest_row, spawn_col, square_blocked, turned,
    ActivePiece, Spin,
};
use crate::cell::Cell;
use crate::error::EngineError;
use crate::grid::Field;
use crate::kick::{kicks, law_kicks_are_short, law_kicks_start_at_zero, law_lifts_come_second};
use crate::piece::{box_side, law_shape_in_box, shape, Offset, PieceKind};
use crate::rotation::RotationState;

verus! {

/// A turn whose result fits where the piece stands succeeds with the zero offset:
/// the anchor stays and the state is the next one in the direction of the turn.
pub proof fn law_turn_in_place(field: Field, piece: ActivePiece, spin: Spin)
    requires
        !collides_at(
            field,
            piece.kind,
            turned(piece.rotation, spin),
            piece.anchor.col as int,
            piece.anchor.row as int,
        ),
    ensures
        piece.rotated(field, spin) == Ok::<ActivePiece, EngineError>(
            ActivePiece {
                kind: piece.kind,
                rotation: turned(piece.rotation, spin),
                anchor: piece.anchor,
            },
        ),
{
    law_kicks_start_at_zero(piece.kind, piece.rotation, turned(piece.rotation, spin));
}

/// On a field without blocks a piece whose box lies between the walls and above
/// the floor fits in every rotation state.
pub proof fn lemma_fits_on_clear_field(
    field: Field,
    kind: PieceKind,
    rotation: RotationState,
    col: int,
    row: int,
)
    requires
        field.wf(),
        field.is_clear(),
        0 <= col,
        col + box_side(kind) <= field.width,
        row + box_side(kind) <= field.height(),
    ensures
        !collides_at(field, kind, rotation, col, row),
{
    law_shape_in_box(kind, rotation);
    assert forall|i: int| 0 <= i < 4 implies !square_blocked(field, kind, rotation, col, row, i) by {
        let c = col + shape(kind, rotation)[i].dx;
        let r = row + shape(kind, rotation)[i].dy;
        if r >= 0 {
            assert(field.rows[r][c] == Cell::Empty);
        }
    }
}

/// On a field without blocks, a piece with nothing near it, its box between the
/// walls and above the floor, always turns, and turns with the zero offset.
pub proof fn law_turn_on_clear_field(field: Field, piece: ActivePiece, spin: Spin)
    requires
        field.wf(),
        field.is_clear(),
        0 <= piece.anchor.col,
        piece.anchor.col + box_side(piece.kind) <= field.width,
        piece.anchor.row + box_side(piece.kind) <= field.height(),
    ensures
        piece.rotated(field, spin) == Ok::<ActivePiece, EngineError>(
            ActivePiece {
                kind: piece.kind,
                rotation: turned(piece.rotation, spin),
                anchor: piece.anchor,
            },
        ),
{
    lemma_fits_on_clear_field(
        field,
        piece.kind,
        turned(piece.rotation, spin),
        piece.anchor.col as int,
        piece.anchor.row as int,
    );
    law_turn_in_place(field, piece, spin);
}

/// The O piece covers the same squares in every state, so it collides in one state
/// exactly where it collides in another.
pub proof fn lemma_o_is_round(
    field: Field,
    from: RotationState,
    to: RotationState,
    col: int,
    row: int,
)
    ensures
        collides_at(field, PieceKind::O, from, col, row) == collides_at(
            field,
            PieceKind::O,
            to,
            col,
            row,
        ),
{
}

/// An O piece that fits where it stands turns in place: only its state changes.
pub proof fn law_o_turns_in_place(field: Field, piece: ActivePiece, spin: Spin)
    requires
        piece.kind == PieceKind::O,
        !piece.collides_in(field),
    ensures
        piece.rotated(field, spin) == Ok::<ActivePiece, EngineError>(
            ActivePiece {
                kind: piece.kind,
                rotation: turned(piece.rotation, spin),
                anchor: piece.anchor,
            },
        ),
{
    lemma_o_is_round(
        field,
        piece.rotation,
        turned(piece.rotation, spin),
        piece.anchor.col as int,
        piece.anchor.row as int,
    );
    law_turn_in_place(field, piece, spin);
}

/// Four quarter turns in one direction lead back to the state they began in.
pub proof fn law_four_turns_come_round(rotation: RotationState, spin: Spin)
    ensures
        turned(turned(turned(turned(rotation, spin), spin), spin), spin) == rotation,
{
}

/// What `first_fit` finds: an index from `k` on at which the piece fits, with a
/// collision at every index between, or the table's length when there is none.
pub proof fn lemma_first_fit(
    field: Field,
    kind: PieceKind,
    rotation: RotationState,
    col: int,
    row: int,
    table: Seq<Offset>,
    k: int,
)
    requires
        0 <= k <= table.len(),
    ensures
        k <= first_fit(field, kind, rotation, col, row, table, k) <= table.len(),
        first_fit(field, kind, rotation, col, row, table, k) < table.len() ==> !collides_at(
            field,
            kind,
            rotation,
            col + table[first_fit(field, kind, rotation, col, row, table, k)].dx,
            row + table[first_fit(field, kind, rotation, col, row, table, k)].dy,
        ),
        forall|j: int|
            k <= j < first_fit(field, kind, rotation, col, row, table, k) ==> collides_at(
                field,
                kind,
                rotation,
                col + (#[trigger] table[j]).dx,
                row + table[j].dy,
            ),
    decreases table.len() - k,
{
    if k < table.len() && collides_at(field, kind, rotation, col + table[k].dx, row + table[k].dy) {
        lemma_first_fit(field, kind, rotation, col, row, table, k + 1);
    }
}

/// High above the field only the walls can stop a piece, so lifting it changes
/// nothing: it collides at one row exactly where it collides at another.
proof fn lemma_walls_only(
    field: Field,
    kind: PieceKind,
    rotation: RotationState,
    col: int,
    upper: int,
    lower: int,
)
    requires
        upper <= -4,
        lower <= -4,
    ensures
        collides_at(field, kind, rotation, col, upper) == collides_at(
            field,
            kind,
            rotation,
            col,
            lower,
        ),
{
    law_shape_in_box(kind, rotation);
    assert forall|i: int| 0 <= i < 4 implies square_blocked(field, kind, rotation, col, upper, i)
        == square_blocked(field, kind, rotation, col, lower, i) by {
        assert(upper + shape(kind, rotation)[i].dy < 0 && lower + shape(kind, rotation)[i].dy < 0);
    }
}

/// A turn is all or nothing. When it succeeds the turned piece fits, is of the same
/// kind, and stands at most two squares from where it stood; a piece whose anchor
/// is four rows or more above the top row is never lifted.
pub proof fn law_turn_result(field: Field, piece: ActivePiece, spin: Spin)
    requires
        field.wf(),
        piece.anchor.row >= i32::MIN + 2,
        piece.rotated(field, spin) is Ok,
    ensures
        !piece.rotated(field, spin)->Ok_0.collides_in(field),
        piece.rotated(field, spin)->Ok_0.kind == piece.kind,
        piece.rotated(field, spin)->Ok_0.rotation == turned(piece.rotation, spin),
        piece.anchor.col - 2 <= piece.rotated(field, spin)->Ok_0.anchor.col <= piece.anchor.col + 2,
        piece.anchor.row - 2 <= piece.rotated(field, spin)->Ok_0.anchor.row <= piece.anchor.row + 2,
        piece.anchor.row <= -4 ==> piece.rotated(field, spin)->Ok_0.anchor.row >= piece.anchor.row,
{
    let to = turned(piece.rotation, spin);
    let table = kicks(piece.kind, piece.rotation, to);
    let col = piece.anchor.col as int;
    let row = piece.anchor.row as int;
    let k = first_fit(field, piece.kind, to, col, row, table, 0);
    lemma_first_fit(field, piece.kind, to, col, row, table, 0);
    law_kicks_are_short(piece.kind, piece.rotation, to, k);
    lemma_fit_bounds(field, piece.kind, to, col + table[k].dx, row + table[k].dy);
    if row <= -4 && table[k].dy < 0 {
        let j = law_lifts_come_second(piece.kind, piece.rotation, to, k);
        lemma_walls_only(field, piece.kind, to, col + table[j].dx, row + table[j].dy, row + table[k].dy);
    }
}

/// Where a falling piece comes to rest: at or below where it began, with a
/// collision one row further down, and, if it fitted where it began, fitting on
/// every row of its way.
pub proof fn law_drop_rests(
    field: Field,
    kind: PieceKind,
    rotation: RotationState,
    col: int,
    row: int,
)
    requires
        field.wf(),
    ensures
        row <= rest_row(field, kind, rotation, col, row),
        row < field.height() ==> rest_row(field, kind, rotation, col, row) < field.height(),
        collides_at(field, kind, rotation, col, rest_row(field, kind, rotation, col, row) + 1),
        !collides_at(field, kind, rotation, col, row) ==> forall|r: int|
            row <= r <= rest_row(field, kind, rotation, col, row) ==> !collides_at(
                field,
                kind,
                rotation,
                col,
                r,
            ),
    decreases field.height() - row,
{
    law_shape_in_box(kind, rotation);
    if row < field.height() && !collides_at(field, kind, rotation, col, row + 1) {
        law_drop_rests(field, kind, rotation, col, row + 1);
        lemma_fit_bounds(field, kind, rotation, col, row + 1);
    }
}

/// On a field without blocks a piece that fits between the walls falls until its
/// lowest squares stand on the bottom row, whatever its kind, state and column.
pub proof fn law_drop_on_clear_field(field: Field, piece: ActivePiece)
    requires
        field.wf(),
        field.is_clear(),
        !piece.collides_in(field),
    ensures
        piece.dropped(field).bottom_row() == field.height() - 1,
        piece.dropped(field).anchor.col == piece.anchor.col,
        piece.dropped(field).rotation == piece.rotation,
        piece.dropped(field).kind == piece.kind,
{
    let col = piece.anchor.col as int;
    let row = piece.anchor.row as int;
    let rest = rest_row(field, piece.kind, piece.rotation, col, row);
    law_drop_rests(field, piece.kind, piece.rotation, col, row);
    law_shape_in_box(piece.kind, piece.rotation);
    lemma_fit_bounds(field, piece.kind, piece.rotation, col, row);
    assert(!collides_at(field, piece.kind, piece.rotation, col, rest));
    let s = shape(piece.kind, piece.rotation);
    assert forall|i: int| 0 <= i < 4 implies rest + (#[trigger] s[i]).dy <= field.height() - 1 by {
        assert(!square_blocked(field, piece.kind, piece.rotation, col, rest, i));
    }
    assert forall|i: int|
        0 <= i < 4 && square_blocked(
            field,
            piece.kind,
            piece.rotation,
            col,
            rest + 1,
            i,
        ) implies rest + 1 + s[i].dy >= field.height() by {
        let c = col + s[i].dx;
        let r = rest + 1 + s[i].dy;
        if 0 <= r < field.height() {
            assert(field.rows[r][c] == Cell::Empty);
        }
    }
}

/// A piece cannot enter a field whose top two rows hold a block on every square of
/// the columns in which the piece's box would stand.
pub proof fn law_spawn_blocked(field: Field, kind: PieceKind)
    requires
        field.wf(),
        forall|c: int, r: int|
            spawn_col(kind, field.width) <= c < spawn_col(kind, field.width) + box_side(kind) && 0
                <= r < 2 && field.in_bounds(c, r) ==> (#[trigger] field.rows[r][c]) != Cell::Empty,
    ensures
        ActivePiece::entering(kind, field.width).collides_in(field),
{
    let s = shape(kind, RotationState::R0);
    law_shape_in_box(kind, RotationState::R0);
    let col = spawn_col(kind, field.width);
    let c = col + s[0].dx;
    let r = s[0].dy as int;
    if field.in_bounds(c, r) {
        assert(field.rows[r][c] != Cell::Empty);
    }
    assert(square_blocked(field, kind, RotationState::R0, col, 0, 0));
}

} // verus!
