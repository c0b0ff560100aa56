//! What holds of a game from tick to tick: its invariant, how it ends, and that
//! its end is final.

use vstd::prelude::*;
use crate::active::{collides_at, lemma_fit_bounds, merged_upto, piece_at, spawn_col, ActivePiece};
use crate::bag::{lemma_bag_of_is_bag, QueueModel};
use crate::cell::Cell;
use crate::clearing::law_clearing_is_idempotent;
use crate::command::Command;
use crate::grid::{lemma_without_rows_wf, Field};
use crate::lock::{law_patience_runs_out, Due, LockState, LOCK_DELAY};
use crate::motion::law_spawn_blocked;
use crate::piece::box_side;
use crate::session::{lemma_clock_keeps_sound, lemma_command_keeps_sound, Phase, SessionModel};

verus! {

/// Writing a piece into a field leaves the field well formed and as large as it
/// was.
pub proof fn lemma_merged_wf(field: Field, piece: ActivePiece, n: int)
    requires
        field.wf(),
        0 <= n <= 4,
    ensures
        merged_upto(field, piece, n).wf(),
        merged_upto(field, piece, n).width == field.width,
        merged_upto(field, piece, n).height() == field.height(),
    decreases n,
{
    if n > 0 {
        lemma_merged_wf(field, piece, n - 1);
    }
}

/// A queue stays well formed when a piece is drawn from it.
pub proof fn lemma_draw_keeps_wf(queue: QueueModel)
    requires
        queue.wf(),
    ensures
        queue.after_draw().wf(),
{
    lemma_bag_of_is_bag(queue.state);
}

/// A game is well formed after a piece has tried to enter its field.
pub proof fn lemma_entered_wf(field: Field, queue: QueueModel)
    requires
        field.wf(),
        queue.wf(),
    ensures
        SessionModel::entered(field, queue).wf(),
{
    lemma_draw_keeps_wf(queue);
    let piece = ActivePiece::entering(queue.upcoming(0), field.width);
    if !piece.collides_in(field) {
        lemma_fit_bounds(
            field,
            piece.kind,
            piece.rotation,
            piece.anchor.col as int,
            piece.anchor.row as int,
        );
    }
}

/// The invariant of a game holds after every tick, whatever the command and
/// however much time has passed.
pub proof fn law_tick_keeps_invariant(model: SessionModel, command: Command, elapsed: u32)
    requires
        model.wf(),
    ensures
        model.step(command, elapsed).wf(),
{
    if !model.game_over {
        let start = Phase { piece: model.piece->Some_0, lock: model.lock };
        lemma_command_keeps_sound(model.field, start, command);
        lemma_clock_keeps_sound(model.field, start.after_command(model.field, command), elapsed);
        if model.locks(command, elapsed) {
            let merged = model.locked_field(command, elapsed);
            lemma_merged_wf(model.field, model.moved(command, elapsed).piece, 4);
            lemma_without_rows_wf(merged, merged.full_rows().to_set());
            lemma_entered_wf(merged.without_full_rows(), model.queue);
        }
    }
}

/// Once a game is over no tick changes it: the field, the queue and the flag stay
/// as they are, and no row is cleared.
pub proof fn law_game_over_is_final(model: SessionModel, command: Command, elapsed: u32)
    requires
        model.game_over,
    ensures
        model.step(command, elapsed) == model,
        model.rows_cleared(command, elapsed) == 0,
{
}

/// A hard drop locks the piece in the tick in which it is given.
pub proof fn law_hard_drop_locks(model: SessionModel, elapsed: u32)
    requires
        model.wf(),
        !model.game_over,
    ensures
        model.locks(Command::HardDrop, elapsed),
{
}

/// The game ends exactly when a piece is locked and the next piece does not fit
/// where it enters.
pub proof fn law_game_ends_on_blocked_spawn(model: SessionModel, command: Command, elapsed: u32)
    requires
        model.wf(),
        !model.game_over,
    ensures
        model.step(command, elapsed).game_over <==> model.locks(command, elapsed)
            && ActivePiece::entering(
            model.queue.upcoming(0),
            model.field.width,
        ).collides_in(model.locked_field(command, elapsed).without_full_rows()),
{
    if model.locks(command, elapsed) {
        lemma_merged_wf(model.field, model.moved(command, elapsed).piece, 4);
        let merged = model.locked_field(command, elapsed);
        lemma_without_rows_wf(merged, merged.full_rows().to_set());
    }
}

/// When a piece is locked and the field, after its full rows are cleared, holds a
/// block on every square of its top two rows in the columns where the next piece
/// would stand, the next piece cannot enter and the game is over.
pub proof fn law_full_top_ends_game(model: SessionModel, command: Command, elapsed: u32)
    requires
        model.wf(),
        model.locks(command, elapsed),
        forall|c: int, r: int|
            spawn_col(model.queue.upcoming(0), model.field.width) <= c < spawn_col(
                model.queue.upcoming(0),
                model.field.width,
            ) + box_side(model.queue.upcoming(0)) && 0 <= r < 2 && model.step(
                command,
                elapsed,
            ).field.in_bounds(c, r) ==> (#[trigger] model.step(command, elapsed).field.rows[r][c])
                != Cell::Empty,
    ensures
        model.step(command, elapsed).game_over,
        model.step(command, elapsed).piece is None,
{
    lemma_merged_wf(model.field, model.moved(command, elapsed).piece, 4);
    let merged = model.locked_field(command, elapsed);
    lemma_without_rows_wf(merged, merged.full_rows().to_set());
    let cleared = merged.without_full_rows();
    assert(model.step(command, elapsed).field == cleared);
    law_spawn_blocked(cleared, model.queue.upcoming(0));
}

/// A game that begins on a field whose top two rows hold a block on every square
/// of the columns where its first piece would stand is over from the start.
pub proof fn law_full_top_ends_opening(field: Field, seed: u64)
    requires
        field.wf(),
        forall|c: int, r: int|
            spawn_col(QueueModel::fresh(seed).upcoming(0), field.width) <= c < spawn_col(
                QueueModel::fresh(seed).upcoming(0),
                field.width,
            ) + box_side(QueueModel::fresh(seed).upcoming(0)) && 0 <= r < 2 && field.in_bounds(c, r)
                ==> (#[trigger] field.rows[r][c]) != Cell::Empty,
    ensures
        SessionModel::opening(field, seed).game_over,
{
    law_spawn_blocked(field, QueueModel::fresh(seed).upcoming(0));
}

/// A tick leaves no full row behind: a field of at least one column that had no
/// full row before the tick has none after it.
pub proof fn law_no_full_row_remains(model: SessionModel, command: Command, elapsed: u32)
    requires
        model.wf(),
        model.field.width > 0,
        model.field.full_rows().len() == 0,
    ensures
        model.step(command, elapsed).field.full_rows().len() == 0,
{
    if model.locks(command, elapsed) {
        lemma_merged_wf(model.field, model.moved(command, elapsed).piece, 4);
        law_clearing_is_idempotent(model.locked_field(command, elapsed));
    }
}

/// A step of gravity: a falling piece that fits and whose interval is over goes
/// down one row and keeps falling where it fits one row further down; where it
/// does not, it stays as it is and has landed, with the full lock delay to go.
pub proof fn law_gravity_step(field: Field, phase: Phase, elapsed: u32)
    requires
        field.wf(),
        phase.sound(field),
        phase.lock.state == LockState::Falling,
        phase.lock.due(elapsed) == Due::Gravity,
    ensures
        !collides_at(
            field,
            phase.piece.kind,
            phase.piece.rotation,
            phase.piece.anchor.col as int,
            phase.piece.anchor.row + 1,
        ) ==> phase.after_clock(field, elapsed).piece == piece_at(
            phase.piece.kind,
            phase.piece.rotation,
            phase.piece.anchor.col as int,
            phase.piece.anchor.row + 1,
        ) && phase.after_clock(field, elapsed).piece.anchor.row == phase.piece.anchor.row + 1
            && phase.after_clock(field, elapsed).lock.state == LockState::Falling,
        collides_at(
            field,
            phase.piece.kind,
            phase.piece.rotation,
            phase.piece.anchor.col as int,
            phase.piece.anchor.row + 1,
        ) ==> phase.after_clock(field, elapsed).piece == phase.piece && phase.after_clock(
            field,
            elapsed,
        ).lock.state == (LockState::Landed { timer: LOCK_DELAY }),
        phase.after_clock(field, elapsed).lock.resets == phase.lock.resets,
{
    let col = phase.piece.anchor.col as int;
    let row = phase.piece.anchor.row as int;
    if !collides_at(field, phase.piece.kind, phase.piece.rotation, col, row + 1) {
        lemma_fit_bounds(field, phase.piece.kind, phase.piece.rotation, col, row + 1);
    }
}

/// The command of a tick gives a piece no more time.
proof fn lemma_command_adds_no_patience(field: Field, phase: Phase, command: Command)
    requires
        phase.lock.wf(),
    ensures
        phase.after_command(field, command).lock.patience() <= phase.lock.patience(),
{
    law_patience_runs_out(phase.lock, true, true, 0);
    law_patience_runs_out(phase.lock, false, false, 0);
}

/// The clock of a tick gives a piece no more time.
proof fn lemma_clock_adds_no_patience(field: Field, phase: Phase, elapsed: u32)
    requires
        phase.lock.wf(),
    ensures
        phase.after_clock(field, elapsed).lock.patience() <= phase.lock.patience(),
{
    law_patience_runs_out(phase.lock, true, true, elapsed);
    law_patience_runs_out(phase.lock.after_time(elapsed), true, true, elapsed);
    law_patience_runs_out(phase.lock.after_time(elapsed), false, false, elapsed);
}

/// No tick gives a piece more time: while the same piece stays in play its
/// patience, the time it can still spend landed, does not grow, whatever the
/// command and however much time passes.
pub proof fn law_tick_adds_no_patience(model: SessionModel, command: Command, elapsed: u32)
    requires
        model.wf(),
        !model.game_over,
        !model.locks(command, elapsed),
    ensures
        model.step(command, elapsed).lock.patience() <= model.lock.patience(),
{
    let start = Phase { piece: model.piece->Some_0, lock: model.lock };
    let stepped = start.after_command(model.field, command);
    lemma_command_keeps_sound(model.field, start, command);
    lemma_command_adds_no_patience(model.field, start, command);
    lemma_clock_adds_no_patience(model.field, stepped, elapsed);
    assert(model.step(command, elapsed).lock == stepped.after_clock(model.field, elapsed).lock);
}

} // verus!
