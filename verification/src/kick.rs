//! The kick table: the offsets that a rotation tries, in order, before it gives up.
//!
//! The values are those of the published guideline, written with `dy` growing
//! downwards. The O piece has one entry, the zero offset. Between two states that
//! are not neighbours in the cycle the table holds the zero offset alone.

use vstd::prelude::*;
use crate::piece::{off, Offset, PieceKind};
use crate::rotation::RotationState;

verus! {

/// The three groups of kinds that share a kick table.
#[derive(Clone, Copy, Debug, PartialEq, Eq, Structural)]
pub enum KickCategory {
    O,
    I,
    Jlstz,
}

/// The group to which a kind belongs.
pub open spec fn category_of(kind: PieceKind) -> KickCategory {
    match kind {
        PieceKind::O => KickCategory::O,
        PieceKind::I => KickCategory::I,
        _ => KickCategory::Jlstz,
    }
}

/// The offsets to try, in order, when a piece of the given group turns from `from`
/// to `to`.
pub open spec fn kick_table(category: KickCategory, from: RotationState, to: RotationState) -> Seq<
    Offset,
> {
    match category {
        KickCategory::O => seq![off(0, 0)],
        KickCategory::Jlstz => match (from, to) {
            (RotationState::R0, RotationState::R90) | (RotationState::R180, RotationState::R90) => seq![
                off(0, 0),
                off(-1, 0),
                off(-1, -1),
                off(0, 2),
                off(-1, 2),
            ],
            (RotationState::R90, RotationState::R0) | (RotationState::R90, RotationState::R180) => seq![
                off(0, 0),
                off(1, 0),
                off(1, 1),
                off(0, -2),
                off(1, -2),
            ],
            (RotationState::R180, RotationState::R270) | (RotationState::R0, RotationState::R270) => seq![
                off(0, 0),
                off(1, 0),
                off(1, -1),
                off(0, 2),
                off(1, 2),
            ],
            (RotationState::R270, RotationState::R180) | (RotationState::R270, RotationState::R0) => seq![
                off(0, 0),
                off(-1, 0),
                off(-1, 1),
                off(0, -2),
                off(-1, -2),
            ],
            _ => seq![off(0, 0)],
        },
        KickCategory::I => match (from, to) {
            (RotationState::R0, RotationState::R90) | (RotationState::R270, RotationState::R180) => seq![
                off(0, 0),
                off(-2, 0),
                off(1, 0),
                off(-2, 1),
                off(1, -2),
            ],
            (RotationState::R90, RotationState::R0) | (RotationState::R180, RotationState::R270) => seq![
                off(0, 0),
                off(2, 0),
                off(-1, 0),
                off(2, -1),
                off(-1, 2),
            ],
            (RotationState::R90, RotationState::R180) | (RotationState::R0, RotationState::R270) => seq![
                off(0, 0),
                off(-1, 0),
                off(2, 0),
                off(-1, -2),
                off(2, 1),
            ],
            (RotationState::R180, RotationState::R90) | (RotationState::R270, RotationState::R0) => seq![
                off(0, 0),
                off(1, 0),
                off(-2, 0),
                off(1, 2),
                off(-2, -1),
            ],
            _ => seq![off(0, 0)],
        },
    }
}

/// The offsets to try, in order, when a piece of the given kind turns from `from` to
/// `to`.
pub open spec fn kicks(kind: PieceKind, from: RotationState, to: RotationState) -> Seq<Offset> {
    kick_table(category_of(kind), from, to)
}

fn step(dx: i32, dy: i32) -> (offset: Offset)
    requires
        -2 <= dx <= 2,
        -2 <= dy <= 2,
    ensures
        offset == off(dx as int, dy as int),
{
    Offset { dx, dy }
}

impl PieceKind {
    /// The group whose kick table the kind uses.
    pub fn kick_category(self) -> (category: KickCategory)
        ensures
            category == category_of(self),
    {
        match self {
            PieceKind::O => KickCategory::O,
            PieceKind::I => KickCategory::I,
            _ => KickCategory::Jlstz,
        }
    }

    /// The offsets to try, in order, when the piece turns from `from` to `to`.
    pub fn kick_offsets(self, from: RotationState, to: RotationState) -> (offsets: Vec<Offset>)
        ensures
            offsets@ == kicks(self, from, to),
    {
        let offsets = match self.kick_category() {
            KickCategory::O => vec![step(0, 0)],
            KickCategory::Jlstz => match (from, to) {
                (RotationState::R0, RotationState::R90) | (RotationState::R180, RotationState::R90) => vec![
                    step(0, 0),
                    step(-1, 0),
                    step(-1, -1),
                    step(0, 2),
                    step(-1, 2),
                ],
                (RotationState::R90, RotationState::R0) | (RotationState::R90, RotationState::R180) => vec![
                    step(0, 0),
                    step(1, 0),
                    step(1, 1),
                    step(0, -2),
                    step(1, -2),
                ],
                (RotationState::R180, RotationState::R270) | (RotationState::R0, RotationState::R270) => vec![
                    step(0, 0),
                    step(1, 0),
                    step(1, -1),
                    step(0, 2),
                    step(1, 2),
                ],
                (RotationState::R270, RotationState::R180) | (RotationState::R270, RotationState::R0) => vec![
                    step(0, 0),
                    step(-1, 0),
                    step(-1, 1),
                    step(0, -2),
                    step(-1, -2),
                ],
                _ => vec![step(0, 0)],
            },
            KickCategory::I => match (from, to) {
                (RotationState::R0, RotationState::R90) | (RotationState::R270, RotationState::R180) => vec![
                    step(0, 0),
                    step(-2, 0),
                    step(1, 0),
                    step(-2, 1),
                    step(1, -2),
                ],
                (RotationState::R90, RotationState::R0) | (RotationState::R180, RotationState::R270) => vec![
                    step(0, 0),
                    step(2, 0),
                    step(-1, 0),
                    step(2, -1),
                    step(-1, 2),
                ],
                (RotationState::R90, RotationState::R180) | (RotationState::R0, RotationState::R270) => vec![
                    step(0, 0),
                    step(-1, 0),
                    step(2, 0),
                    step(-1, -2),
                    step(2, 1),
                ],
                (RotationState::R180, RotationState::R90) | (RotationState::R270, RotationState::R0) => vec![
                    step(0, 0),
                    step(1, 0),
                    step(-2, 0),
                    step(1, 2),
                    step(-2, -1),
                ],
                _ => vec![step(0, 0)],
            },
        };
        offsets
    }
}

/// For every kind and every pair of states the table holds at least one offset, and
/// the first is the zero offset.
pub proof fn law_kicks_start_at_zero(kind: PieceKind, from: RotationState, to: RotationState)
    ensures
        kicks(kind, from, to).len() >= 1,
        kicks(kind, from, to)[0] == off(0, 0),
{
}

/// No kick moves a piece by more than two squares either way.
pub proof fn law_kicks_are_short(kind: PieceKind, from: RotationState, to: RotationState, k: int)
    requires
        0 <= k < kicks(kind, from, to).len(),
    ensures
        -2 <= kicks(kind, from, to)[k].dx <= 2,
        -2 <= kicks(kind, from, to)[k].dy <= 2,
{
}

/// Before any kick that lifts a piece the table tries the same sideways step
/// without the lift.
pub proof fn law_lifts_come_second(
    kind: PieceKind,
    from: RotationState,
    to: RotationState,
    k: int,
) -> (j: int)
    requires
        0 <= k < kicks(kind, from, to).len(),
        kicks(kind, from, to)[k].dy < 0,
    ensures
        0 <= j < k,
        kicks(kind, from, to)[j].dx == kicks(kind, from, to)[k].dx,
        kicks(kind, from, to)[j].dy == 0,
{
    let table = kicks(kind, from, to);
    if table[k].dx == table[0].dx {
        0
    } else if table[k].dx == table[1].dx {
        1
    } else {
        2
    }
}

} // verus!
