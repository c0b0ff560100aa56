//! The seven piece kinds: their squares in each rotation state, and their colours.
//!
//! A piece is placed by an anchor, the top left corner of the square box in which
//! it turns. The squares of a piece are offsets from the anchor, `dx` to the right
//! and `dy` downwards. The shapes are those of the published guideline.

use vstd::prelude::*;
use crate::cell::Color;
use crate::rotation::RotationState;

verus! {

/// The kind of a piece.
#[derive(Clone, Copy, Debug, PartialEq, Eq, Structural)]
pub enum PieceKind {
    I,
    O,
    S,
    Z,
    J,
    L,
    T,
}

/// A step on the field: `dx` columns to the right and `dy` rows down.
#[derive(Clone, Copy, Debug, PartialEq, Eq, Structural)]
pub struct Offset {
    pub dx: i32,
    pub dy: i32,
}

/// The geometry and colour of a piece kind in one rotation state.
#[derive(Clone, Copy, Debug)]
pub struct PieceDefinition {
    pub offsets: [Offset; 4],
    pub color: Color,
}

/// The offset `(dx, dy)`.
pub open spec fn off(dx: int, dy: int) -> Offset {
    Offset { dx: dx as i32, dy: dy as i32 }
}

/// The four squares of `kind` in state `rotation`, as offsets from the anchor.
pub open spec fn shape(kind: PieceKind, rotation: RotationState) -> Seq<Offset> {
    match kind {
        PieceKind::I => match rotation {
            RotationState::R0 => seq![off(0, 1), off(1, 1), off(2, 1), off(3, 1)],
            RotationState::R90 => seq![off(2, 0), off(2, 1), off(2, 2), off(2, 3)],
            RotationState::R180 => seq![off(0, 2), off(1, 2), off(2, 2), off(3, 2)],
            RotationState::R270 => seq![off(1, 0), off(1, 1), off(1, 2), off(1, 3)],
        },
        PieceKind::O => seq![off(0, 0), off(1, 0), off(0, 1), off(1, 1)],
        PieceKind::S => match rotation {
            RotationState::R0 => seq![off(1, 0), off(2, 0), off(0, 1), off(1, 1)],
            RotationState::R90 => seq![off(1, 0), off(1, 1), off(2, 1), off(2, 2)],
            RotationState::R180 => seq![off(1, 1), off(2, 1), off(0, 2), off(1, 2)],
            RotationState::R270 => seq![off(0, 0), off(0, 1), off(1, 1), off(1, 2)],
        },
        PieceKind::Z => match rotation {
            RotationState::R0 => seq![off(0, 0), off(1, 0), off(1, 1), off(2, 1)],
            RotationState::R90 => seq![off(2, 0), off(1, 1), off(2, 1), off(1, 2)],
            RotationState::R180 => seq![off(0, 1), off(1, 1), off(1, 2), off(2, 2)],
            RotationState::R270 => seq![off(1, 0), off(0, 1), off(1, 1), off(0, 2)],
        },
        PieceKind::J => match rotation {
            RotationState::R0 => seq![off(0, 0), off(0, 1), off(1, 1), off(2, 1)],
            RotationState::R90 => seq![off(1, 0), off(2, 0), off(1, 1), off(1, 2)],
            RotationState::R180 => seq![off(0, 1), off(1, 1), off(2, 1), off(2, 2)],
            RotationState::R270 => seq![off(1, 0), off(1, 1), off(0, 2), off(1, 2)],
        },
        PieceKind::L => match rotation {
            RotationState::R0 => seq![off(2, 0), off(0, 1), off(1, 1), off(2, 1)],
            RotationState::R90 => seq![off(1, 0), off(1, 1), off(1, 2), off(2, 2)],
            RotationState::R180 => seq![off(0, 1), off(1, 1), off(2, 1), off(0, 2)],
            RotationState::R270 => seq![off(0, 0), off(1, 0), off(1, 1), off(1, 2)],
        },
        PieceKind::T => match rotation {
            RotationState::R0 => seq![off(1, 0), off(0, 1), off(1, 1), off(2, 1)],
            RotationState::R90 => seq![off(1, 0), off(1, 1), off(2, 1), off(1, 2)],
            RotationState::R180 => seq![off(0, 1), off(1, 1), off(2, 1), off(1, 2)],
            RotationState::R270 => seq![off(1, 0), off(0, 1), off(1, 1), off(1, 2)],
        },
    }
}

/// Side of the square box in which a piece of the given kind turns.
pub open spec fn box_side(kind: PieceKind) -> int {
    match kind {
        PieceKind::I => 4,
        PieceKind::O => 2,
        _ => 3,
    }
}

/// Display colour of a piece kind.
pub open spec fn color_of(kind: PieceKind) -> Color {
    match kind {
        PieceKind::I => Color::Cyan,
        PieceKind::O => Color::Yellow,
        PieceKind::S => Color::Green,
        PieceKind::Z => Color::Red,
        PieceKind::J => Color::Blue,
        PieceKind::L => Color::Orange,
        PieceKind::T => Color::Purple,
    }
}

/// Where a square of a box of the given side goes when the box makes a quarter turn
/// clockwise.
pub open spec fn turned_cw(square: Offset, side: int) -> Offset {
    off(side - 1 - square.dy, square.dx as int)
}

fn at(dx: i32, dy: i32) -> (offset: Offset)
    requires
        0 <= dx < 4,
        0 <= dy < 4,
    ensures
        offset == off(dx as int, dy as int),
{
    Offset { dx, dy }
}

impl PieceKind {
    /// The seven kinds, in a fixed order.
    pub fn all() -> (kinds: [PieceKind; 7])
        ensures
            kinds@ == all_kinds(),
    {
        let kinds = [
            PieceKind::I,
            PieceKind::O,
            PieceKind::S,
            PieceKind::Z,
            PieceKind::J,
            PieceKind::L,
            PieceKind::T,
        ];
        kinds
    }

    /// Side of the box in which the piece turns.
    pub fn box_side(self) -> (side: i32)
        ensures
            side == box_side(self),
    {
        match self {
            PieceKind::I => 4,
            PieceKind::O => 2,
            _ => 3,
        }
    }

    /// Display colour of the kind.
    pub fn color(self) -> (color: Color)
        ensures
            color == color_of(self),
    {
        match self {
            PieceKind::I => Color::Cyan,
            PieceKind::O => Color::Yellow,
            PieceKind::S => Color::Green,
            PieceKind::Z => Color::Red,
            PieceKind::J => Color::Blue,
            PieceKind::L => Color::Orange,
            PieceKind::T => Color::Purple,
        }
    }

    /// The four squares of the piece in the given state, as offsets from the anchor.
    pub fn offsets(self, rotation: RotationState) -> (offsets: [Offset; 4])
        ensures
            offsets@ == shape(self, rotation),
    {
        let offsets = match self {
            PieceKind::I => match rotation {
                RotationState::R0 => [at(0, 1), at(1, 1), at(2, 1), at(3, 1)],
                RotationState::R90 => [at(2, 0), at(2, 1), at(2, 2), at(2, 3)],
                RotationState::R180 => [at(0, 2), at(1, 2), at(2, 2), at(3, 2)],
                RotationState::R270 => [at(1, 0), at(1, 1), at(1, 2), at(1, 3)],
            },
            PieceKind::O => [at(0, 0), at(1, 0), at(0, 1), at(1, 1)],
            PieceKind::S => match rotation {
                RotationState::R0 => [at(1, 0), at(2, 0), at(0, 1), at(1, 1)],
                RotationState::R90 => [at(1, 0), at(1, 1), at(2, 1), at(2, 2)],
                RotationState::R180 => [at(1, 1), at(2, 1), at(0, 2), at(1, 2)],
                RotationState::R270 => [at(0, 0), at(0, 1), at(1, 1), at(1, 2)],
            },
            PieceKind::Z => match rotation {
                RotationState::R0 => [at(0, 0), at(1, 0), at(1, 1), at(2, 1)],
                RotationState::R90 => [at(2, 0), at(1, 1), at(2, 1), at(1, 2)],
                RotationState::R180 => [at(0, 1), at(1, 1), at(1, 2), at(2, 2)],
                RotationState::R270 => [at(1, 0), at(0, 1), at(1, 1), at(0, 2)],
            },
            PieceKind::J => match rotation {
                RotationState::R0 => [at(0, 0), at(0, 1), at(1, 1), at(2, 1)],
                RotationState::R90 => [at(1, 0), at(2, 0), at(1, 1), at(1, 2)],
                RotationState::R180 => [at(0, 1), at(1, 1), at(2, 1), at(2, 2)],
                RotationState::R270 => [at(1, 0), at(1, 1), at(0, 2), at(1, 2)],
            },
            PieceKind::L => match rotation {
                RotationState::R0 => [at(2, 0), at(0, 1), at(1, 1), at(2, 1)],
                RotationState::R90 => [at(1, 0), at(1, 1), at(1, 2), at(2, 2)],
                RotationState::R180 => [at(0, 1), at(1, 1), at(2, 1), at(0, 2)],
                RotationState::R270 => [at(0, 0), at(1, 0), at(1, 1), at(1, 2)],
            },
            PieceKind::T => match rotation {
                RotationState::R0 => [at(1, 0), at(0, 1), at(1, 1), at(2, 1)],
                RotationState::R90 => [at(1, 0), at(1, 1), at(2, 1), at(1, 2)],
                RotationState::R180 => [at(0, 1), at(1, 1), at(2, 1), at(1, 2)],
                RotationState::R270 => [at(1, 0), at(0, 1), at(1, 1), at(1, 2)],
            },
        };
        offsets
    }

    /// Geometry and colour of the piece in the given state.
    pub fn definition(self, rotation: RotationState) -> (definition: PieceDefinition)
        ensures
            definition.offsets@ == shape(self, rotation),
            definition.color == color_of(self),
    {
        PieceDefinition { offsets: self.offsets(rotation), color: self.color() }
    }
}

/// The seven kinds, in a fixed order.
pub open spec fn all_kinds() -> Seq<PieceKind> {
    seq![
        PieceKind::I,
        PieceKind::O,
        PieceKind::S,
        PieceKind::Z,
        PieceKind::J,
        PieceKind::L,
        PieceKind::T,
    ]
}

/// Every shape has four squares, no two of them the same, all inside the box of
/// its kind.
pub proof fn law_shape_in_box(kind: PieceKind, rotation: RotationState)
    ensures
        shape(kind, rotation).len() == 4,
        forall|i: int|
            0 <= i < 4 ==> 0 <= (#[trigger] shape(kind, rotation)[i]).dx < box_side(kind) && 0
                <= shape(kind, rotation)[i].dy < box_side(kind),
        forall|i: int, j: int|
            0 <= i < j < 4 ==> (#[trigger] shape(kind, rotation)[i]) != (#[trigger] shape(
                kind,
                rotation,
            )[j]),
{
    let s = shape(kind, rotation);
    assert(s[0] != s[1] && s[0] != s[2] && s[0] != s[3] && s[1] != s[2] && s[1] != s[3] && s[2]
        != s[3]);
}

/// The shape in the next state clockwise is the shape turned a quarter clockwise in
/// its box: each square of the one, turned, is a square of the other.
pub proof fn law_shapes_turn(kind: PieceKind, rotation: RotationState, i: int)
    requires
        0 <= i < 4,
    ensures
        shape(kind, RotationState::at(rotation.index() + 1)).contains(
            turned_cw(shape(kind, rotation)[i], box_side(kind)),
        ),
{
    let s = shape(kind, rotation);
    let t = shape(kind, RotationState::at(rotation.index() + 1));
    let q = turned_cw(s[i], box_side(kind));
    assert(q == t[0] || q == t[1] || q == t[2] || q == t[3]);
}

} // verus!
