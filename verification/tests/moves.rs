use karpas::active::{collides, spawn, ActivePiece, Position, Shift, Spin};
use karpas::cell::{Cell, Color};
use karpas::error::EngineError;
use karpas::grid::Grid;
use karpas::piece::PieceKind;
use karpas::rotation::RotationState;

fn piece(kind: PieceKind, rotation: RotationState, col: i32, row: i32) -> ActivePiece {
    ActivePiece { kind, rotation, anchor: Position { col, row } }
}

fn at(col: i32, row: i32) -> Position {
    Position { col, row }
}

#[test]
fn pieces_enter_in_the_middle_of_the_top_rows() {
    let grid = Grid::new(10, 20);
    assert_eq!(ActivePiece::enter(PieceKind::O, &grid), piece(PieceKind::O, RotationState::R0, 4, 0));
    assert_eq!(ActivePiece::enter(PieceKind::I, &grid), piece(PieceKind::I, RotationState::R0, 3, 0));
    for kind in [PieceKind::S, PieceKind::Z, PieceKind::J, PieceKind::L, PieceKind::T] {
        assert_eq!(ActivePiece::enter(kind, &grid), piece(kind, RotationState::R0, 3, 0));
    }
}

#[test]
fn pieces_enter_by_the_width_of_the_field() {
    assert_eq!(ActivePiece::enter(PieceKind::T, &Grid::new(7, 5)).anchor, at(2, 0));
    assert_eq!(ActivePiece::enter(PieceKind::T, &Grid::new(3, 5)).anchor, at(0, 0));
    assert_eq!(ActivePiece::enter(PieceKind::T, &Grid::new(2, 5)).anchor, at(0, 0));
    assert_eq!(ActivePiece::enter(PieceKind::I, &Grid::new(0, 5)).anchor, at(0, 0));
    assert_eq!(ActivePiece::enter(PieceKind::O, &Grid::new(65535, 1)).anchor, at(32766, 0));
}

#[test]
fn spawn_gives_the_piece_where_it_fits() {
    let grid = Grid::new(10, 20);
    assert_eq!(spawn(&grid, PieceKind::T), Ok(piece(PieceKind::T, RotationState::R0, 3, 0)));
}

#[test]
fn spawn_is_blocked_by_a_block_in_the_way() {
    let mut grid = Grid::new(10, 20);
    grid.set(4, 0, Color::Red).unwrap();
    assert_eq!(spawn(&grid, PieceKind::T), Err(EngineError::SpawnBlocked));
    assert_eq!(spawn(&grid, PieceKind::O), Err(EngineError::SpawnBlocked));
    assert_eq!(spawn(&grid, PieceKind::I), Ok(piece(PieceKind::I, RotationState::R0, 3, 0)));
}

#[test]
fn spawn_is_blocked_when_the_top_two_rows_are_full_in_the_spawn_columns() {
    for kind in PieceKind::all() {
        let mut grid = Grid::new(10, 20);
        let first = ActivePiece::enter(kind, &grid).anchor.col;
        for col in first..first + kind.box_side() {
            grid.set(col, 0, Color::Red).unwrap();
            grid.set(col, 1, Color::Red).unwrap();
        }
        assert_eq!(spawn(&grid, kind), Err(EngineError::SpawnBlocked));
    }
}

#[test]
fn spawn_is_blocked_on_a_field_too_small_for_the_piece() {
    assert_eq!(spawn(&Grid::new(2, 20), PieceKind::T), Err(EngineError::SpawnBlocked));
    assert_eq!(spawn(&Grid::new(10, 1), PieceKind::I), Err(EngineError::SpawnBlocked));
    assert_eq!(spawn(&Grid::new(10, 2), PieceKind::I), Ok(piece(PieceKind::I, RotationState::R0, 3, 0)));
    assert_eq!(spawn(&Grid::new(0, 0), PieceKind::O), Err(EngineError::SpawnBlocked));
}

#[test]
fn a_piece_collides_with_walls_floor_and_blocks_but_not_with_the_sky() {
    let mut grid = Grid::new(10, 20);
    let (kind, state) = (PieceKind::T, RotationState::R0);
    assert!(!collides(&grid, kind, state, at(0, 0)));
    assert!(collides(&grid, kind, state, at(-1, 0)));
    assert!(!collides(&grid, kind, state, at(7, 0)));
    assert!(collides(&grid, kind, state, at(8, 0)));
    assert!(!collides(&grid, kind, state, at(3, 18)));
    assert!(collides(&grid, kind, state, at(3, 19)));
    assert!(!collides(&grid, kind, state, at(3, -2)));
    assert!(!collides(&grid, kind, state, at(3, -1000)));
    assert!(collides(&grid, kind, state, at(-1, -1000)));
    assert!(collides(&grid, kind, state, at(8, -1000)));
    grid.set(4, 5, Color::Red).unwrap();
    assert!(collides(&grid, kind, state, at(3, 5)));
    assert!(collides(&grid, kind, state, at(3, 4)));
    assert!(!collides(&grid, kind, state, at(3, 3)));
    assert!(collides(&grid, kind, state, at(4, 4)));
    assert!(!collides(&grid, kind, state, at(5, 4)));
}

#[test]
fn checking_for_a_collision_leaves_the_field_as_it_is() {
    let mut grid = Grid::new(6, 6);
    grid.set(2, 3, Color::Blue).unwrap();
    let before = grid.rows();
    for col in -3..8 {
        for row in -3..8 {
            let _ = collides(&grid, PieceKind::S, RotationState::R90, at(col, row));
        }
    }
    assert_eq!(grid.rows(), before);
}

#[test]
fn collision_at_the_ends_of_the_number_range() {
    let grid = Grid::new(10, 20);
    let (kind, state) = (PieceKind::I, RotationState::R0);
    assert!(collides(&grid, kind, state, at(i32::MAX, 0)));
    assert!(collides(&grid, kind, state, at(i32::MIN, 0)));
    assert!(collides(&grid, kind, state, at(3, i32::MAX)));
    assert!(!collides(&grid, kind, state, at(3, i32::MIN)));
}

#[test]
fn shifting_moves_by_one_square() {
    let grid = Grid::new(10, 20);
    let start = piece(PieceKind::J, RotationState::R0, 3, 0);
    assert_eq!(start.shift(&grid, Shift::Left), Some(piece(PieceKind::J, RotationState::R0, 2, 0)));
    assert_eq!(start.shift(&grid, Shift::Right), Some(piece(PieceKind::J, RotationState::R0, 4, 0)));
    assert_eq!(start.shift(&grid, Shift::Down), Some(piece(PieceKind::J, RotationState::R0, 3, 1)));
}

#[test]
fn shifting_stops_at_walls_floor_and_blocks() {
    let mut grid = Grid::new(10, 20);
    assert_eq!(piece(PieceKind::J, RotationState::R0, 0, 0).shift(&grid, Shift::Left), None);
    assert_eq!(piece(PieceKind::J, RotationState::R0, 7, 0).shift(&grid, Shift::Right), None);
    assert_eq!(piece(PieceKind::J, RotationState::R0, 3, 18).shift(&grid, Shift::Down), None);
    grid.set(5, 10, Color::Red).unwrap();
    assert_eq!(piece(PieceKind::J, RotationState::R0, 3, 8).shift(&grid, Shift::Down), None);
    assert_eq!(piece(PieceKind::J, RotationState::R0, 2, 9).shift(&grid, Shift::Right), None);
    assert_eq!(piece(PieceKind::J, RotationState::R0, 6, 9).shift(&grid, Shift::Left), None);
}

#[test]
fn shifting_at_the_ends_of_the_number_range() {
    let grid = Grid::new(10, 20);
    assert_eq!(piece(PieceKind::O, RotationState::R0, i32::MAX, 0).shift(&grid, Shift::Right), None);
    assert_eq!(piece(PieceKind::O, RotationState::R0, i32::MIN, 0).shift(&grid, Shift::Left), None);
    assert_eq!(piece(PieceKind::O, RotationState::R0, 0, i32::MAX).shift(&grid, Shift::Down), None);
    assert_eq!(
        piece(PieceKind::O, RotationState::R0, 0, i32::MIN).shift(&grid, Shift::Down),
        Some(piece(PieceKind::O, RotationState::R0, 0, i32::MIN + 1))
    );
}

#[test]
fn spin_gives_the_neighbouring_state() {
    assert_eq!(Spin::Clockwise.apply(RotationState::R270), RotationState::R0);
    assert_eq!(Spin::CounterClockwise.apply(RotationState::R0), RotationState::R270);
    assert_eq!(Spin::Clockwise.apply(RotationState::R90), RotationState::R180);
}

#[test]
fn the_o_piece_turns_four_times_and_is_back_where_it_began() {
    let grid = Grid::new(10, 20);
    let start = spawn(&grid, PieceKind::O).unwrap();
    assert_eq!(start.anchor.col, 4);
    assert_eq!(start.rotation, RotationState::R0);
    let mut turning = start;
    let mut seen = Vec::new();
    for _ in 0..4 {
        turning = turning.rotate(&grid, Spin::Clockwise).unwrap();
        assert_eq!(turning.anchor, start.anchor);
        seen.push(turning.rotation);
    }
    assert_eq!(
        seen,
        vec![RotationState::R90, RotationState::R180, RotationState::R270, RotationState::R0]
    );
    assert_eq!(turning, start);
}

#[test]
fn on_an_empty_field_every_piece_turns_in_place() {
    let grid = Grid::new(10, 20);
    for kind in PieceKind::all() {
        for state in [RotationState::R0, RotationState::R90, RotationState::R180, RotationState::R270] {
            let start = piece(kind, state, 3, 8);
            assert_eq!(start.rotate(&grid, Spin::Clockwise), Ok(piece(kind, state.cw(), 3, 8)));
            assert_eq!(start.rotate(&grid, Spin::CounterClockwise), Ok(piece(kind, state.ccw(), 3, 8)));
        }
    }
}

#[test]
fn an_upright_i_piece_at_the_left_wall_is_kicked_to_the_right() {
    let grid = Grid::new(10, 20);
    let start = piece(PieceKind::I, RotationState::R90, -2, 5);
    assert!(!collides(&grid, start.kind, start.rotation, start.anchor));
    assert_eq!(
        start.rotate(&grid, Spin::CounterClockwise),
        Ok(piece(PieceKind::I, RotationState::R0, 0, 5))
    );
    assert_eq!(
        start.rotate(&grid, Spin::Clockwise),
        Ok(piece(PieceKind::I, RotationState::R180, 0, 5))
    );
}

#[test]
fn an_upright_t_piece_at_the_right_wall_is_kicked_to_the_left() {
    let grid = Grid::new(10, 20);
    let start = piece(PieceKind::T, RotationState::R270, 8, 5);
    assert!(!collides(&grid, start.kind, start.rotation, start.anchor));
    assert_eq!(
        start.rotate(&grid, Spin::Clockwise),
        Ok(piece(PieceKind::T, RotationState::R0, 7, 5))
    );
}

#[test]
fn a_t_piece_on_the_floor_is_lifted_by_a_kick() {
    let mut grid = Grid::new(10, 20);
    let start = piece(PieceKind::T, RotationState::R0, 3, 18);
    assert!(!collides(&grid, start.kind, start.rotation, start.anchor));
    assert_eq!(
        start.rotate(&grid, Spin::Clockwise),
        Ok(piece(PieceKind::T, RotationState::R90, 2, 17))
    );
    grid.set(3, 17, Color::Red).unwrap();
    assert!(!collides(&grid, start.kind, start.rotation, start.anchor));
    assert_eq!(start.rotate(&grid, Spin::Clockwise), Err(EngineError::RotationRejected));
}

#[test]
fn a_turn_with_no_room_is_rejected() {
    let grid = Grid::new(1, 10);
    let start = piece(PieceKind::I, RotationState::R90, -2, 3);
    assert!(!collides(&grid, start.kind, start.rotation, start.anchor));
    assert_eq!(start.rotate(&grid, Spin::Clockwise), Err(EngineError::RotationRejected));
    assert_eq!(start.rotate(&grid, Spin::CounterClockwise), Err(EngineError::RotationRejected));
}

#[test]
fn a_turn_in_a_tight_well_is_rejected() {
    let mut grid = Grid::new(10, 20);
    for row in 0..20 {
        for col in 0..10 {
            if col != 4 {
                grid.set(col, row, Color::Red).unwrap();
            }
        }
    }
    let start = piece(PieceKind::I, RotationState::R90, 2, 10);
    assert!(!collides(&grid, start.kind, start.rotation, start.anchor));
    assert_eq!(start.rotate(&grid, Spin::Clockwise), Err(EngineError::RotationRejected));
}

#[test]
fn a_piece_high_above_the_field_is_not_lifted_by_a_turn() {
    let grid = Grid::new(10, 20);
    for kind in PieceKind::all() {
        for state in [RotationState::R0, RotationState::R90, RotationState::R180, RotationState::R270] {
            for col in -3..10 {
                let start = piece(kind, state, col, -4);
                for spin in [Spin::Clockwise, Spin::CounterClockwise] {
                    if let Ok(turned) = start.rotate(&grid, spin) {
                        assert!(turned.anchor.row >= -4);
                    }
                }
            }
        }
    }
}

#[test]
fn an_i_piece_dropped_on_an_empty_field_lands_on_the_bottom_row() {
    let grid = Grid::new(10, 20);
    let mut current = spawn(&grid, PieceKind::I).unwrap();
    while let Some(moved) = current.shift(&grid, Shift::Left) {
        current = moved;
    }
    assert_eq!(current.anchor.col, 0);
    let mut columns = 0;
    loop {
        let rested = current.hard_drop(&grid);
        assert_eq!(rested.anchor, at(current.anchor.col, 18));
        assert_eq!(rested.rotation, RotationState::R0);
        for square in rested.cells() {
            assert_eq!(square.row, 19);
        }
        columns += 1;
        match current.shift(&grid, Shift::Right) {
            Some(moved) => current = moved,
            None => break,
        }
    }
    assert_eq!(columns, 7);
    assert_eq!(current.anchor.col, 6);
}

#[test]
fn an_upright_i_piece_dropped_on_an_empty_field_stands_on_the_bottom_row() {
    let grid = Grid::new(10, 20);
    for col in -2..8 {
        let rested = piece(PieceKind::I, RotationState::R90, col, 0).hard_drop(&grid);
        assert_eq!(rested.anchor, at(col, 16));
        let lowest = rested.cells().iter().map(|square| square.row).max();
        assert_eq!(lowest, Some(19));
    }
}

#[test]
fn every_piece_dropped_on_an_empty_field_reaches_the_bottom_row() {
    let grid = Grid::new(10, 20);
    for kind in PieceKind::all() {
        for state in [RotationState::R0, RotationState::R90, RotationState::R180, RotationState::R270] {
            let rested = piece(kind, state, 3, -2).hard_drop(&grid);
            let lowest = rested.cells().iter().map(|square| square.row).max();
            assert_eq!(lowest, Some(19));
            assert_eq!(rested.anchor.col, 3);
        }
    }
}

#[test]
fn a_dropped_piece_rests_on_the_blocks_below_it() {
    let mut grid = Grid::new(10, 20);
    grid.set(5, 12, Color::Red).unwrap();
    let rested = piece(PieceKind::O, RotationState::R0, 4, 0).hard_drop(&grid);
    assert_eq!(rested.anchor, at(4, 10));
    let beside = piece(PieceKind::O, RotationState::R0, 6, 0).hard_drop(&grid);
    assert_eq!(beside.anchor, at(6, 18));
}

#[test]
fn a_piece_that_rests_already_does_not_drop() {
    let grid = Grid::new(10, 20);
    let start = piece(PieceKind::O, RotationState::R0, 4, 18);
    assert_eq!(start.hard_drop(&grid), start);
    let below = piece(PieceKind::O, RotationState::R0, 4, 25);
    assert_eq!(below.hard_drop(&grid), below);
}

#[test]
fn cells_are_the_anchor_plus_the_shape() {
    let squares = piece(PieceKind::S, RotationState::R0, 3, -1).cells();
    assert_eq!(squares, [at(4, -1), at(5, -1), at(3, 0), at(4, 0)]);
}

#[test]
fn locking_writes_the_squares_in_the_colour_of_the_piece() {
    let mut grid = Grid::new(10, 20);
    piece(PieceKind::Z, RotationState::R0, 3, 18).lock_into(&mut grid);
    for row in 0..20 {
        for col in 0..10 {
            let inside = [(3, 18), (4, 18), (4, 19), (5, 19)].contains(&(col, row));
            let expected = if inside { Cell::Filled(Color::Red) } else { Cell::Empty };
            assert_eq!(grid.get(col, row), Ok(expected));
        }
    }
}

#[test]
fn locking_passes_over_squares_above_the_field() {
    let mut grid = Grid::new(10, 20);
    piece(PieceKind::I, RotationState::R90, 3, -2).lock_into(&mut grid);
    assert_eq!(grid.get(5, 0), Ok(Cell::Filled(Color::Cyan)));
    assert_eq!(grid.get(5, 1), Ok(Cell::Filled(Color::Cyan)));
    assert_eq!(grid.get(5, 2), Ok(Cell::Empty));
    let filled = grid.rows().iter().flatten().filter(|cell| cell.is_filled()).count();
    assert_eq!(filled, 2);
}
