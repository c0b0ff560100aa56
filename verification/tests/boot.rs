use karpas::boot::{Karpas, KarpasBuilder, GRID_COLUMNS, GRID_ROWS};
use karpas::piece::PieceKind;

#[test]
fn the_builder_builds_the_game() {
    assert!(KarpasBuilder.build().is_ok());
}

#[test]
fn the_field_is_ten_by_twenty() {
    assert_eq!(GRID_COLUMNS, 10);
    assert_eq!(GRID_ROWS, 20);
}

#[test]
fn the_game_starts_a_session_on_its_field() {
    let game: Karpas = KarpasBuilder.build().unwrap();
    let session = game.session(1);
    assert_eq!(session.grid().width(), 10);
    assert_eq!(session.grid().height(), 20);
    assert!(!session.is_game_over());
    assert_eq!(session.piece().unwrap().kind, PieceKind::I);
    assert_eq!(session.next_kind(), PieceKind::S);
}
