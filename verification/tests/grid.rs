use karpas::cell::{Cell, Color};
use karpas::error::EngineError;
use karpas::grid::Grid;

fn fill_row(grid: &mut Grid, row: i32, except: &[i32]) {
    for col in 0..grid.width() as i32 {
        if !except.contains(&col) {
            assert_eq!(grid.set(col, row, Color::Red), Ok(()));
        }
    }
}

fn row_is_empty(grid: &Grid, row: i32) -> bool {
    (0..grid.width() as i32).all(|col| grid.get(col, row) == Ok(Cell::Empty))
}

#[test]
fn new_grid_is_empty_and_has_the_size_asked_for() {
    let grid = Grid::new(10, 20);
    assert_eq!(grid.width(), 10);
    assert_eq!(grid.height(), 20);
    for row in 0..20 {
        assert!(row_is_empty(&grid, row));
    }
    assert_eq!(grid.full_rows(), Vec::<usize>::new());
}

#[test]
fn set_writes_one_square() {
    let mut grid = Grid::new(10, 20);
    assert_eq!(grid.set(3, 7, Color::Blue), Ok(()));
    assert_eq!(grid.get(3, 7), Ok(Cell::Filled(Color::Blue)));
    assert_eq!(grid.get(7, 3), Ok(Cell::Empty));
    assert_eq!(grid.get(2, 7), Ok(Cell::Empty));
    assert_eq!(grid.get(3, 6), Ok(Cell::Empty));
}

#[test]
fn set_outside_the_field_is_out_of_bounds() {
    let mut grid = Grid::new(10, 20);
    assert_eq!(grid.set(-1, 0, Color::Blue), Err(EngineError::OutOfBounds));
    assert_eq!(grid.set(10, 0, Color::Blue), Err(EngineError::OutOfBounds));
    assert_eq!(grid.set(0, -1, Color::Blue), Err(EngineError::OutOfBounds));
    assert_eq!(grid.set(0, 20, Color::Blue), Err(EngineError::OutOfBounds));
    assert_eq!(grid.set(i32::MAX, i32::MIN, Color::Blue), Err(EngineError::OutOfBounds));
    for row in 0..20 {
        assert!(row_is_empty(&grid, row));
    }
}

#[test]
fn get_outside_the_field_is_out_of_bounds() {
    let grid = Grid::new(10, 20);
    assert_eq!(grid.get(-1, 5), Err(EngineError::OutOfBounds));
    assert_eq!(grid.get(10, 5), Err(EngineError::OutOfBounds));
    assert_eq!(grid.get(5, -1), Err(EngineError::OutOfBounds));
    assert_eq!(grid.get(5, 20), Err(EngineError::OutOfBounds));
    assert_eq!(grid.get(9, 19), Ok(Cell::Empty));
}

#[test]
fn walls_and_floor_are_occupied_and_the_sky_is_not() {
    let mut grid = Grid::new(10, 20);
    grid.set(4, 4, Color::Green).unwrap();
    assert!(grid.is_occupied(4, 4));
    assert!(!grid.is_occupied(4, 5));
    assert!(grid.is_occupied(-1, 5));
    assert!(grid.is_occupied(10, 5));
    assert!(grid.is_occupied(5, 20));
    assert!(grid.is_occupied(-1, 20));
    assert!(!grid.is_occupied(5, -1));
    assert!(!grid.is_occupied(5, -100));
    assert!(!grid.is_occupied(-1, -1));
    assert!(!grid.is_occupied(10, -3));
}

#[test]
fn full_rows_are_listed_in_ascending_order() {
    let mut grid = Grid::new(4, 6);
    fill_row(&mut grid, 5, &[]);
    fill_row(&mut grid, 2, &[]);
    fill_row(&mut grid, 3, &[1]);
    fill_row(&mut grid, 0, &[]);
    assert_eq!(grid.full_rows(), vec![0, 2, 5]);
}

#[test]
fn cell_knows_whether_it_is_filled() {
    assert!(!Cell::Empty.is_filled());
    assert!(Cell::Filled(Color::Cyan).is_filled());
}

#[test]
fn locking_the_missing_square_fills_and_clears_the_bottom_row() {
    let mut grid = Grid::new(10, 20);
    fill_row(&mut grid, 19, &[5]);
    grid.set(2, 10, Color::Purple).unwrap();
    assert_eq!(grid.full_rows(), Vec::<usize>::new());
    assert_eq!(grid.set(5, 19, Color::Cyan), Ok(()));
    assert_eq!(grid.full_rows(), vec![19]);
    assert_eq!(grid.clear_rows(&vec![19]), 1);
    assert!(row_is_empty(&grid, 19));
    assert_eq!(grid.get(2, 11), Ok(Cell::Filled(Color::Purple)));
    assert_eq!(grid.get(2, 10), Ok(Cell::Empty));
    assert!(row_is_empty(&grid, 0));
    assert_eq!(grid.full_rows(), Vec::<usize>::new());
    assert_eq!(grid.height(), 20);
    assert_eq!(grid.width(), 10);
}

#[test]
fn rows_above_a_cleared_row_shift_down_by_one() {
    let mut grid = Grid::new(10, 20);
    for row in 0..19 {
        grid.set(row % 10, row, Color::Orange).unwrap();
    }
    fill_row(&mut grid, 19, &[]);
    assert_eq!(grid.clear_rows(&vec![19]), 1);
    assert!(row_is_empty(&grid, 0));
    for row in 0..19 {
        for col in 0..10 {
            let expected = if col == row % 10 { Cell::Filled(Color::Orange) } else { Cell::Empty };
            assert_eq!(grid.get(col, row + 1), Ok(expected));
        }
    }
}

#[test]
fn clearing_rows_that_are_apart_shifts_each_row_by_the_rows_cleared_below_it() {
    let mut grid = Grid::new(3, 6);
    grid.set(0, 0, Color::Cyan).unwrap();
    fill_row(&mut grid, 1, &[]);
    grid.set(1, 2, Color::Yellow).unwrap();
    grid.set(2, 3, Color::Green).unwrap();
    fill_row(&mut grid, 4, &[]);
    grid.set(0, 5, Color::Blue).unwrap();
    grid.set(2, 5, Color::Blue).unwrap();
    assert_eq!(grid.full_rows(), vec![1, 4]);
    assert_eq!(grid.clear_rows(&vec![1, 4]), 2);
    let expected = vec![
        vec![Cell::Empty, Cell::Empty, Cell::Empty],
        vec![Cell::Empty, Cell::Empty, Cell::Empty],
        vec![Cell::Filled(Color::Cyan), Cell::Empty, Cell::Empty],
        vec![Cell::Empty, Cell::Filled(Color::Yellow), Cell::Empty],
        vec![Cell::Empty, Cell::Empty, Cell::Filled(Color::Green)],
        vec![Cell::Filled(Color::Blue), Cell::Empty, Cell::Filled(Color::Blue)],
    ];
    assert_eq!(grid.rows(), expected);
}

#[test]
fn clearing_keeps_the_order_of_squares_within_a_row() {
    let mut grid = Grid::new(4, 3);
    grid.set(0, 0, Color::Cyan).unwrap();
    grid.set(1, 0, Color::Yellow).unwrap();
    grid.set(3, 0, Color::Red).unwrap();
    fill_row(&mut grid, 2, &[]);
    assert_eq!(grid.clear_rows(&vec![2]), 1);
    assert_eq!(
        grid.rows()[1],
        vec![
            Cell::Filled(Color::Cyan),
            Cell::Filled(Color::Yellow),
            Cell::Empty,
            Cell::Filled(Color::Red)
        ]
    );
}

#[test]
fn clear_rows_passes_over_rows_that_are_not_there_and_counts_a_row_once() {
    let mut grid = Grid::new(2, 3);
    grid.set(0, 0, Color::Cyan).unwrap();
    grid.set(1, 1, Color::Red).unwrap();
    grid.set(0, 2, Color::Blue).unwrap();
    assert_eq!(grid.clear_rows(&vec![7, 1, 1, 3]), 1);
    let expected = vec![
        vec![Cell::Empty, Cell::Empty],
        vec![Cell::Filled(Color::Cyan), Cell::Empty],
        vec![Cell::Filled(Color::Blue), Cell::Empty],
    ];
    assert_eq!(grid.rows(), expected);
    assert_eq!(grid.clear_rows(&vec![]), 0);
    assert_eq!(grid.rows(), expected);
}

#[test]
fn clear_rows_takes_out_rows_whether_full_or_not() {
    let mut grid = Grid::new(2, 2);
    grid.set(0, 0, Color::Cyan).unwrap();
    grid.set(1, 1, Color::Red).unwrap();
    assert_eq!(grid.clear_rows(&vec![0, 1]), 2);
    assert_eq!(grid.rows(), vec![vec![Cell::Empty, Cell::Empty], vec![Cell::Empty, Cell::Empty]]);
}

#[test]
fn clearing_full_rows_twice_clears_nothing_the_second_time() {
    let mut grid = Grid::new(5, 8);
    fill_row(&mut grid, 7, &[]);
    fill_row(&mut grid, 6, &[2]);
    fill_row(&mut grid, 5, &[]);
    grid.set(1, 4, Color::Green).unwrap();
    assert_eq!(grid.clear_full_rows(), 2);
    let after_first = grid.rows();
    assert_eq!(grid.full_rows(), Vec::<usize>::new());
    assert_eq!(grid.clear_full_rows(), 0);
    assert_eq!(grid.rows(), after_first);
    let rows = grid.full_rows();
    assert_eq!(grid.clear_rows(&rows), 0);
    assert_eq!(grid.rows(), after_first);
    assert_eq!(grid.get(1, 6), Ok(Cell::Filled(Color::Green)));
    assert_eq!(grid.get(2, 7), Ok(Cell::Empty));
    assert_eq!(grid.get(0, 7), Ok(Cell::Filled(Color::Red)));
}

#[test]
fn clearing_full_rows_of_an_empty_grid_clears_nothing() {
    let mut grid = Grid::new(10, 20);
    assert_eq!(grid.clear_full_rows(), 0);
    for row in 0..20 {
        assert!(row_is_empty(&grid, row));
    }
}

#[test]
fn every_row_of_a_field_without_columns_counts_as_full() {
    let mut grid = Grid::new(0, 3);
    assert_eq!(grid.full_rows(), vec![0, 1, 2]);
    assert_eq!(grid.clear_full_rows(), 3);
    assert_eq!(grid.height(), 3);
    assert_eq!(grid.clear_full_rows(), 3);
}

#[test]
fn a_field_without_rows_has_no_full_row() {
    let mut grid = Grid::new(4, 0);
    assert_eq!(grid.height(), 0);
    assert_eq!(grid.full_rows(), Vec::<usize>::new());
    assert_eq!(grid.clear_rows(&vec![0]), 0);
    assert!(grid.is_occupied(0, 0));
    assert!(!grid.is_occupied(0, -1));
}
