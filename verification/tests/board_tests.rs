use rustblocks::board::{Board, BoardError, Cell, BOARD_HEIGHT, BOARD_WIDTH};

#[test]
fn new_board_is_empty() {
    let b = Board::new();
    for y in 0..BOARD_HEIGHT {
        for x in 0..BOARD_WIDTH {
            assert_eq!(b.get(x, y), Cell::Empty);
        }
    }
}

#[test]
fn is_occupied_rejects_out_of_bounds() {
    let b = Board::new();
    assert_eq!(b.is_occupied(-1, 0), Err(BoardError::OutOfBounds));
    assert_eq!(b.is_occupied(10, 0), Err(BoardError::OutOfBounds));
    assert_eq!(b.is_occupied(0, 20), Err(BoardError::OutOfBounds));
    assert_eq!(b.is_occupied(0, -5), Err(BoardError::OutOfBounds));
    assert_eq!(b.is_occupied(0, 0), Ok(false));
    assert_eq!(b.is_occupied(9, 19), Ok(false));
}

#[test]
fn set_cell_reports_occupied() {
    let mut b = Board::new();
    b.set_cell(3, 4, Cell::Filled(2));
    assert_eq!(b.is_occupied(3, 4), Ok(true));
    assert_eq!(b.get(3, 4), Cell::Filled(2));
    assert_eq!(b.is_occupied(4, 3), Ok(false));
}

#[test]
fn row_is_full_detects_completion() {
    let mut b = Board::new();
    for x in 0..BOARD_WIDTH {
        b.set_cell(x, 7, Cell::Filled(1));
    }
    assert!(b.row_is_full(7));
    assert!(!b.row_is_full(6));
    b.set_cell(4, 7, Cell::Empty);
    assert!(!b.row_is_full(7));
}

#[test]
fn remove_row_shifts_rows_above_down() {
    let mut b = Board::new();
    b.set_cell(0, 0, Cell::Filled(1));
    b.set_cell(5, 10, Cell::Filled(2));
    b.set_cell(9, 19, Cell::Filled(3));
    b.remove_row(19);
    assert_eq!(b.get(0, 0), Cell::Empty);
    assert_eq!(b.get(0, 1), Cell::Filled(1));
    assert_eq!(b.get(5, 11), Cell::Filled(2));
    assert_eq!(b.get(9, 19), Cell::Empty);
}

#[test]
fn remove_row_keeps_rows_below() {
    let mut b = Board::new();
    b.set_cell(2, 15, Cell::Filled(4));
    b.remove_row(10);
    assert_eq!(b.get(2, 15), Cell::Filled(4));
}
