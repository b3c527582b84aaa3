use rustblocks::board::{Board, Cell, BOARD_HEIGHT, BOARD_WIDTH};
use rustblocks::clearing::clear_completed_rows;
use rustblocks::collision::can_place;
use rustblocks::engine::lock_piece;
use rustblocks::piece::{color_id, ActivePiece, TetrominoKind};

fn snapshot(b: &Board) -> Vec<Vec<Cell>> {
    let mut rows = Vec::new();
    for y in 0..BOARD_HEIGHT {
        let mut row = Vec::new();
        for x in 0..BOARD_WIDTH {
            row.push(b.get(x, y));
        }
        rows.push(row);
    }
    rows
}

#[test]
fn clearing_a_clean_board_changes_nothing() {
    let mut b = Board::new();
    b.set_cell(0, 19, Cell::Filled(1));
    b.set_cell(9, 19, Cell::Filled(2));
    b.set_cell(4, 7, Cell::Filled(3));
    let before = snapshot(&b);
    let r = clear_completed_rows(&mut b);
    assert_eq!(r.rows_cleared, 0);
    assert_eq!(r.cleared_row_indices, Vec::<usize>::new());
    assert_eq!(snapshot(&b), before);
}

#[test]
fn filling_the_last_gap_clears_the_row_and_shifts_row_above() {
    let mut b = Board::new();
    for x in 1..BOARD_WIDTH {
        b.set_cell(x, 19, Cell::Filled(1));
    }
    b.set_cell(5, 18, Cell::Filled(2));
    // A vertical I-piece in column 0 fills the one missing cell of row 19.
    let p = ActivePiece { kind: TetrominoKind::I, rotation: 3, x: 0, y: 17 };
    assert!(can_place(&b, &p));
    lock_piece(&mut b, &p);
    assert!(b.row_is_full(19));
    let r = clear_completed_rows(&mut b);
    assert_eq!(r.cleared_row_indices, vec![19]);
    assert_eq!(r.rows_cleared, 1);
    let i_color = color_id(TetrominoKind::I);
    // Row 19 now holds what row 18 held: the piece cell in column 0 and
    // the marker in column 5.
    assert_eq!(b.get(0, 19), Cell::Filled(i_color));
    assert_eq!(b.get(5, 19), Cell::Filled(2));
    for x in [1, 2, 3, 4, 6, 7, 8, 9] {
        assert_eq!(b.get(x, 19), Cell::Empty);
    }
    assert_eq!(b.get(0, 18), Cell::Filled(i_color));
    assert_eq!(b.get(0, 17), Cell::Filled(i_color));
    assert_eq!(b.get(0, 16), Cell::Empty);
}

#[test]
fn two_full_rows_clear_together_in_ascending_order() {
    let mut b = Board::new();
    for x in 0..BOARD_WIDTH {
        b.set_cell(x, 18, Cell::Filled(1));
        b.set_cell(x, 19, Cell::Filled(1));
    }
    b.set_cell(3, 17, Cell::Filled(5));
    let r = clear_completed_rows(&mut b);
    assert_eq!(r.cleared_row_indices, vec![18, 19]);
    assert_eq!(r.rows_cleared, 2);
    assert_eq!(b.get(3, 19), Cell::Filled(5));
    assert_eq!(b.get(3, 17), Cell::Empty);
    assert_eq!(b.get(3, 18), Cell::Empty);
}

#[test]
fn a_full_board_clears_completely() {
    let mut b = Board::new();
    for y in 0..BOARD_HEIGHT {
        for x in 0..BOARD_WIDTH {
            b.set_cell(x, y, Cell::Filled(6));
        }
    }
    let r = clear_completed_rows(&mut b);
    assert_eq!(r.rows_cleared, 20);
    assert_eq!(r.cleared_row_indices, (0..20).collect::<Vec<usize>>());
    for y in 0..BOARD_HEIGHT {
        for x in 0..BOARD_WIDTH {
            assert_eq!(b.get(x, y), Cell::Empty);
        }
    }
}

#[test]
fn a_full_middle_row_clears_and_rows_below_stay() {
    let mut b = Board::new();
    for x in 0..BOARD_WIDTH {
        b.set_cell(x, 10, Cell::Filled(1));
    }
    b.set_cell(7, 15, Cell::Filled(4));
    b.set_cell(2, 3, Cell::Filled(3));
    let r = clear_completed_rows(&mut b);
    assert_eq!(r.cleared_row_indices, vec![10]);
    assert_eq!(b.get(7, 15), Cell::Filled(4));
    assert_eq!(b.get(2, 4), Cell::Filled(3));
    assert_eq!(b.get(2, 3), Cell::Empty);
}
