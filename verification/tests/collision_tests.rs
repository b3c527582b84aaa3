use rustblocks::board::{Board, Cell};
use rustblocks::clearing::clear_completed_rows;
use rustblocks::collision::{can_place, hard_drop, try_move, try_rotate};
use rustblocks::engine::lock_piece;
use rustblocks::piece::{
    color_id, rotation_offsets, ActivePiece, RotationDirection, TetrominoKind,
};

fn piece(kind: TetrominoKind, rotation: u8, x: i32, y: i32) -> ActivePiece {
    ActivePiece { kind, rotation, x, y }
}

#[test]
fn rotation_offsets_match_table() {
    assert_eq!(rotation_offsets(TetrominoKind::I, 0), vec![(-1, 0), (0, 0), (1, 0), (2, 0)]);
    assert_eq!(rotation_offsets(TetrominoKind::I, 3), vec![(0, -1), (0, 0), (0, 1), (0, 2)]);
    for rot in 0..4 {
        assert_eq!(
            rotation_offsets(TetrominoKind::O, rot),
            vec![(0, -1), (1, -1), (0, 0), (1, 0)]
        );
    }
    assert_eq!(rotation_offsets(TetrominoKind::T, 0), vec![(-1, 0), (0, 0), (1, 0), (0, -1)]);
}

#[test]
fn can_place_respects_bounds_and_occupancy() {
    let mut b = Board::new();
    assert!(can_place(&b, &piece(TetrominoKind::I, 0, 4, 1)));
    assert!(!can_place(&b, &piece(TetrominoKind::I, 0, 0, 1)));
    assert!(can_place(&b, &piece(TetrominoKind::I, 0, 4, 19)));
    assert!(!can_place(&b, &piece(TetrominoKind::I, 0, 4, 20)));
    b.set_cell(4, 10, Cell::Filled(3));
    assert!(!can_place(&b, &piece(TetrominoKind::I, 0, 4, 10)));
    assert!(can_place(&b, &piece(TetrominoKind::I, 0, 4, 9)));
}

#[test]
fn try_move_succeeds_on_free_cells_and_rejects_walls() {
    let b = Board::new();
    let p = piece(TetrominoKind::I, 0, 1, 5);
    assert_eq!(try_move(&b, &p, -1, 0), None);
    let q = try_move(&b, &p, 1, 0).expect("free cells to the right");
    assert_eq!(q, piece(TetrominoKind::I, 0, 2, 5));
    assert!(can_place(&b, &q));
}

#[test]
fn gravity_strictly_descends_until_blocked() {
    let b = Board::new();
    let mut p = piece(TetrominoKind::I, 0, 4, 1);
    let mut drops = 0;
    loop {
        match try_move(&b, &p, 0, 1) {
            Some(q) => {
                assert_eq!(q.y, p.y + 1);
                p = q;
                drops += 1;
            }
            None => break,
        }
    }
    assert_eq!(drops, 18);
    assert_eq!(p.y, 19);
}

#[test]
fn i_piece_hard_drop_locks_on_bottom_row() {
    let mut b = Board::new();
    let p = piece(TetrominoKind::I, 0, 4, 1);
    let q = hard_drop(&b, &p);
    assert_eq!(q, piece(TetrominoKind::I, 0, 4, 19));
    lock_piece(&mut b, &q);
    let color = color_id(TetrominoKind::I);
    for x in 3..7 {
        assert_eq!(b.get(x, 19), Cell::Filled(color));
    }
    for x in [0, 1, 2, 7, 8, 9] {
        assert_eq!(b.get(x, 19), Cell::Empty);
    }
    assert_eq!(b.get(4, 18), Cell::Empty);
    let r = clear_completed_rows(&mut b);
    assert_eq!(r.rows_cleared, 0);
    assert_eq!(r.cleared_row_indices, Vec::<usize>::new());
    for x in 3..7 {
        assert_eq!(b.get(x, 19), Cell::Filled(color));
    }
}

#[test]
fn wall_kick_rescues_rotation_at_left_wall() {
    let b = Board::new();
    let p = piece(TetrominoKind::I, 3, 0, 5);
    assert!(can_place(&b, &p));
    let q = try_rotate(&b, &p, RotationDirection::Clockwise).expect("kick one column right");
    assert_eq!(q, piece(TetrominoKind::I, 0, 1, 5));
    assert!(can_place(&b, &q));
}

#[test]
fn rotation_rejected_when_every_kick_is_blocked() {
    let mut b = Board::new();
    b.set_cell(2, 5, Cell::Filled(1));
    let p = piece(TetrominoKind::T, 1, 0, 5);
    assert!(can_place(&b, &p));
    assert_eq!(try_rotate(&b, &p, RotationDirection::Clockwise), None);
}

#[test]
fn counterclockwise_rotation_wraps_rotation_state() {
    let b = Board::new();
    let p = piece(TetrominoKind::T, 0, 4, 10);
    let q = try_rotate(&b, &p, RotationDirection::CounterClockwise).expect("open board");
    assert_eq!(q.rotation, 3);
    let r = try_rotate(&b, &q, RotationDirection::Clockwise).expect("open board");
    assert_eq!(r.rotation, 0);
}
