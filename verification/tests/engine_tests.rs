use rustblocks::board::{Board, Cell};
use rustblocks::engine::{
    kind_for_value, lcg_step, AppState, GameEngine, GameState, InputEvent, LCG_INC,
};
use rustblocks::piece::TetrominoKind;

const NO_INPUT: &[InputEvent] = &[];

fn tick(e: &mut GameEngine, elapsed: u64, inputs: &[InputEvent]) -> rustblocks::engine::TickOutcome {
    e.tick(elapsed, &inputs.to_vec())
}

#[test]
fn generator_is_deterministic_per_seed() {
    assert_eq!(lcg_step(0), LCG_INC);
    assert_eq!(lcg_step(0), 1442695040888963407);
    assert_eq!(kind_for_value(0), TetrominoKind::I);
    assert_eq!(kind_for_value(1), TetrominoKind::O);
    assert_eq!(kind_for_value(6), TetrominoKind::L);
    let mut a = GameEngine::new(42);
    let mut b = GameEngine::new(42);
    for _ in 0..8 {
        let oa = tick(&mut a, 1000, NO_INPUT);
        let ob = tick(&mut b, 1000, NO_INPUT);
        assert_eq!(a.state(), b.state());
        assert_eq!(a.active_piece(), b.active_piece());
        assert_eq!(a.generator_state(), b.generator_state());
        assert_eq!(oa.spawn_blocked, ob.spawn_blocked);
    }
}

#[test]
fn spawn_places_the_selected_kind_at_the_spawn_anchor() {
    // Seed 0 draws an I-piece first; seed 8 draws an O-piece.
    let mut e = GameEngine::new(0);
    assert_eq!(e.state(), GameState::Spawning);
    assert_eq!(e.active_piece(), None);
    let out = tick(&mut e, 0, NO_INPUT);
    assert!(!out.spawn_blocked);
    assert!(out.cleared.is_none());
    assert_eq!(e.state(), GameState::Falling);
    let p = e.active_piece().expect("spawned piece");
    assert_eq!(p.kind, TetrominoKind::I);
    assert_eq!((p.rotation, p.x, p.y), (0, 4, 1));

    let mut o = GameEngine::new(8);
    tick(&mut o, 0, NO_INPUT);
    assert_eq!(o.active_piece().expect("spawned piece").kind, TetrominoKind::O);
}

#[test]
fn spawn_on_an_occupied_anchor_is_blocked_and_creates_no_piece() {
    let mut board = Board::new();
    board.set_cell(4, 1, Cell::Filled(6));
    let mut e = GameEngine::from_board(board, 0);
    let out = tick(&mut e, 0, NO_INPUT);
    assert!(out.spawn_blocked);
    assert!(out.cleared.is_none());
    assert_eq!(e.state(), GameState::Spawning);
    assert_eq!(e.active_piece(), None);
    // The core takes no further action until reset: another tick reports
    // the same condition and still creates no piece.
    let again = tick(&mut e, 1000, NO_INPUT);
    assert!(again.spawn_blocked);
    assert_eq!(e.active_piece(), None);
}

#[test]
fn gravity_fires_only_when_the_interval_elapses() {
    let mut e = GameEngine::new(0);
    tick(&mut e, 0, NO_INPUT);
    e.set_fall_interval(1000);
    tick(&mut e, 999, NO_INPUT);
    assert_eq!(e.active_piece().unwrap().y, 1);
    assert_eq!(e.gravity_accum(), 999);
    tick(&mut e, 1, NO_INPUT);
    assert_eq!(e.active_piece().unwrap().y, 2);
    assert_eq!(e.gravity_accum(), 0);
    assert_eq!(e.state(), GameState::Falling);
}

#[test]
fn moves_and_rotations_apply_before_the_gravity_step() {
    let mut e = GameEngine::new(0);
    tick(&mut e, 0, NO_INPUT);
    tick(&mut e, 0, &[InputEvent::MoveLeft, InputEvent::MoveLeft, InputEvent::MoveRight]);
    let p = e.active_piece().unwrap();
    assert_eq!((p.x, p.y), (3, 1));
    tick(&mut e, 0, &[InputEvent::RotateCW]);
    assert_eq!(e.active_piece().unwrap().rotation, 1);
    tick(&mut e, 0, &[InputEvent::SoftDrop]);
    assert_eq!(e.active_piece().unwrap().y, 2);
}

#[test]
fn hard_drop_locks_an_i_piece_on_the_bottom_row() {
    let mut e = GameEngine::new(0);
    tick(&mut e, 0, NO_INPUT);
    let out = tick(&mut e, 0, &[InputEvent::HardDrop]);
    assert!(out.cleared.is_none());
    assert_eq!(e.state(), GameState::Locking);
    let p = e.active_piece().unwrap();
    assert_eq!((p.kind, p.y), (TetrominoKind::I, 19));
    // The locking tick merges the piece and moves on to clearing.
    tick(&mut e, 0, NO_INPUT);
    assert_eq!(e.state(), GameState::Clearing);
    assert_eq!(e.active_piece(), None);
    for x in 3..7 {
        assert_eq!(e.board().is_occupied(x, 19), Ok(true));
    }
    // The clearing tick finds no full row and returns to spawning.
    let cleared = tick(&mut e, 0, NO_INPUT);
    let r = cleared.cleared.expect("clearing tick reports a result");
    assert_eq!(r.rows_cleared, 0);
    assert_eq!(e.state(), GameState::Spawning);
}

#[test]
fn locking_returns_to_falling_when_input_frees_the_piece() {
    let mut board = Board::new();
    board.set_cell(4, 10, Cell::Filled(2));
    let mut e = GameEngine::from_board(board, 0);
    tick(&mut e, 0, NO_INPUT);
    tick(&mut e, 0, &[InputEvent::HardDrop]);
    assert_eq!(e.state(), GameState::Locking);
    assert_eq!(e.active_piece().unwrap().y, 9);
    // Two columns to the right the ledge no longer blocks the piece, so
    // the grace-window input lets it fall again instead of locking.
    tick(&mut e, 0, &[InputEvent::MoveRight, InputEvent::MoveRight]);
    assert_eq!(e.state(), GameState::Falling);
    let p = e.active_piece().unwrap();
    assert_eq!((p.x, p.y), (6, 9));
}

#[test]
fn completing_a_row_reports_it_through_the_tick_outcome() {
    let mut board = Board::new();
    for x in 0..10 {
        if x < 3 || x > 6 {
            board.set_cell(x, 19, Cell::Filled(1));
        }
    }
    let mut e = GameEngine::from_board(board, 0);
    tick(&mut e, 0, NO_INPUT);
    tick(&mut e, 0, &[InputEvent::HardDrop]);
    tick(&mut e, 0, NO_INPUT);
    assert_eq!(e.state(), GameState::Clearing);
    let out = tick(&mut e, 0, NO_INPUT);
    let r = out.cleared.expect("clearing tick reports a result");
    assert_eq!(r.cleared_row_indices, vec![19]);
    assert_eq!(r.rows_cleared, 1);
    assert_eq!(e.board().is_occupied(0, 19), Ok(false));
    assert_eq!(e.state(), GameState::Spawning);
}

#[test]
fn the_core_ticks_only_while_the_shell_is_playing() {
    let mut e = GameEngine::new(5);
    for app in [AppState::MainMenu, AppState::Paused, AppState::GameOver, AppState::Settings] {
        let out = e.supervised_tick(app, 1000, &vec![InputEvent::HardDrop]);
        assert!(out.is_none());
        assert_eq!(e.state(), GameState::Spawning);
        assert_eq!(e.active_piece(), None);
    }
    let out = e.supervised_tick(AppState::Playing, 0, &Vec::new());
    assert!(out.is_some());
    assert_eq!(e.state(), GameState::Falling);
}

#[test]
fn default_states_start_at_the_menu_and_spawning() {
    assert_eq!(AppState::default(), AppState::MainMenu);
    assert_eq!(GameState::default(), GameState::Spawning);
}
