//! The tick-driven game state machine: spawning, falling, locking and
//! clearing, composed from the board, the collision resolver and the
//! line-clearing engine.

use vstd::prelude::*;

use crate::board::{board_wf, empty_board, Board, Cell, BOARD_HEIGHT, BOARD_WIDTH};
use crate::clearing::{clear_completed_rows, empties, full_indices, keep_rows, ClearResult};
use crate::collision::{
    can_place_at, cell_ok, hard_drop, spec_can_place, spec_can_place_piece, spec_hard_drop,
    spec_try_move, spec_try_rotate, try_move, try_rotate,
};
use crate::piece::{
    color_id, kind_offsets, piece_wf, spec_color_id, ActivePiece,
    RotationDirection, TetrominoKind,
};

verus! {

/// The application-shell states. The shell owns this value and calls the
/// core's tick only while it is `Playing`; the core itself never changes
/// it. `GameOver` is entered by the shell when a tick reports a blocked
/// spawn.
#[derive(Clone, Copy, Debug, PartialEq, Eq, Hash, Structural, Default)]
pub enum AppState {
    #[default]
    MainMenu,
    Playing,
    Paused,
    GameOver,
    Settings,
}

/// The in-game states driven by `tick` while the shell is `Playing`.
#[derive(Clone, Copy, Debug, PartialEq, Eq, Hash, Structural, Default)]
pub enum GameState {
    #[default]
    Spawning,
    Falling,
    Locking,
    Clearing,
}

/// One queued input event, consumed by the next tick.
#[derive(Clone, Copy, Debug, PartialEq, Eq, Structural)]
pub enum InputEvent {
    MoveLeft,
    MoveRight,
    RotateCW,
    RotateCCW,
    SoftDrop,
    HardDrop,
}

/// What one tick reports to the outside collaborators: whether a spawn was
/// blocked (the board is full at the spawn anchor), and the rows cleared
/// by a clearing tick, for external scoring.
pub struct TickOutcome {
    pub spawn_blocked: bool,
    pub cleared: Option<ClearResult>,
}

/// Multiplier of the linear congruential generator that drives piece
/// selection.
pub const LCG_MUL: u64 = 6364136223846793005;

/// Increment of the linear congruential generator that drives piece
/// selection.
pub const LCG_INC: u64 = 1442695040888963407;

/// The next state of the piece-selection generator. Selection is uniform
/// pseudo-random and fully determined by the session seed.
pub open spec fn lcg_next(s: u64) -> u64 {
    vstd::wrapping::u64_specs::wrapping_add(
        vstd::wrapping::u64_specs::wrapping_mul(s, LCG_MUL),
        LCG_INC,
    )
}

/// Executable step of the piece-selection generator.
pub fn lcg_step(s: u64) -> (r: u64)
    ensures
        r == lcg_next(s),
{
    s.wrapping_mul(LCG_MUL).wrapping_add(LCG_INC)
}

/// The tetromino kind selected by a generator value.
pub open spec fn kind_for(n: u64) -> TetrominoKind {
    if n % 7 == 0 {
        TetrominoKind::I
    } else if n % 7 == 1 {
        TetrominoKind::O
    } else if n % 7 == 2 {
        TetrominoKind::T
    } else if n % 7 == 3 {
        TetrominoKind::S
    } else if n % 7 == 4 {
        TetrominoKind::Z
    } else if n % 7 == 5 {
        TetrominoKind::J
    } else {
        TetrominoKind::L
    }
}

/// Executable selection of the tetromino kind for a generator value.
pub fn kind_for_value(n: u64) -> (k: TetrominoKind)
    ensures
        k == kind_for(n),
{
    let r = n % 7;
    if r == 0 {
        TetrominoKind::I
    } else if r == 1 {
        TetrominoKind::O
    } else if r == 2 {
        TetrominoKind::T
    } else if r == 3 {
        TetrominoKind::S
    } else if r == 4 {
        TetrominoKind::Z
    } else if r == 5 {
        TetrominoKind::J
    } else {
        TetrominoKind::L
    }
}

/// Spawn anchor column: the top-center of the board.
pub const SPAWN_X: i32 = 4;

/// Spawn anchor row.
pub const SPAWN_Y: i32 = 1;

/// A fresh piece of `kind` at the spawn anchor in rotation state 0.
pub open spec fn spawn_piece(kind: TetrominoKind) -> ActivePiece {
    ActivePiece { kind, rotation: 0, x: SPAWN_X, y: SPAWN_Y }
}

/// Executable constructor of the spawn piece for `kind`.
pub fn make_spawn_piece(kind: TetrominoKind) -> (p: ActivePiece)
    ensures
        p == spawn_piece(kind),
        piece_wf(p),
{
    ActivePiece { kind, rotation: 0, x: SPAWN_X, y: SPAWN_Y }
}

/// Whether one of the first `n` cells of `p` covers the board cell
/// `(x, y)`.
pub open spec fn covers_upto(p: ActivePiece, x: int, y: int, n: int) -> bool {
    exists|i: int|
        0 <= i < n && x == p.x + (#[trigger] kind_offsets(p.kind, p.rotation as int)[i]).0 && y
            == p.y + kind_offsets(p.kind, p.rotation as int)[i].1
}

/// Whether a cell of `p` covers the board cell `(x, y)`.
pub open spec fn piece_covers(p: ActivePiece, x: int, y: int) -> bool {
    covers_upto(p, x, y, 4)
}

/// The board `b` with the first `n` cells of `p` locked in.
pub open spec fn locked_upto(b: Seq<Seq<Cell>>, p: ActivePiece, n: int) -> Seq<Seq<Cell>> {
    Seq::new(
        BOARD_HEIGHT as nat,
        |y: int|
            Seq::new(
                BOARD_WIDTH as nat,
                |x: int|
                    if covers_upto(p, x, y, n) {
                        Cell::Filled(spec_color_id(p.kind))
                    } else {
                        b[y][x]
                    },
            ),
    )
}

/// The board `b` with every cell of `p` locked in with the color of its
/// kind; all other cells keep their contents.
pub open spec fn locked_board(b: Seq<Seq<Cell>>, p: ActivePiece) -> Seq<Seq<Cell>> {
    locked_upto(b, p, 4)
}

/// Merges the cells of `piece` permanently into the board. The piece must
/// be placeable, so every write stays on the grid.
pub fn lock_piece(board: &mut Board, piece: &ActivePiece)
    requires
        board_wf(old(board)@),
        piece_wf(*piece),
        spec_can_place_piece(old(board)@, *piece),
    ensures
        final(board)@ == locked_board(old(board)@, *piece),
        board_wf(final(board)@),
{
    let ghost b0 = board@;
    let offs = crate::piece::rotation_offsets(piece.kind, piece.rotation);
    let color = color_id(piece.kind);
    proof {
        assert(board@ =~~= locked_upto(b0, *piece, 0));
    }
    let mut i: usize = 0;
    while i < 4
        invariant
            board_wf(b0),
            board_wf(board@),
            piece_wf(*piece),
            spec_can_place_piece(b0, *piece),
            color == spec_color_id(piece.kind),
            i <= 4,
            offs@.len() == 4,
            forall|j: int| 0 <= j < 4 ==> (#[trigger] offs@[j]).0 as int == kind_offsets(
                piece.kind,
                piece.rotation as int,
            )[j].0 && offs@[j].1 as int == kind_offsets(piece.kind, piece.rotation as int)[j].1,
            board@ == locked_upto(b0, *piece, i as int),
        decreases 4 - i,
    {
        let o = offs[i];
        proof {
            assert(cell_ok(b0, piece.kind, piece.rotation as int, piece.x as int, piece.y as int, i as int));
        }
        let cx = piece.x as i64 + o.0 as i64;
        let cy = piece.y as i64 + o.1 as i64;
        board.set_cell(cx as usize, cy as usize, Cell::Filled(color));
        proof {
            let next = locked_upto(b0, *piece, i as int + 1);
            assert forall|y: int| 0 <= y < BOARD_HEIGHT implies board@[y] =~= next[y] by {
                assert forall|x: int| 0 <= x < BOARD_WIDTH implies board@[y][x] == next[y][x] by {
                    if x == cx as int && y == cy as int {
                        assert(covers_upto(*piece, x, y, i as int + 1));
                    } else {
                        if covers_upto(*piece, x, y, i as int + 1) {
                            let j = choose|j: int|
                                0 <= j < i as int + 1 && x == piece.x + (#[trigger] kind_offsets(
                                    piece.kind,
                                    piece.rotation as int,
                                )[j]).0 && y == piece.y + kind_offsets(
                                    piece.kind,
                                    piece.rotation as int,
                                )[j].1;
                            assert(j < i as int);
                            assert(covers_upto(*piece, x, y, i as int));
                        }
                    }
                }
            }
            assert(board@ =~~= next);
        }
        i = i + 1;
    }
}

/// Saturating accumulation of elapsed time.
pub open spec fn sat_add(a: u64, b: u64) -> u64 {
    if a + b > u64::MAX {
        u64::MAX
    } else {
        (a + b) as u64
    }
}

/// The mathematical model of the engine: the board contents, the current
/// in-game state, the active piece, the piece-selection generator state,
/// and the gravity timer.
#[verifier::ext_equal]
pub ghost struct EngineView {
    pub board: Seq<Seq<Cell>>,
    pub state: GameState,
    pub active: Option<ActivePiece>,
    pub rng: u64,
    pub fall_interval_ms: u64,
    pub fall_accum_ms: u64,
}

/// The engine is well formed when its board has the fixed dimensions and
/// its active piece exists exactly in the falling and locking states,
/// where it is always placeable.
pub open spec fn engine_wf(v: EngineView) -> bool {
    &&& board_wf(v.board)
    &&& match v.state {
        GameState::Falling | GameState::Locking => v.active is Some && piece_wf(v.active->0)
            && spec_can_place_piece(v.board, v.active->0),
        GameState::Spawning | GameState::Clearing => v.active is None,
    }
}

/// The game core: a board, the in-game state, the active piece, the
/// deterministic piece-selection generator and the gravity timer. Owned by
/// the caller and advanced one tick at a time.
pub struct GameEngine {
    board: Board,
    state: GameState,
    active: Option<ActivePiece>,
    rng: u64,
    fall_interval_ms: u64,
    fall_accum_ms: u64,
}

impl View for GameEngine {
    type V = EngineView;

    closed spec fn view(&self) -> EngineView {
        EngineView {
            board: self.board@,
            state: self.state,
            active: self.active,
            rng: self.rng,
            fall_interval_ms: self.fall_interval_ms,
            fall_accum_ms: self.fall_accum_ms,
        }
    }
}

/// The piece that results from applying one input event to `p` on board
/// `b`: rejected moves and rotations leave the piece unchanged, a hard
/// drop sends it to its resting row.
pub open spec fn apply_event(b: Seq<Seq<Cell>>, p: ActivePiece, ev: InputEvent) -> ActivePiece {
    match ev {
        InputEvent::MoveLeft => match spec_try_move(b, p, -1, 0) {
            Some(q) => q,
            None => p,
        },
        InputEvent::MoveRight => match spec_try_move(b, p, 1, 0) {
            Some(q) => q,
            None => p,
        },
        InputEvent::SoftDrop => match spec_try_move(b, p, 0, 1) {
            Some(q) => q,
            None => p,
        },
        InputEvent::RotateCW => match spec_try_rotate(b, p, RotationDirection::Clockwise) {
            Some(q) => q,
            None => p,
        },
        InputEvent::RotateCCW => match spec_try_rotate(b, p, RotationDirection::CounterClockwise) {
            Some(q) => q,
            None => p,
        },
        InputEvent::HardDrop => spec_hard_drop(b, p),
    }
}

/// The piece that results from applying the queued events in arrival
/// order; a hard drop ends the queue for this tick, later events are
/// ignored.
pub open spec fn apply_events(b: Seq<Seq<Cell>>, p: ActivePiece, evs: Seq<InputEvent>) -> ActivePiece
    decreases evs.len(),
{
    if evs.len() == 0 {
        p
    } else {
        let q = apply_event(b, p, evs[0]);
        if evs[0] is HardDrop {
            q
        } else {
            apply_events(b, q, evs.drop_first())
        }
    }
}

/// Whether the queue holds a hard drop (which this tick will act on).
pub open spec fn hard_drop_requested(evs: Seq<InputEvent>) -> bool
    decreases evs.len(),
{
    if evs.len() == 0 {
        false
    } else {
        evs[0] is HardDrop || hard_drop_requested(evs.drop_first())
    }
}

/// Applies the queued input events to `p0` in arrival order, each
/// validated through the collision resolver; a hard drop sends the piece
/// to its resting row and ends the queue. Returns the resulting piece and
/// whether a hard drop was acted on.
pub fn apply_inputs(board: &Board, p0: ActivePiece, inputs: &Vec<InputEvent>) -> (res: (
    ActivePiece,
    bool,
))
    requires
        board_wf(board@),
        piece_wf(p0),
        spec_can_place_piece(board@, p0),
    ensures
        res.0 == apply_events(board@, p0, inputs@),
        res.1 == hard_drop_requested(inputs@),
        piece_wf(res.0),
        spec_can_place_piece(board@, res.0),
{
    let n = inputs.len();
    let mut cur: ActivePiece = p0;
    let mut hd: bool = false;
    let mut k: usize = 0;
    proof {
        assert(inputs@.subrange(0, n as int) =~= inputs@);
    }
    while k < n && !hd
        invariant
            board_wf(board@),
            piece_wf(cur),
            spec_can_place_piece(board@, cur),
            n == inputs@.len(),
            k <= n,
            hd ==> apply_events(board@, p0, inputs@) == cur && hard_drop_requested(inputs@),
            !hd ==> apply_events(board@, p0, inputs@) == apply_events(
                board@,
                cur,
                inputs@.subrange(k as int, n as int),
            ) && hard_drop_requested(inputs@) == hard_drop_requested(
                inputs@.subrange(k as int, n as int),
            ),
        decreases n - k,
    {
        let ghost rest = inputs@.subrange(k as int, n as int);
        proof {
            assert(rest[0] == inputs@[k as int]);
            assert(rest.drop_first() =~= inputs@.subrange(k as int + 1, n as int));
        }
        let ev = inputs[k];
        match ev {
            InputEvent::MoveLeft => {
                match try_move(board, &cur, -1, 0) {
                    Some(q) => {
                        cur = q;
                    },
                    None => {},
                }
            },
            InputEvent::MoveRight => {
                match try_move(board, &cur, 1, 0) {
                    Some(q) => {
                        cur = q;
                    },
                    None => {},
                }
            },
            InputEvent::SoftDrop => {
                match try_move(board, &cur, 0, 1) {
                    Some(q) => {
                        cur = q;
                    },
                    None => {},
                }
            },
            InputEvent::RotateCW => {
                match try_rotate(board, &cur, RotationDirection::Clockwise) {
                    Some(q) => {
                        cur = q;
                    },
                    None => {},
                }
            },
            InputEvent::RotateCCW => {
                match try_rotate(board, &cur, RotationDirection::CounterClockwise) {
                    Some(q) => {
                        cur = q;
                    },
                    None => {},
                }
            },
            InputEvent::HardDrop => {
                cur = hard_drop(board, &cur);
                hd = true;
            },
        }
        k = k + 1;
    }
    proof {
        if !hd {
            assert(inputs@.subrange(k as int, n as int) =~= Seq::<InputEvent>::empty());
        }
    }
    (cur, hd)
}

/// One spawning tick: draw the next kind from the generator and place a
/// fresh piece at the spawn anchor. On success the machine starts falling
/// with a reset gravity timer; when the spawn position is blocked the core
/// reports it (the second component) and takes no further action until the
/// shell resets it.
pub open spec fn spec_spawn_step(v: EngineView) -> (EngineView, bool) {
    let n = lcg_next(v.rng);
    let p = spawn_piece(kind_for(n));
    if spec_can_place_piece(v.board, p) {
        (
            EngineView {
                board: v.board,
                state: GameState::Falling,
                active: Some(p),
                rng: n,
                fall_interval_ms: v.fall_interval_ms,
                fall_accum_ms: 0,
            },
            false,
        )
    } else {
        (
            EngineView {
                board: v.board,
                state: GameState::Spawning,
                active: None,
                rng: n,
                fall_interval_ms: v.fall_interval_ms,
                fall_accum_ms: v.fall_accum_ms,
            },
            true,
        )
    }
}

/// One falling tick: the queued inputs are applied first, each validated
/// through the collision resolver. A hard drop forces the machine to the
/// locking state immediately. Otherwise the elapsed time accumulates, and
/// when it reaches the fall interval the piece attempts one row of
/// gravity: on success it keeps falling, on failure the machine moves to
/// the locking state.
pub open spec fn spec_falling_step(v: EngineView, elapsed: u64, evs: Seq<InputEvent>) -> EngineView
    recommends
        v.active is Some,
{
    let p1 = apply_events(v.board, v.active->0, evs);
    if hard_drop_requested(evs) {
        EngineView {
            board: v.board,
            state: GameState::Locking,
            active: Some(p1),
            rng: v.rng,
            fall_interval_ms: v.fall_interval_ms,
            fall_accum_ms: 0,
        }
    } else {
        let acc = sat_add(v.fall_accum_ms, elapsed);
        if acc >= v.fall_interval_ms {
            match spec_try_move(v.board, p1, 0, 1) {
                Some(q) => EngineView {
                    board: v.board,
                    state: GameState::Falling,
                    active: Some(q),
                    rng: v.rng,
                    fall_interval_ms: v.fall_interval_ms,
                    fall_accum_ms: (acc - v.fall_interval_ms) as u64,
                },
                None => EngineView {
                    board: v.board,
                    state: GameState::Locking,
                    active: Some(p1),
                    rng: v.rng,
                    fall_interval_ms: v.fall_interval_ms,
                    fall_accum_ms: 0,
                },
            }
        } else {
            EngineView {
                board: v.board,
                state: GameState::Falling,
                active: Some(p1),
                rng: v.rng,
                fall_interval_ms: v.fall_interval_ms,
                fall_accum_ms: acc,
            }
        }
    }
}

/// One locking tick: last-moment inputs are applied; if they enable
/// further falling the machine returns to the falling state, otherwise the
/// piece's cells are merged into the board, the piece is destroyed, and
/// the machine moves on to clearing.
pub open spec fn spec_locking_step(v: EngineView, evs: Seq<InputEvent>) -> EngineView
    recommends
        v.active is Some,
{
    let p1 = apply_events(v.board, v.active->0, evs);
    if spec_can_place(v.board, p1.kind, p1.rotation as int, p1.x as int, p1.y as int + 1) {
        EngineView {
            board: v.board,
            state: GameState::Falling,
            active: Some(p1),
            rng: v.rng,
            fall_interval_ms: v.fall_interval_ms,
            fall_accum_ms: v.fall_accum_ms,
        }
    } else {
        EngineView {
            board: locked_board(v.board, p1),
            state: GameState::Clearing,
            active: None,
            rng: v.rng,
            fall_interval_ms: v.fall_interval_ms,
            fall_accum_ms: v.fall_accum_ms,
        }
    }
}

/// One clearing tick: the line-clearing engine removes the completed rows;
/// their indices (the second component) are reported for external scoring,
/// and the machine returns to spawning unconditionally.
pub open spec fn spec_clearing_step(v: EngineView) -> (EngineView, Seq<int>) {
    (
        EngineView {
            board: empties(BOARD_HEIGHT - keep_rows(v.board).len()) + keep_rows(v.board),
            state: GameState::Spawning,
            active: None,
            rng: v.rng,
            fall_interval_ms: v.fall_interval_ms,
            fall_accum_ms: v.fall_accum_ms,
        },
        full_indices(v.board),
    )
}

/// The full transition relation of one tick: the successor view, whether
/// the tick reported a blocked spawn, and the cleared row indices when the
/// tick was a clearing tick.
pub open spec fn tick_spec(pre: EngineView, elapsed: u64, evs: Seq<InputEvent>) -> (
    EngineView,
    bool,
    Option<Seq<int>>,
) {
    match pre.state {
        GameState::Spawning => {
            let (v, blocked) = spec_spawn_step(pre);
            (v, blocked, None)
        },
        GameState::Falling => (spec_falling_step(pre, elapsed, evs), false, None),
        GameState::Locking => (spec_locking_step(pre, evs), false, None),
        GameState::Clearing => {
            let (v, idx) = spec_clearing_step(pre);
            (v, false, Some(idx))
        },
    }
}

impl GameEngine {
    /// A fresh core: empty board, spawning state, piece selection seeded
    /// with `seed`, gravity firing every second until the shell adjusts
    /// it.
    pub fn new(seed: u64) -> (e: GameEngine)
        ensures
            e@ == (EngineView {
                board: empty_board(),
                state: GameState::Spawning,
                active: None,
                rng: seed,
                fall_interval_ms: 1000,
                fall_accum_ms: 0,
            }),
            engine_wf(e@),
    {
        let e = GameEngine {
            board: Board::new(),
            state: GameState::Spawning,
            active: None,
            rng: seed,
            fall_interval_ms: 1000,
            fall_accum_ms: 0,
        };
        e
    }

    /// A core resuming from an existing board (an external reset or a
    /// restored session), back in the spawning state.
    pub fn from_board(board: Board, seed: u64) -> (e: GameEngine)
        requires
            board_wf(board@),
        ensures
            e@ == (EngineView {
                board: board@,
                state: GameState::Spawning,
                active: None,
                rng: seed,
                fall_interval_ms: 1000,
                fall_accum_ms: 0,
            }),
            engine_wf(e@),
    {
        GameEngine {
            board,
            state: GameState::Spawning,
            active: None,
            rng: seed,
            fall_interval_ms: 1000,
            fall_accum_ms: 0,
        }
    }

    /// The current in-game state.
    pub fn state(&self) -> (s: GameState)
        ensures
            s == self@.state,
    {
        self.state
    }

    /// The active piece, present exactly in the falling and locking
    /// states.
    pub fn active_piece(&self) -> (p: Option<ActivePiece>)
        ensures
            p == self@.active,
    {
        self.active
    }

    /// Read-only snapshot of the locked board, for the render collaborator.
    pub fn board(&self) -> (b: &Board)
        ensures
            b@ == self@.board,
    {
        &self.board
    }

    /// The piece-selection generator state.
    pub fn generator_state(&self) -> (s: u64)
        ensures
            s == self@.rng,
    {
        self.rng
    }

    /// The accumulated gravity time, in milliseconds.
    pub fn gravity_accum(&self) -> (a: u64)
        ensures
            a == self@.fall_accum_ms,
    {
        self.fall_accum_ms
    }

    /// Sets the gravity threshold, decreased by the shell as the external
    /// level rises.
    pub fn set_fall_interval(&mut self, ms: u64)
        requires
            engine_wf(old(self)@),
        ensures
            final(self)@ == (EngineView { fall_interval_ms: ms, ..old(self)@ }),
            engine_wf(final(self)@),
    {
        self.fall_interval_ms = ms;
    }

    /// Advances the machine by one tick: consumes the elapsed time and the
    /// input events queued since the last tick, in arrival order, and
    /// reports blocked spawns and cleared rows. Rejected moves and
    /// rotations are silent no-ops; the only terminal condition is a
    /// blocked spawn, reported for the shell to act on.
    pub fn tick(&mut self, elapsed_ms: u64, inputs: &Vec<InputEvent>) -> (out: TickOutcome)
        requires
            engine_wf(old(self)@),
        ensures
            engine_wf(final(self)@),
            final(self)@ == tick_spec(old(self)@, elapsed_ms, inputs@).0,
            out.spawn_blocked == tick_spec(old(self)@, elapsed_ms, inputs@).1,
            out.cleared is Some <==> tick_spec(old(self)@, elapsed_ms, inputs@).2 is Some,
            out.cleared is Some ==> out.cleared->0@ == tick_spec(
                old(self)@,
                elapsed_ms,
                inputs@,
            ).2->0 && out.cleared->0.rows_cleared == tick_spec(
                old(self)@,
                elapsed_ms,
                inputs@,
            ).2->0.len(),
    {
        match self.state {
            GameState::Spawning => {
                let n = lcg_step(self.rng);
                self.rng = n;
                let kind = kind_for_value(n);
                let p = make_spawn_piece(kind);
                if crate::collision::can_place(&self.board, &p) {
                    self.state = GameState::Falling;
                    self.active = Some(p);
                    self.fall_accum_ms = 0;
                    proof {
                        assert(self@ =~~= spec_spawn_step(old(self)@).0);
                    }
                    TickOutcome { spawn_blocked: false, cleared: None }
                } else {
                    proof {
                        assert(self@ =~~= spec_spawn_step(old(self)@).0);
                    }
                    TickOutcome { spawn_blocked: true, cleared: None }
                }
            },
            GameState::Falling => {
                let p = self.active.unwrap();
                let (p1, hd) = apply_inputs(&self.board, p, inputs);
                if hd {
                    self.active = Some(p1);
                    self.state = GameState::Locking;
                    self.fall_accum_ms = 0;
                } else {
                    let acc = if elapsed_ms > u64::MAX - self.fall_accum_ms {
                        u64::MAX
                    } else {
                        self.fall_accum_ms + elapsed_ms
                    };
                    if acc >= self.fall_interval_ms {
                        match try_move(&self.board, &p1, 0, 1) {
                            Some(q) => {
                                self.active = Some(q);
                                self.fall_accum_ms = acc - self.fall_interval_ms;
                            },
                            None => {
                                self.active = Some(p1);
                                self.state = GameState::Locking;
                                self.fall_accum_ms = 0;
                            },
                        }
                    } else {
                        self.active = Some(p1);
                        self.fall_accum_ms = acc;
                    }
                }
                proof {
                    assert(self@ =~~= spec_falling_step(old(self)@, elapsed_ms, inputs@));
                }
                TickOutcome { spawn_blocked: false, cleared: None }
            },
            GameState::Locking => {
                let p = self.active.unwrap();
                let (p1, _hd) = apply_inputs(&self.board, p, inputs);
                if can_place_at(&self.board, p1.kind, p1.rotation, p1.x as i64, p1.y as i64 + 1) {
                    self.active = Some(p1);
                    self.state = GameState::Falling;
                } else {
                    lock_piece(&mut self.board, &p1);
                    self.active = None;
                    self.state = GameState::Clearing;
                }
                proof {
                    assert(self@ =~~= spec_locking_step(old(self)@, inputs@));
                }
                TickOutcome { spawn_blocked: false, cleared: None }
            },
            GameState::Clearing => {
                let r = clear_completed_rows(&mut self.board);
                self.state = GameState::Spawning;
                proof {
                    assert(self@ =~~= spec_clearing_step(old(self)@).0);
                }
                TickOutcome { spawn_blocked: false, cleared: Some(r) }
            },
        }
    }

    /// The supervising entry point of the two nested machines: the inner
    /// game machine ticks only while the shell's outer machine is
    /// `Playing`; in every other application state the core is left
    /// untouched and nothing is reported.
    pub fn supervised_tick(&mut self, app: AppState, elapsed_ms: u64, inputs: &Vec<InputEvent>)
        -> (out: Option<TickOutcome>)
        requires
            engine_wf(old(self)@),
        ensures
            engine_wf(final(self)@),
            (out is Some) <==> (app is Playing),
            !(app is Playing) ==> final(self)@ == old(self)@,
            app is Playing ==> {
                &&& final(self)@ == tick_spec(old(self)@, elapsed_ms, inputs@).0
                &&& out->0.spawn_blocked == tick_spec(old(self)@, elapsed_ms, inputs@).1
                &&& (out->0.cleared is Some <==> tick_spec(old(self)@, elapsed_ms, inputs@).2
                    is Some)
                &&& (out->0.cleared is Some ==> out->0.cleared->0@ == tick_spec(
                    old(self)@,
                    elapsed_ms,
                    inputs@,
                ).2->0 && out->0.cleared->0.rows_cleared == tick_spec(
                    old(self)@,
                    elapsed_ms,
                    inputs@,
                ).2->0.len())
            },
    {
        match app {
            AppState::Playing => Some(self.tick(elapsed_ms, inputs)),
            _ => None,
        }
    }
}

} // verus!
