//! The seven tetromino kinds and their rotation states, as static offset
//! tables relative to a piece anchor.

use vstd::prelude::*;

verus! {

/// The seven tetromino shapes.
#[derive(Clone, Copy, Debug, PartialEq, Eq, Structural)]
pub enum TetrominoKind {
    I,
    O,
    T,
    S,
    Z,
    J,
    L,
}

/// Direction of a rotation request.
#[derive(Clone, Copy, Debug, PartialEq, Eq, Structural)]
pub enum RotationDirection {
    Clockwise,
    CounterClockwise,
}

/// The falling piece: a kind, a rotation state (`0..=3`) and the anchor
/// cell its offsets are relative to.
#[derive(Clone, Copy, Debug, PartialEq, Eq, Structural)]
pub struct ActivePiece {
    pub kind: TetrominoKind,
    pub rotation: u8,
    pub x: i32,
    pub y: i32,
}

/// An active piece is well formed when its rotation state is one of the
/// four defined states.
pub open spec fn piece_wf(p: ActivePiece) -> bool {
    p.rotation < 4
}

/// The color index locked into the board for each kind, matching the
/// seven-color palette (I cyan, O yellow, T purple, S green, Z red,
/// J blue, L orange).
pub open spec fn spec_color_id(kind: TetrominoKind) -> u8 {
    match kind {
        TetrominoKind::I => 0,
        TetrominoKind::O => 1,
        TetrominoKind::T => 2,
        TetrominoKind::S => 3,
        TetrominoKind::Z => 4,
        TetrominoKind::J => 5,
        TetrominoKind::L => 6,
    }
}

/// The color index locked into the board for pieces of `kind`.
pub fn color_id(kind: TetrominoKind) -> (c: u8)
    ensures
        c == spec_color_id(kind),
{
    match kind {
        TetrominoKind::I => 0,
        TetrominoKind::O => 1,
        TetrominoKind::T => 2,
        TetrominoKind::S => 3,
        TetrominoKind::Z => 4,
        TetrominoKind::J => 5,
        TetrominoKind::L => 6,
    }
}

/// The wall-kick candidates tried on a rotation, in priority order: the
/// unmoved position first, then one column right, one column left, two
/// columns right, two columns left, and one row up.
pub open spec fn kick_offsets() -> Seq<(int, int)> {
    seq![(0, 0), (1, 0), (-1, 0), (2, 0), (-2, 0), (0, -1)]
}

/// The `i`-th wall-kick candidate offset.
pub fn kick_offset(i: usize) -> (k: (i32, i32))
    requires
        i < 6,
    ensures
        k.0 as int == kick_offsets()[i as int].0,
        k.1 as int == kick_offsets()[i as int].1,
{
    match i {
        0 => (0, 0),
        1 => (1, 0),
        2 => (-1, 0),
        3 => (2, 0),
        4 => (-2, 0),
        _ => (0, -1),
    }
}

/// The rotation state reached from `rot` by rotating in `dir`.
pub open spec fn rotated(rot: int, dir: RotationDirection) -> int {
    match dir {
        RotationDirection::Clockwise => (rot + 1) % 4,
        RotationDirection::CounterClockwise => (rot + 3) % 4,
    }
}

/// A vector of exactly the four given offsets.
fn quad(a: (i32, i32), b: (i32, i32), c: (i32, i32), d: (i32, i32)) -> (v: Vec<(i32, i32)>)
    ensures
        v@ == seq![a, b, c, d],
{
    let mut v: Vec<(i32, i32)> = Vec::new();
    v.push(a);
    v.push(b);
    v.push(c);
    v.push(d);
    proof {
        assert(v@ =~= seq![a, b, c, d]);
    }
    v
}

pub open spec fn kind_offsets(kind: TetrominoKind, rot: int) -> Seq<(int, int)> {
    match kind {
        TetrominoKind::I => {
            if rot == 1 {
                seq![(1, -1), (1, 0), (1, 1), (1, 2)]
            } else if rot == 2 {
                seq![(-1, 1), (0, 1), (1, 1), (2, 1)]
            } else if rot == 3 {
                seq![(0, -1), (0, 0), (0, 1), (0, 2)]
            } else {
                seq![(-1, 0), (0, 0), (1, 0), (2, 0)]
            }
        },
        TetrominoKind::O => {
            if rot == 1 {
                seq![(0, -1), (1, -1), (0, 0), (1, 0)]
            } else if rot == 2 {
                seq![(0, -1), (1, -1), (0, 0), (1, 0)]
            } else if rot == 3 {
                seq![(0, -1), (1, -1), (0, 0), (1, 0)]
            } else {
                seq![(0, -1), (1, -1), (0, 0), (1, 0)]
            }
        },
        TetrominoKind::T => {
            if rot == 1 {
                seq![(0, -1), (0, 0), (0, 1), (1, 0)]
            } else if rot == 2 {
                seq![(-1, 0), (0, 0), (1, 0), (0, 1)]
            } else if rot == 3 {
                seq![(0, -1), (0, 0), (0, 1), (-1, 0)]
            } else {
                seq![(-1, 0), (0, 0), (1, 0), (0, -1)]
            }
        },
        TetrominoKind::S => {
            if rot == 1 {
                seq![(0, -1), (0, 0), (1, 0), (1, 1)]
            } else if rot == 2 {
                seq![(0, 0), (1, 0), (-1, 1), (0, 1)]
            } else if rot == 3 {
                seq![(-1, -1), (-1, 0), (0, 0), (0, 1)]
            } else {
                seq![(0, -1), (1, -1), (-1, 0), (0, 0)]
            }
        },
        TetrominoKind::Z => {
            if rot == 1 {
                seq![(1, -1), (0, 0), (1, 0), (0, 1)]
            } else if rot == 2 {
                seq![(-1, 0), (0, 0), (0, 1), (1, 1)]
            } else if rot == 3 {
                seq![(0, -1), (-1, 0), (0, 0), (-1, 1)]
            } else {
                seq![(-1, -1), (0, -1), (0, 0), (1, 0)]
            }
        },
        TetrominoKind::J => {
            if rot == 1 {
                seq![(0, -1), (1, -1), (0, 0), (0, 1)]
            } else if rot == 2 {
                seq![(-1, 0), (0, 0), (1, 0), (1, 1)]
            } else if rot == 3 {
                seq![(0, -1), (0, 0), (-1, 1), (0, 1)]
            } else {
                seq![(-1, -1), (-1, 0), (0, 0), (1, 0)]
            }
        },
        TetrominoKind::L => {
            if rot == 1 {
                seq![(0, -1), (0, 0), (0, 1), (1, 1)]
            } else if rot == 2 {
                seq![(-1, 0), (0, 0), (1, 0), (-1, 1)]
            } else if rot == 3 {
                seq![(-1, -1), (0, -1), (0, 0), (0, 1)]
            } else {
                seq![(1, -1), (-1, 0), (0, 0), (1, 0)]
            }
        },
    }
}

/// The four cell offsets of `kind` in rotation state `rot`, relative to
/// the anchor.
pub fn rotation_offsets(kind: TetrominoKind, rot: u8) -> (v: Vec<(i32, i32)>)
    requires
        rot < 4,
    ensures
        v@.len() == 4,
        forall|i: int| 0 <= i < 4 ==> (#[trigger] v@[i]).0 as int == kind_offsets(kind, rot as int)[i].0
            && v@[i].1 as int == kind_offsets(kind, rot as int)[i].1,
{
    match kind {
        TetrominoKind::I => match rot {
            1 => quad((1, -1), (1, 0), (1, 1), (1, 2)),
            2 => quad((-1, 1), (0, 1), (1, 1), (2, 1)),
            3 => quad((0, -1), (0, 0), (0, 1), (0, 2)),
            _ => quad((-1, 0), (0, 0), (1, 0), (2, 0)),
        },
        TetrominoKind::O => match rot {
            1 => quad((0, -1), (1, -1), (0, 0), (1, 0)),
            2 => quad((0, -1), (1, -1), (0, 0), (1, 0)),
            3 => quad((0, -1), (1, -1), (0, 0), (1, 0)),
            _ => quad((0, -1), (1, -1), (0, 0), (1, 0)),
        },
        TetrominoKind::T => match rot {
            1 => quad((0, -1), (0, 0), (0, 1), (1, 0)),
            2 => quad((-1, 0), (0, 0), (1, 0), (0, 1)),
            3 => quad((0, -1), (0, 0), (0, 1), (-1, 0)),
            _ => quad((-1, 0), (0, 0), (1, 0), (0, -1)),
        },
        TetrominoKind::S => match rot {
            1 => quad((0, -1), (0, 0), (1, 0), (1, 1)),
            2 => quad((0, 0), (1, 0), (-1, 1), (0, 1)),
            3 => quad((-1, -1), (-1, 0), (0, 0), (0, 1)),
            _ => quad((0, -1), (1, -1), (-1, 0), (0, 0)),
        },
        TetrominoKind::Z => match rot {
            1 => quad((1, -1), (0, 0), (1, 0), (0, 1)),
            2 => quad((-1, 0), (0, 0), (0, 1), (1, 1)),
            3 => quad((0, -1), (-1, 0), (0, 0), (-1, 1)),
            _ => quad((-1, -1), (0, -1), (0, 0), (1, 0)),
        },
        TetrominoKind::J => match rot {
            1 => quad((0, -1), (1, -1), (0, 0), (0, 1)),
            2 => quad((-1, 0), (0, 0), (1, 0), (1, 1)),
            3 => quad((0, -1), (0, 0), (-1, 1), (0, 1)),
            _ => quad((-1, -1), (-1, 0), (0, 0), (1, 0)),
        },
        TetrominoKind::L => match rot {
            1 => quad((0, -1), (0, 0), (0, 1), (1, 1)),
            2 => quad((-1, 0), (0, 0), (1, 0), (-1, 1)),
            3 => quad((-1, -1), (0, -1), (0, 0), (0, 1)),
            _ => quad((1, -1), (-1, 0), (0, 0), (1, 0)),
        },
    }
}

/// Every offset of every rotation state stays within two cells of the
/// anchor, and every state has exactly four cells.
pub proof fn lemma_offsets_in_range(kind: TetrominoKind, rot: int)
    ensures
        kind_offsets(kind, rot).len() == 4,
        forall|i: int| 0 <= i < 4 ==> -2 <= (#[trigger] kind_offsets(kind, rot)[i]).0 <= 2
            && -2 <= kind_offsets(kind, rot)[i].1 <= 2,
{
    match kind {
        TetrominoKind::I => {
            assert(forall|i: int| 0 <= i < 4 ==> -2 <= (#[trigger] kind_offsets(kind, rot)[i]).0
                <= 2 && -2 <= kind_offsets(kind, rot)[i].1 <= 2);
        },
        TetrominoKind::O => {
            assert(forall|i: int| 0 <= i < 4 ==> -2 <= (#[trigger] kind_offsets(kind, rot)[i]).0
                <= 2 && -2 <= kind_offsets(kind, rot)[i].1 <= 2);
        },
        TetrominoKind::T => {
            assert(forall|i: int| 0 <= i < 4 ==> -2 <= (#[trigger] kind_offsets(kind, rot)[i]).0
                <= 2 && -2 <= kind_offsets(kind, rot)[i].1 <= 2);
        },
        TetrominoKind::S => {
            assert(forall|i: int| 0 <= i < 4 ==> -2 <= (#[trigger] kind_offsets(kind, rot)[i]).0
                <= 2 && -2 <= kind_offsets(kind, rot)[i].1 <= 2);
        },
        TetrominoKind::Z => {
            assert(forall|i: int| 0 <= i < 4 ==> -2 <= (#[trigger] kind_offsets(kind, rot)[i]).0
                <= 2 && -2 <= kind_offsets(kind, rot)[i].1 <= 2);
        },
        TetrominoKind::J => {
            assert(forall|i: int| 0 <= i < 4 ==> -2 <= (#[trigger] kind_offsets(kind, rot)[i]).0
                <= 2 && -2 <= kind_offsets(kind, rot)[i].1 <= 2);
        },
        TetrominoKind::L => {
            assert(forall|i: int| 0 <= i < 4 ==> -2 <= (#[trigger] kind_offsets(kind, rot)[i]).0
                <= 2 && -2 <= kind_offsets(kind, rot)[i].1 <= 2);
        },
    }
}

} // verus!
