//! Collision resolution: testing a piece against board bounds and
//! occupancy, translating it, rotating it with wall kicks, and dropping it
//! to its resting row.

use vstd::prelude::*;

use crate::board::{Board, board_wf, in_bounds, occupied, BOARD_HEIGHT, BOARD_WIDTH};
use crate::piece::{
    kick_offsets, kind_offsets, lemma_offsets_in_range, piece_wf, rotated, kick_offset,
    rotation_offsets, ActivePiece, RotationDirection, TetrominoKind,
};

verus! {

/// Whether the `i`-th cell of a piece of `kind` in rotation state `rot`
/// anchored at `(x, y)` lands on a free board cell.
pub open spec fn cell_ok(
    b: Seq<Seq<crate::board::Cell>>,
    kind: TetrominoKind,
    rot: int,
    x: int,
    y: int,
    i: int,
) -> bool {
    let o = kind_offsets(kind, rot)[i];
    in_bounds(x + o.0, y + o.1) && !occupied(b, x + o.0, y + o.1)
}

/// A piece of `kind` in rotation state `rot` anchored at `(x, y)` can be
/// placed: every one of its four cells is in bounds and unoccupied.
pub open spec fn spec_can_place(
    b: Seq<Seq<crate::board::Cell>>,
    kind: TetrominoKind,
    rot: int,
    x: int,
    y: int,
) -> bool {
    forall|i: int| 0 <= i < 4 ==> #[trigger] cell_ok(b, kind, rot, x, y, i)
}

/// `spec_can_place` for a piece value at its own rotation and anchor.
pub open spec fn spec_can_place_piece(b: Seq<Seq<crate::board::Cell>>, p: ActivePiece) -> bool {
    spec_can_place(b, p.kind, p.rotation as int, p.x as int, p.y as int)
}

/// A placeable anchor lies within two cells of the grid.
pub proof fn lemma_can_place_anchor_range(
    b: Seq<Seq<crate::board::Cell>>,
    kind: TetrominoKind,
    rot: int,
    x: int,
    y: int,
)
    requires
        spec_can_place(b, kind, rot, x, y),
    ensures
        -2 <= x <= BOARD_WIDTH + 1,
        -2 <= y <= BOARD_HEIGHT + 1,
{
    lemma_offsets_in_range(kind, rot);
    assert(cell_ok(b, kind, rot, x, y, 0));
}

/// Collision test for a piece of `kind` in rotation state `rot` anchored
/// at `(x, y)`, with anchor coordinates taken as wide integers so that a
/// translated or kicked anchor can always be tested.
pub fn can_place_at(board: &Board, kind: TetrominoKind, rot: u8, x: i64, y: i64) -> (r: bool)
    requires
        board_wf(board@),
        rot < 4,
    ensures
        r == spec_can_place(board@, kind, rot as int, x as int, y as int),
{
    proof {
        lemma_offsets_in_range(kind, rot as int);
    }
    if x < -2 || x > BOARD_WIDTH as i64 + 1 || y < -2 || y > BOARD_HEIGHT as i64 + 1 {
        proof {
            assert(!cell_ok(board@, kind, rot as int, x as int, y as int, 0));
        }
        return false;
    }
    let offs = rotation_offsets(kind, rot);
    let mut i: usize = 0;
    while i < 4
        invariant
            board_wf(board@),
            rot < 4,
            -2 <= x <= BOARD_WIDTH as i64 + 1,
            -2 <= y <= BOARD_HEIGHT as i64 + 1,
            i <= 4,
            offs@.len() == 4,
            forall|j: int| 0 <= j < 4 ==> (#[trigger] offs@[j]).0 as int == kind_offsets(
                kind,
                rot as int,
            )[j].0 && offs@[j].1 as int == kind_offsets(kind, rot as int)[j].1,
            forall|j: int| 0 <= j < i ==> #[trigger] cell_ok(
                board@,
                kind,
                rot as int,
                x as int,
                y as int,
                j,
            ),
        decreases 4 - i,
    {
        let o = offs[i];
        let cx = x + o.0 as i64;
        let cy = y + o.1 as i64;
        if cx < 0 || cx >= BOARD_WIDTH as i64 || cy < 0 || cy >= BOARD_HEIGHT as i64 {
            proof {
                assert(!cell_ok(board@, kind, rot as int, x as int, y as int, i as int));
            }
            return false;
        }
        let c = board.get(cx as usize, cy as usize);
        match c {
            crate::board::Cell::Filled(_) => {
                proof {
                    assert(!cell_ok(board@, kind, rot as int, x as int, y as int, i as int));
                }
                return false;
            },
            crate::board::Cell::Empty => {},
        }
        proof {
            assert(cell_ok(board@, kind, rot as int, x as int, y as int, i as int));
        }
        i = i + 1;
    }
    true
}

/// True iff every offset cell of `piece` at its current rotation and
/// anchor maps to an in-bounds, unoccupied board cell.
pub fn can_place(board: &Board, piece: &ActivePiece) -> (r: bool)
    requires
        board_wf(board@),
        piece_wf(*piece),
    ensures
        r == spec_can_place_piece(board@, *piece),
{
    can_place_at(board, piece.kind, piece.rotation, piece.x as i64, piece.y as i64)
}

/// The result of attempting to translate `p` by `(dx, dy)`: the moved
/// piece when its new position is placeable, and nothing otherwise.
pub open spec fn spec_try_move(
    b: Seq<Seq<crate::board::Cell>>,
    p: ActivePiece,
    dx: int,
    dy: int,
) -> Option<ActivePiece> {
    if spec_can_place(b, p.kind, p.rotation as int, p.x + dx, p.y + dy) {
        Some(
            ActivePiece {
                kind: p.kind,
                rotation: p.rotation,
                x: (p.x + dx) as i32,
                y: (p.y + dy) as i32,
            },
        )
    } else {
        None
    }
}

/// Returns `p` translated by `(dx, dy)` when the translated piece can be
/// placed, and `None` otherwise; the board and `p` are never changed.
pub fn try_move(board: &Board, piece: &ActivePiece, dx: i32, dy: i32) -> (r: Option<ActivePiece>)
    requires
        board_wf(board@),
        piece_wf(*piece),
    ensures
        r == spec_try_move(board@, *piece, dx as int, dy as int),
        r is Some ==> piece_wf(r->0) && spec_can_place_piece(board@, r->0),
{
    let nx = piece.x as i64 + dx as i64;
    let ny = piece.y as i64 + dy as i64;
    if can_place_at(board, piece.kind, piece.rotation, nx, ny) {
        proof {
            lemma_can_place_anchor_range(
                board@,
                piece.kind,
                piece.rotation as int,
                nx as int,
                ny as int,
            );
        }
        Some(ActivePiece { kind: piece.kind, rotation: piece.rotation, x: nx as i32, y: ny as i32 })
    } else {
        None
    }
}

/// The first wall-kick candidate at index `i` or later that admits
/// placement of a piece of `kind` in rotation state `rot`, as the kicked
/// anchor position.
pub open spec fn first_kick(
    b: Seq<Seq<crate::board::Cell>>,
    kind: TetrominoKind,
    rot: int,
    x: int,
    y: int,
    i: int,
) -> Option<(int, int)>
    decreases 6 - i,
{
    if i < 0 || i >= 6 {
        None
    } else {
        let k = kick_offsets()[i];
        if spec_can_place(b, kind, rot, x + k.0, y + k.1) {
            Some((x + k.0, y + k.1))
        } else {
            first_kick(b, kind, rot, x, y, i + 1)
        }
    }
}

/// The result of attempting to rotate `p` in direction `dir`: the rotated
/// piece at the first wall-kick candidate that admits placement, and
/// nothing when every candidate is blocked.
pub open spec fn spec_try_rotate(
    b: Seq<Seq<crate::board::Cell>>,
    p: ActivePiece,
    dir: RotationDirection,
) -> Option<ActivePiece> {
    let nrot = rotated(p.rotation as int, dir);
    match first_kick(b, p.kind, nrot, p.x as int, p.y as int, 0) {
        Some(pos) => Some(
            ActivePiece { kind: p.kind, rotation: nrot as u8, x: pos.0 as i32, y: pos.1 as i32 },
        ),
        None => None,
    }
}

/// Attempts to rotate `piece` in direction `dir`, trying each wall-kick
/// offset in priority order; the first offset whose kicked position can be
/// placed wins, and exhausting all offsets yields `None`, leaving the
/// caller's piece with its prior rotation and position.
pub fn try_rotate(board: &Board, piece: &ActivePiece, dir: RotationDirection) -> (r: Option<
    ActivePiece,
>)
    requires
        board_wf(board@),
        piece_wf(*piece),
    ensures
        r == spec_try_rotate(board@, *piece, dir),
        r is Some ==> piece_wf(r->0) && spec_can_place_piece(board@, r->0),
{
    let nrot: u8 = match dir {
        RotationDirection::Clockwise => (piece.rotation + 1) % 4,
        RotationDirection::CounterClockwise => (piece.rotation + 3) % 4,
    };
    proof {
        assert(nrot as int == rotated(piece.rotation as int, dir));
    }
    let ghost nrot_i = rotated(piece.rotation as int, dir);
    let mut i: usize = 0;
    while i < 6
        invariant
            board_wf(board@),
            piece_wf(*piece),
            nrot < 4,
            nrot as int == nrot_i,
            nrot_i == rotated(piece.rotation as int, dir),
            i <= 6,
            first_kick(board@, piece.kind, nrot_i, piece.x as int, piece.y as int, 0) == first_kick(
                board@,
                piece.kind,
                nrot_i,
                piece.x as int,
                piece.y as int,
                i as int,
            ),
        decreases 6 - i,
    {
        let k = kick_offset(i);
        let nx = piece.x as i64 + k.0 as i64;
        let ny = piece.y as i64 + k.1 as i64;
        if can_place_at(board, piece.kind, nrot, nx, ny) {
            proof {
                lemma_can_place_anchor_range(board@, piece.kind, nrot_i, nx as int, ny as int);
                assert(first_kick(
                    board@,
                    piece.kind,
                    nrot_i,
                    piece.x as int,
                    piece.y as int,
                    i as int,
                ) == Some((nx as int, ny as int)));
                assert(nrot_i as u8 == nrot);
                assert(spec_try_rotate(board@, *piece, dir) == Some(
                    ActivePiece { kind: piece.kind, rotation: nrot, x: nx as i32, y: ny as i32 },
                ));
            }
            return Some(
                ActivePiece { kind: piece.kind, rotation: nrot, x: nx as i32, y: ny as i32 },
            );
        }
        i = i + 1;
    }
    None
}

/// A successful move lands on a placeable position and a rejected move
/// names an unplaceable one: `spec_try_move` returns the translated piece,
/// placeable at the returned anchor, exactly when the translated position
/// admits placement, and `None` exactly when it does not.
pub proof fn lemma_move_respects_collision(
    b: Seq<Seq<crate::board::Cell>>,
    p: ActivePiece,
    dx: int,
    dy: int,
)
    requires
        piece_wf(p),
    ensures
        match spec_try_move(b, p, dx, dy) {
            Some(q) => piece_wf(q) && spec_can_place_piece(b, q) && q.kind == p.kind && q.rotation
                == p.rotation && q.x as int == p.x + dx && q.y as int == p.y + dy,
            None => !spec_can_place(b, p.kind, p.rotation as int, p.x + dx, p.y + dy),
        },
{
    if spec_can_place(b, p.kind, p.rotation as int, p.x + dx, p.y + dy) {
        lemma_can_place_anchor_range(b, p.kind, p.rotation as int, p.x + dx, p.y + dy);
    }
}

/// Characterization of `first_kick` from index `i` on: a hit is the first
/// kick candidate at or after `i` whose kicked position admits placement,
/// and a miss means every later candidate is blocked.
pub proof fn lemma_first_kick(
    b: Seq<Seq<crate::board::Cell>>,
    kind: TetrominoKind,
    rot: int,
    x: int,
    y: int,
    i: int,
)
    requires
        0 <= i <= 6,
    ensures
        match first_kick(b, kind, rot, x, y, i) {
            Some(pos) => exists|j: int|
                i <= j < 6 && pos == (
                    x + kick_offsets()[j].0,
                    y + kick_offsets()[j].1,
                ) && #[trigger] spec_can_place(
                    b,
                    kind,
                    rot,
                    x + kick_offsets()[j].0,
                    y + kick_offsets()[j].1,
                ) && forall|l: int| i <= l < j ==> !spec_can_place(
                    b,
                    kind,
                    rot,
                    x + #[trigger] kick_offsets()[l].0,
                    y + kick_offsets()[l].1,
                ),
            None => forall|j: int| i <= j < 6 ==> !spec_can_place(
                b,
                kind,
                rot,
                x + #[trigger] kick_offsets()[j].0,
                y + kick_offsets()[j].1,
            ),
        },
    decreases 6 - i,
{
    if i < 6 {
        let k = kick_offsets()[i];
        if spec_can_place(b, kind, rot, x + k.0, y + k.1) {
            assert(first_kick(b, kind, rot, x, y, i) == Some((x + k.0, y + k.1)));
        } else {
            lemma_first_kick(b, kind, rot, x, y, i + 1);
        }
    }
}

/// The wall-kick law: a rotation succeeds exactly when one of the defined
/// kick offsets makes the rotated piece placeable; the winning offset is
/// the first such in priority order, the returned piece is placeable
/// there, and a rejected rotation leaves rotation and position unchanged
/// (the piece is returned untouched by the caller on `None`).
pub proof fn lemma_rotate_wall_kick(
    b: Seq<Seq<crate::board::Cell>>,
    p: ActivePiece,
    dir: RotationDirection,
)
    requires
        piece_wf(p),
    ensures
        match spec_try_rotate(b, p, dir) {
            Some(q) => piece_wf(q) && spec_can_place_piece(b, q) && q.kind == p.kind && q.rotation
                as int == rotated(p.rotation as int, dir) && exists|j: int|
                0 <= j < 6 && q.x as int == p.x + kick_offsets()[j].0 && q.y as int == p.y
                    + kick_offsets()[j].1 && #[trigger] spec_can_place(
                    b,
                    p.kind,
                    rotated(p.rotation as int, dir),
                    p.x + kick_offsets()[j].0,
                    p.y + kick_offsets()[j].1,
                ) && forall|l: int| 0 <= l < j ==> !spec_can_place(
                    b,
                    p.kind,
                    rotated(p.rotation as int, dir),
                    p.x + #[trigger] kick_offsets()[l].0,
                    p.y + kick_offsets()[l].1,
                ),
            None => forall|j: int| 0 <= j < 6 ==> !spec_can_place(
                b,
                p.kind,
                rotated(p.rotation as int, dir),
                p.x + #[trigger] kick_offsets()[j].0,
                p.y + kick_offsets()[j].1,
            ),
        },
{
    let nrot = rotated(p.rotation as int, dir);
    lemma_first_kick(b, p.kind, nrot, p.x as int, p.y as int, 0);
    match first_kick(b, p.kind, nrot, p.x as int, p.y as int, 0) {
        Some(pos) => {
            let j = choose|j: int|
                0 <= j < 6 && pos == (
                    p.x + kick_offsets()[j].0,
                    p.y + kick_offsets()[j].1,
                ) && #[trigger] spec_can_place(
                    b,
                    p.kind,
                    nrot,
                    p.x + kick_offsets()[j].0,
                    p.y + kick_offsets()[j].1,
                ) && forall|l: int| 0 <= l < j ==> !spec_can_place(
                    b,
                    p.kind,
                    nrot,
                    p.x + #[trigger] kick_offsets()[l].0,
                    p.y + kick_offsets()[l].1,
                );
            lemma_can_place_anchor_range(b, p.kind, nrot, pos.0, pos.1);
            let q = spec_try_rotate(b, p, dir)->0;
            assert(q.x as int == p.x + kick_offsets()[j].0 && q.y as int == p.y + kick_offsets()[
                j
            ].1);
        },
        None => {},
    }
}

/// The greater of two integers.
pub open spec fn max2(a: int, b: int) -> int {
    if a >= b {
        a
    } else {
        b
    }
}

/// The lowest row touched by a piece of `kind` in rotation state `rot`,
/// relative to its anchor.
pub open spec fn piece_max_dy(kind: TetrominoKind, rot: int) -> int {
    let o = kind_offsets(kind, rot);
    max2(max2(o[0].1, o[1].1), max2(o[2].1, o[3].1))
}

/// How many rows lie strictly below the lowest cell of `p`.
pub open spec fn empty_rows_below(p: ActivePiece) -> int {
    (BOARD_HEIGHT - 1) - (p.y as int + piece_max_dy(p.kind, p.rotation as int))
}

/// Gravity monotonicity: every successful one-row downward move strictly
/// decreases the number of rows remaining below the piece, and that number
/// never goes negative, so repeated gravity steps must reach a blocked
/// position.
pub proof fn lemma_gravity_strictly_descends(
    b: Seq<Seq<crate::board::Cell>>,
    p: ActivePiece,
    q: ActivePiece,
)
    requires
        piece_wf(p),
        spec_try_move(b, p, 0, 1) == Some(q),
    ensures
        empty_rows_below(q) == empty_rows_below(p) - 1,
        empty_rows_below(q) >= 0,
{
    lemma_move_respects_collision(b, p, 0, 1);
    lemma_offsets_in_range(q.kind, q.rotation as int);
    let o = kind_offsets(q.kind, q.rotation as int);
    let m = piece_max_dy(q.kind, q.rotation as int);
    assert(o[0].1 == m || o[1].1 == m || o[2].1 == m || o[3].1 == m);
    assert(cell_ok(b, q.kind, q.rotation as int, q.x as int, q.y as int, 0));
    assert(cell_ok(b, q.kind, q.rotation as int, q.x as int, q.y as int, 1));
    assert(cell_ok(b, q.kind, q.rotation as int, q.x as int, q.y as int, 2));
    assert(cell_ok(b, q.kind, q.rotation as int, q.x as int, q.y as int, 3));
}

/// One downward translation of `p`.
pub open spec fn shifted_down(p: ActivePiece) -> ActivePiece {
    ActivePiece { kind: p.kind, rotation: p.rotation, x: p.x, y: (p.y + 1) as i32 }
}

/// The piece reached from `p` by falling one row at a time while the row
/// below admits placement, with recursion bounded by `fuel`; `fuel` of 25
/// or more never runs out on a placeable piece.
pub open spec fn drop_down(
    b: Seq<Seq<crate::board::Cell>>,
    p: ActivePiece,
    fuel: nat,
) -> ActivePiece
    decreases fuel,
{
    if fuel == 0 {
        p
    } else if spec_can_place(b, p.kind, p.rotation as int, p.x as int, p.y as int + 1) {
        drop_down(b, shifted_down(p), (fuel - 1) as nat)
    } else {
        p
    }
}

/// The resting position of `p` under a hard drop.
pub open spec fn spec_hard_drop(b: Seq<Seq<crate::board::Cell>>, p: ActivePiece) -> ActivePiece {
    drop_down(b, p, 25)
}

/// Repeatedly applies a one-row downward move until it fails: the returned
/// piece keeps its column and rotation, rests on a placeable cell set, and
/// cannot fall any further.
pub fn hard_drop(board: &Board, piece: &ActivePiece) -> (q: ActivePiece)
    requires
        board_wf(board@),
        piece_wf(*piece),
        spec_can_place_piece(board@, *piece),
    ensures
        q == spec_hard_drop(board@, *piece),
        q.kind == piece.kind,
        q.rotation == piece.rotation,
        q.x == piece.x,
        q.y >= piece.y,
        spec_can_place_piece(board@, q),
        !spec_can_place(board@, q.kind, q.rotation as int, q.x as int, q.y as int + 1),
{
    let mut cur: ActivePiece = *piece;
    proof {
        lemma_can_place_anchor_range(
            board@,
            piece.kind,
            piece.rotation as int,
            piece.x as int,
            piece.y as int,
        );
    }
    loop
        invariant
            board_wf(board@),
            piece_wf(*piece),
            piece_wf(cur),
            spec_can_place_piece(board@, *piece),
            spec_can_place_piece(board@, cur),
            cur.kind == piece.kind,
            cur.rotation == piece.rotation,
            cur.x == piece.x,
            cur.y >= piece.y,
            -2 <= piece.y as int,
            cur.y as int - piece.y as int <= 24,
            spec_hard_drop(board@, *piece) == drop_down(
                board@,
                cur,
                (25 - (cur.y - piece.y)) as nat,
            ),
        decreases BOARD_HEIGHT + 2 - cur.y,
    {
        proof {
            lemma_can_place_anchor_range(
                board@,
                cur.kind,
                cur.rotation as int,
                cur.x as int,
                cur.y as int,
            );
        }
        if can_place_at(board, cur.kind, cur.rotation, cur.x as i64, cur.y as i64 + 1) {
            proof {
                assert(drop_down(board@, cur, (25 - (cur.y - piece.y)) as nat) == drop_down(
                    board@,
                    shifted_down(cur),
                    (25 - (cur.y + 1 - piece.y)) as nat,
                ));
            }
            cur = ActivePiece { kind: cur.kind, rotation: cur.rotation, x: cur.x, y: cur.y + 1 };
        } else {
            proof {
                assert(drop_down(board@, cur, (25 - (cur.y - piece.y)) as nat) == cur);
            }
            return cur;
        }
    }
}

} // verus!
