//! The line-clearing engine: detecting completed rows, removing them
//! without ever skipping one over index shifts, and reporting the cleared
//! indices.

use vstd::prelude::*;

use crate::board::{board_wf, empty_row, row_full, Board, Cell, BOARD_HEIGHT};

verus! {

/// What one clearing pass found and removed: the indices of the rows that
/// were full, in ascending order as scanned top to bottom, and their count.
pub struct ClearResult {
    pub cleared_row_indices: Vec<usize>,
    pub rows_cleared: usize,
}

impl View for ClearResult {
    type V = Seq<int>;

    open spec fn view(&self) -> Seq<int> {
        self.cleared_row_indices@.map_values(|u: usize| u as int)
    }
}

/// The rows of `rows` that are not full, in order.
pub open spec fn keep_rows(rows: Seq<Seq<Cell>>) -> Seq<Seq<Cell>>
    decreases rows.len(),
{
    if rows.len() == 0 {
        Seq::empty()
    } else if row_full(rows.last()) {
        keep_rows(rows.drop_last())
    } else {
        keep_rows(rows.drop_last()) + seq![rows.last()]
    }
}

/// The indices of the full rows of `rows`, in ascending order.
pub open spec fn full_indices(rows: Seq<Seq<Cell>>) -> Seq<int>
    decreases rows.len(),
{
    if rows.len() == 0 {
        Seq::empty()
    } else if row_full(rows.last()) {
        full_indices(rows.drop_last()) + seq![rows.len() - 1]
    } else {
        full_indices(rows.drop_last())
    }
}

/// `n` empty rows.
pub open spec fn empties(n: int) -> Seq<Seq<Cell>> {
    Seq::new(n as nat, |i: int| empty_row())
}

/// Scans rows top to bottom, removes every completed row (each removal
/// shifts the rows above it down and inserts an empty row at the top), and
/// returns the cleared row indices, as counted on the board before the
/// call, together with their count. The resulting board is the non-full
/// rows of the old board, in order, below as many fresh empty rows as rows
/// were cleared.
pub fn clear_completed_rows(board: &mut Board) -> (r: ClearResult)
    requires
        board_wf(old(board)@),
    ensures
        board_wf(final(board)@),
        r@ == full_indices(old(board)@),
        r.rows_cleared == full_indices(old(board)@).len(),
        r.cleared_row_indices@.len() == full_indices(old(board)@).len(),
        forall|i: int| 0 <= i < r.cleared_row_indices@.len() ==> (
        #[trigger] r.cleared_row_indices@[i]) as int == full_indices(old(board)@)[i],
        final(board)@ == empties(BOARD_HEIGHT - keep_rows(old(board)@).len()) + keep_rows(
            old(board)@,
        ),
{
    let ghost b0 = board@;
    let mut idxs: Vec<usize> = Vec::new();
    let mut j: usize = 0;
    while j < BOARD_HEIGHT
        invariant
            board_wf(b0),
            board_wf(board@),
            j <= BOARD_HEIGHT,
            b0.len() == BOARD_HEIGHT,
            keep_rows(b0.take(j as int)).len() <= j,
            idxs@.len() == full_indices(b0.take(j as int)).len(),
            forall|i: int| 0 <= i < idxs@.len() ==> (#[trigger] idxs@[i]) as int == full_indices(
                b0.take(j as int),
            )[i],
            forall|i: int| 0 <= i < idxs@.len() ==> (#[trigger] idxs@[i]) < j,
            board@ == empties(j - keep_rows(b0.take(j as int)).len()) + keep_rows(
                b0.take(j as int),
            ) + b0.subrange(j as int, BOARD_HEIGHT as int),
        decreases BOARD_HEIGHT - j,
    {
        proof {
            assert(board@[j as int] == b0[j as int]);
            assert(b0.take(j as int + 1).drop_last() =~= b0.take(j as int));
            assert(b0.take(j as int + 1).last() == b0[j as int]);
        }
        let full = board.row_is_full(j);
        if full {
            idxs.push(j);
            board.remove_row(j);
            proof {
                assert(keep_rows(b0.take(j as int + 1)) == keep_rows(b0.take(j as int)));
                assert(full_indices(b0.take(j as int + 1)) =~= full_indices(b0.take(j as int))
                    + seq![j as int]);
                assert(board@ =~~= empties(j + 1 - keep_rows(b0.take(j as int + 1)).len())
                    + keep_rows(b0.take(j as int + 1)) + b0.subrange(
                    j as int + 1,
                    BOARD_HEIGHT as int,
                ));
            }
        } else {
            proof {
                assert(keep_rows(b0.take(j as int + 1)) == keep_rows(b0.take(j as int)) + seq![
                    b0[j as int],
                ]);
                assert(full_indices(b0.take(j as int + 1)) == full_indices(b0.take(j as int)));
                assert(board@ =~~= empties(j + 1 - keep_rows(b0.take(j as int + 1)).len())
                    + keep_rows(b0.take(j as int + 1)) + b0.subrange(
                    j as int + 1,
                    BOARD_HEIGHT as int,
                ));
            }
        }
        j = j + 1;
    }
    proof {
        assert(b0.take(BOARD_HEIGHT as int) =~= b0);
        assert(b0.subrange(BOARD_HEIGHT as int, BOARD_HEIGHT as int) =~= Seq::<Seq<Cell>>::empty());
        assert(board@ =~~= empties(BOARD_HEIGHT - keep_rows(b0).len()) + keep_rows(b0));
    }
    let count = idxs.len();
    let r = ClearResult { cleared_row_indices: idxs, rows_cleared: count };
    proof {
        assert(r@ =~= full_indices(b0));
    }
    r
}

/// The cleared indices are exactly the full rows: every reported index
/// names a full row of the scanned board, every full row is reported, and
/// the report is strictly ascending (so no row is skipped or counted
/// twice).
pub proof fn lemma_full_indices_exact(rows: Seq<Seq<Cell>>)
    ensures
        forall|k: int| 0 <= k < full_indices(rows).len() ==> 0 <= #[trigger] full_indices(rows)[k]
            < rows.len() && row_full(rows[full_indices(rows)[k]]),
        forall|y: int| 0 <= y < rows.len() && row_full(#[trigger] rows[y]) ==> full_indices(
            rows,
        ).contains(y),
        forall|k1: int, k2: int| 0 <= k1 < k2 < full_indices(rows).len() ==> #[trigger]
        full_indices(rows)[k1] < #[trigger] full_indices(rows)[k2],
    decreases rows.len(),
{
    if rows.len() > 0 {
        let s = rows.drop_last();
        lemma_full_indices_exact(s);
        assert forall|y: int| 0 <= y < rows.len() && row_full(#[trigger] rows[y]) implies
            full_indices(rows).contains(y) by {
            if y < rows.len() - 1 {
                assert(s[y] == rows[y]);
                assert(full_indices(s).contains(y));
                let k = choose|k: int| 0 <= k < full_indices(s).len() && full_indices(s)[k] == y;
                assert(full_indices(rows)[k] == y);
            } else {
                assert(row_full(rows.last()));
                assert(full_indices(rows).last() == y);
            }
        }
        assert forall|k: int| 0 <= k < full_indices(rows).len() implies 0 <= #[trigger]
            full_indices(rows)[k] < rows.len() && row_full(rows[full_indices(rows)[k]]) by {
            if k < full_indices(s).len() {
                assert(full_indices(rows)[k] == full_indices(s)[k]);
                assert(s[full_indices(s)[k]] == rows[full_indices(s)[k]]);
            } else {
                assert(row_full(rows.last()));
                assert(full_indices(rows)[k] == rows.len() - 1);
            }
        }
    }
}

/// Row-clear idempotence: on a board with no full row, a clearing pass
/// finds nothing (`full_indices` is empty) and leaves the board
/// bit-for-bit unchanged (`keep_rows` returns the rows as they were, and
/// no empty rows are prepended).
pub proof fn lemma_clear_idempotent_on_clean(rows: Seq<Seq<Cell>>)
    requires
        forall|y: int| 0 <= y < rows.len() ==> !row_full(#[trigger] rows[y]),
    ensures
        keep_rows(rows) == rows,
        full_indices(rows) == Seq::<int>::empty(),
        empties(0) + rows == rows,
    decreases rows.len(),
{
    assert(empties(0) + rows =~= rows);
    if rows.len() == 0 {
        assert(keep_rows(rows) =~= rows);
        assert(full_indices(rows) =~= Seq::<int>::empty());
    } else {
        assert(!row_full(rows.last()));
        lemma_clear_idempotent_on_clean(rows.drop_last());
        assert(keep_rows(rows) =~= rows.drop_last() + seq![rows.last()]);
        assert(rows.drop_last() + seq![rows.last()] =~= rows);
        assert(full_indices(rows) =~= Seq::<int>::empty());
    }
}

} // verus!
