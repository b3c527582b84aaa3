//! The locked playfield: a fixed grid of cells, indexed top to bottom.

use vstd::prelude::*;

verus! {

/// Number of columns of the playfield.
pub const BOARD_WIDTH: usize = 10;

/// Number of rows of the playfield; row 0 is the top row.
pub const BOARD_HEIGHT: usize = 20;

/// One cell of the playfield: empty, or locked with a color index
/// (`0..=6`, one per tetromino kind).
#[derive(Clone, Copy, Debug, PartialEq, Eq, Structural)]
pub enum Cell {
    Empty,
    Filled(u8),
}

/// Error reported by direct cell access with coordinates outside the grid.
#[derive(Clone, Copy, Debug, PartialEq, Eq, Structural)]
pub enum BoardError {
    OutOfBounds,
}

/// A board view is well formed when it has exactly `BOARD_HEIGHT` rows of
/// `BOARD_WIDTH` cells each.
pub open spec fn board_wf(b: Seq<Seq<Cell>>) -> bool {
    &&& b.len() == BOARD_HEIGHT
    &&& forall|y: int| 0 <= y < b.len() ==> (#[trigger] b[y]).len() == BOARD_WIDTH
}

/// Whether `(x, y)` lies on the grid.
pub open spec fn in_bounds(x: int, y: int) -> bool {
    0 <= x < BOARD_WIDTH && 0 <= y < BOARD_HEIGHT
}

/// Whether the cell at `(x, y)` holds a locked block.
pub open spec fn occupied(b: Seq<Seq<Cell>>, x: int, y: int) -> bool {
    b[y][x] is Filled
}

/// A row is full when every one of its cells is filled.
pub open spec fn row_full(row: Seq<Cell>) -> bool {
    forall|x: int| 0 <= x < row.len() ==> (#[trigger] row[x]) is Filled
}

/// A row of `BOARD_WIDTH` empty cells.
pub open spec fn empty_row() -> Seq<Cell> {
    Seq::new(BOARD_WIDTH as nat, |x: int| Cell::Empty)
}

/// The all-empty board.
pub open spec fn empty_board() -> Seq<Seq<Cell>> {
    Seq::new(BOARD_HEIGHT as nat, |y: int| empty_row())
}

/// The locked playfield grid. Mutation happens only through the lock-merge
/// step and the line-clearing engine.
pub struct Board {
    rows: Vec<Vec<Cell>>,
}

impl View for Board {
    type V = Seq<Seq<Cell>>;

    closed spec fn view(&self) -> Seq<Seq<Cell>> {
        self.rows@.map_values(|r: Vec<Cell>| r@)
    }
}

/// A fresh row of `BOARD_WIDTH` empty cells.
fn make_empty_row() -> (r: Vec<Cell>)
    ensures
        r@ == empty_row(),
{
    let mut r: Vec<Cell> = Vec::new();
    let mut x: usize = 0;
    while x < BOARD_WIDTH
        invariant
            x <= BOARD_WIDTH,
            r@.len() == x,
            forall|j: int| 0 <= j < x ==> r@[j] == Cell::Empty,
        decreases BOARD_WIDTH - x,
    {
        r.push(Cell::Empty);
        x = x + 1;
    }
    proof {
        assert(r@ =~= empty_row());
    }
    r
}

impl Board {
    /// A fresh board with every cell empty.
    pub fn new() -> (b: Board)
        ensures
            b@ == empty_board(),
            board_wf(b@),
    {
        let mut rows: Vec<Vec<Cell>> = Vec::new();
        let mut y: usize = 0;
        while y < BOARD_HEIGHT
            invariant
                y <= BOARD_HEIGHT,
                rows@.len() == y,
                forall|i: int| 0 <= i < y ==> (#[trigger] rows@[i])@ == empty_row(),
            decreases BOARD_HEIGHT - y,
        {
            rows.push(make_empty_row());
            y = y + 1;
        }
        let b = Board { rows };
        proof {
            assert(b@ =~~= empty_board());
        }
        b
    }

    /// The cell at `(x, y)`, which must lie on the grid.
    pub fn get(&self, x: usize, y: usize) -> (c: Cell)
        requires
            board_wf(self@),
            x < BOARD_WIDTH,
            y < BOARD_HEIGHT,
        ensures
            c == self@[y as int][x as int],
    {
        self.rows[y][x]
    }

    /// Whether the cell at `(x, y)` holds a locked block; coordinates off
    /// the grid are rejected with `OutOfBounds`.
    pub fn is_occupied(&self, x: i32, y: i32) -> (r: Result<bool, BoardError>)
        requires
            board_wf(self@),
        ensures
            match r {
                Ok(o) => in_bounds(x as int, y as int) && o == occupied(self@, x as int, y as int),
                Err(e) => !in_bounds(x as int, y as int) && e == BoardError::OutOfBounds,
            },
    {
        if x < 0 || y < 0 || x >= BOARD_WIDTH as i32 || y >= BOARD_HEIGHT as i32 {
            Err(BoardError::OutOfBounds)
        } else {
            proof {
                assert(self.rows@.len() == self@.len());
                assert(self.rows@[y as int]@ == self@[y as int]);
            }
            let c = self.rows[y as usize][x as usize];
            match c {
                Cell::Filled(_) => Ok(true),
                Cell::Empty => Ok(false),
            }
        }
    }

    /// Writes `c` at `(x, y)`; callers must stay on the grid.
    pub fn set_cell(&mut self, x: usize, y: usize, c: Cell)
        requires
            board_wf(old(self)@),
            x < BOARD_WIDTH,
            y < BOARD_HEIGHT,
        ensures
            final(self)@ == old(self)@.update(y as int, old(self)@[y as int].update(x as int, c)),
            board_wf(final(self)@),
    {
        proof {
            assert(self.rows@.len() == self@.len());
            assert(self.rows@[y as int]@ == self@[y as int]);
        }
        let row = &mut self.rows[y];
        row[x] = c;
        proof {
            assert(self@ =~~= old(self)@.update(
                y as int,
                old(self)@[y as int].update(x as int, c),
            ));
        }
    }

    /// Whether row `y` is completely filled.
    pub fn row_is_full(&self, y: usize) -> (r: bool)
        requires
            board_wf(self@),
            y < BOARD_HEIGHT,
        ensures
            r == row_full(self@[y as int]),
    {
        let mut x: usize = 0;
        while x < BOARD_WIDTH
            invariant
                board_wf(self@),
                y < BOARD_HEIGHT,
                x <= BOARD_WIDTH,
                forall|j: int| 0 <= j < x ==> (#[trigger] self@[y as int][j]) is Filled,
            decreases BOARD_WIDTH - x,
        {
            match self.rows[y][x] {
                Cell::Empty => {
                    return false;
                },
                Cell::Filled(_) => {},
            }
            x = x + 1;
        }
        true
    }

    /// Removes row `y`: every row above it shifts down by one and an empty
    /// row appears at the top. Rows below `y` keep their indices.
    pub fn remove_row(&mut self, y: usize)
        requires
            board_wf(old(self)@),
            y < BOARD_HEIGHT,
        ensures
            final(self)@ == seq![empty_row()] + old(self)@.subrange(0, y as int) + old(self)@.subrange(
                y as int + 1,
                BOARD_HEIGHT as int,
            ),
            board_wf(final(self)@),
    {
        let _ = self.rows.remove(y);
        let fresh = make_empty_row();
        self.rows.insert(0, fresh);
        proof {
            assert(self@ =~~= seq![empty_row()] + old(self)@.subrange(0, y as int)
                + old(self)@.subrange(y as int + 1, BOARD_HEIGHT as int));
        }
    }
}

} // verus!
