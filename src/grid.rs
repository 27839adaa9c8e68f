use vstd::prelude::*;

use crate::rules::next_state;
use crate::board::{
    board_view, cols_of, is_binary, is_rectangular, live_neighbor_count, live_neighbors,
    next_board, next_generation, rows_of, well_formed,
};

verus! {

/// Why a matrix of cell states cannot be made into a grid.
#[derive(Debug, Clone, Copy, PartialEq, Eq, Structural)]
pub enum ShapeError {
    /// There are no rows, or the first row has no cells.
    Empty,
    /// Some row is not as long as the first.
    Ragged,
}

/// One generation of the automaton: a non-empty rectangle of dead (0) and
/// live (1) cells. A grid is never changed; the next generation is a new grid.
pub struct Grid {
    cells: Vec<Vec<i32>>,
}

impl View for Grid {
    type V = Seq<Seq<i32>>;

    closed spec fn view(&self) -> Seq<Seq<i32>> {
        board_view(self.cells@)
    }
}

impl Grid {
    /// The cells form a non-empty rectangle of zeros and ones.
    pub open spec fn wf(&self) -> bool {
        well_formed(self@)
    }

    /// Builds a grid from its rows; fails when there is no cell at all or
    /// when the rows differ in length.
    pub fn new(rows: Vec<Vec<i32>>) -> (r: Result<Grid, ShapeError>)
        requires
            is_binary(board_view(rows@)),
        ensures
            r is Ok <==> is_rectangular(board_view(rows@)),
            r matches Ok(g) ==> g.wf() && g@ == board_view(rows@),
            r matches Err(e) ==> (e == ShapeError::Empty <==> (rows@.len() == 0
                || rows@[0]@.len() == 0)),
    {
        let ghost b = board_view(rows@);
        let n = rows.len();
        if n == 0 {
            return Err(ShapeError::Empty);
        }
        let cols = rows[0].len();
        if cols == 0 {
            return Err(ShapeError::Empty);
        }
        let mut i: usize = 1;
        while i < n
            invariant
                b == board_view(rows@),
                n == b.len(),
                cols == b[0].len(),
                cols == rows@[0]@.len(),
                n == rows@.len(),
                cols > 0,
                1 <= i <= n,
                forall|k: int| 0 <= k < i ==> #[trigger] b[k].len() == cols,
            decreases n - i,
        {
            if rows[i].len() != cols {
                assert(b[i as int].len() != b[0].len());
                return Err(ShapeError::Ragged);
            }
            i += 1;
        }
        Ok(Grid { cells: rows })
    }

    /// State of the in-range cell `(row, col)`.
    pub fn get(&self, row: usize, col: usize) -> (r: i32)
        requires
            self.wf(),
            row < rows_of(self@),
            col < cols_of(self@),
        ensures
            r == self@[row as int][col as int],
            r == 0 || r == 1,
    {
        assert(self@[row as int].len() == cols_of(self@));
        assert(self@[row as int][col as int] == 0 || self@[row as int][col as int] == 1);
        self.cells[row][col]
    }

    /// Number of rows and number of columns.
    pub fn dimensions(&self) -> (r: (usize, usize))
        requires
            self.wf(),
        ensures
            r.0 == rows_of(self@),
            r.1 == cols_of(self@),
    {
        (self.cells.len(), self.cells[0].len())
    }

    /// Number of live Moore neighbours of the in-range cell `(row, col)` on the torus.
    pub fn count_live_neighbors(&self, row: usize, col: usize) -> (n: usize)
        requires
            self.wf(),
            row < rows_of(self@),
            col < cols_of(self@),
        ensures
            n == live_neighbors(self@, row as int, col as int),
            n <= 8,
    {
        live_neighbor_count(&self.cells, row, col)
    }

    /// The next generation, a new grid of the same dimensions.
    pub fn step(&self) -> (r: Grid)
        requires
            self.wf(),
        ensures
            r.wf(),
            r@ == next_board(self@),
            rows_of(r@) == rows_of(self@),
            cols_of(r@) == cols_of(self@),
    {
        let next = next_generation(&self.cells);
        proof {
            lemma_next_board_well_formed(self@);
        }
        Grid { cells: next }
    }
}

/// The next generation of a well-formed board is well formed and has the
/// same number of rows and columns.
pub proof fn lemma_next_board_well_formed(b: Seq<Seq<i32>>)
    requires
        well_formed(b),
    ensures
        well_formed(next_board(b)),
        rows_of(next_board(b)) == rows_of(b),
        cols_of(next_board(b)) == cols_of(b),
{
    let n = next_board(b);
    assert forall|r: int, c: int| 0 <= r < n.len() && 0 <= c < n[r].len() implies #[trigger] n[r][c]
        == 0 || n[r][c] == 1 by {
        assert(n[r][c] == next_state(b[r][c] as int, live_neighbors(b, r, c)) as i32);
    }
}

} // verus!
