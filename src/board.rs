use vstd::prelude::*;

use crate::rules::{next_state, rules};

verus! {

/// A board as rows of cell states.
pub open spec fn board_view(b: Seq<Vec<i32>>) -> Seq<Seq<i32>> {
    b.map_values(|row: Vec<i32>| row@)
}

/// At least one row, at least one column, and every row as long as the first.
pub open spec fn is_rectangular(b: Seq<Seq<i32>>) -> bool {
    &&& b.len() >= 1
    &&& b[0].len() >= 1
    &&& forall|r: int| 0 <= r < b.len() ==> #[trigger] b[r].len() == b[0].len()
}

/// Every cell is dead (0) or alive (1).
pub open spec fn is_binary(b: Seq<Seq<i32>>) -> bool {
    forall|r: int, c: int|
        0 <= r < b.len() && 0 <= c < b[r].len() ==> #[trigger] b[r][c] == 0 || b[r][c] == 1
}

/// A board that can stand for a generation.
pub open spec fn well_formed(b: Seq<Seq<i32>>) -> bool {
    is_rectangular(b) && is_binary(b)
}

pub open spec fn rows_of(b: Seq<Seq<i32>>) -> int {
    b.len() as int
}

pub open spec fn cols_of(b: Seq<Seq<i32>>) -> int {
    b[0].len() as int
}

/// Brings a coordinate that is at most one step outside `[0, n)` back in,
/// across the opposite edge.
pub open spec fn wrap(i: int, n: int) -> int {
    if i < 0 {
        n - 1
    } else if i >= n {
        0
    } else {
        i
    }
}

/// State of the neighbour of `(r, c)` at offset `(dr, dc)` on the torus.
pub open spec fn neighbor_at(b: Seq<Seq<i32>>, r: int, c: int, dr: int, dc: int) -> int {
    b[wrap(r + dr, rows_of(b))][wrap(c + dc, cols_of(b))] as int
}

/// Number of live cells among the eight Moore neighbours of `(r, c)`.
pub open spec fn live_neighbors(b: Seq<Seq<i32>>, r: int, c: int) -> int {
    neighbor_at(b, r, c, -1, -1) + neighbor_at(b, r, c, -1, 0) + neighbor_at(b, r, c, -1, 1)
        + neighbor_at(b, r, c, 0, -1) + neighbor_at(b, r, c, 0, 1)
        + neighbor_at(b, r, c, 1, -1) + neighbor_at(b, r, c, 1, 0) + neighbor_at(b, r, c, 1, 1)
}

/// The generation that follows `b`, every cell computed from `b` alone.
pub open spec fn next_board(b: Seq<Seq<i32>>) -> Seq<Seq<i32>> {
    Seq::new(
        rows_of(b) as nat,
        |r: int|
            Seq::new(
                cols_of(b) as nat,
                |c: int| next_state(b[r][c] as int, live_neighbors(b, r, c)) as i32,
            ),
    )
}

fn wrap_prev(i: usize, n: usize) -> (r: usize)
    requires
        i < n,
    ensures
        r as int == wrap(i - 1, n as int),
{
    if i == 0 {
        n - 1
    } else {
        i - 1
    }
}

fn wrap_next(i: usize, n: usize) -> (r: usize)
    requires
        i < n,
    ensures
        r as int == wrap(i + 1, n as int),
{
    if i + 1 >= n {
        0
    } else {
        i + 1
    }
}

/// Number of live Moore neighbours of the in-range cell `(row, col)`, with
/// wraparound at the edges.
pub fn live_neighbor_count(board: &Vec<Vec<i32>>, row: usize, col: usize) -> (n: usize)
    requires
        well_formed(board_view(board@)),
        row < board@.len(),
        col < board@[0]@.len(),
    ensures
        n as int == live_neighbors(board_view(board@), row as int, col as int),
        n <= 8,
{
    let ghost b = board_view(board@);
    let rows = board.len();
    let cols = board[0].len();
    let up = wrap_prev(row, rows);
    let down = wrap_next(row, rows);
    let left = wrap_prev(col, cols);
    let right = wrap_next(col, cols);
    assert(b[up as int].len() == cols && b[row as int].len() == cols && b[down as int].len() == cols);
    assert(b[up as int][left as int] == 0 || b[up as int][left as int] == 1);
    assert(b[up as int][col as int] == 0 || b[up as int][col as int] == 1);
    assert(b[up as int][right as int] == 0 || b[up as int][right as int] == 1);
    assert(b[row as int][left as int] == 0 || b[row as int][left as int] == 1);
    assert(b[row as int][right as int] == 0 || b[row as int][right as int] == 1);
    assert(b[down as int][left as int] == 0 || b[down as int][left as int] == 1);
    assert(b[down as int][col as int] == 0 || b[down as int][col as int] == 1);
    assert(b[down as int][right as int] == 0 || b[down as int][right as int] == 1);
    let n = board[up][left] as usize + board[up][col] as usize + board[up][right] as usize
        + board[row][left] as usize + board[row][right] as usize + board[down][left] as usize
        + board[down][col] as usize + board[down][right] as usize;
    n
}

/// Number of live Moore neighbours of cell `(pos_x, pos_y)`, where `pos_x` is
/// the row and `pos_y` the column; neighbours past an edge are taken from
/// the opposite edge.
pub fn count_neighs(pos_x: i32, pos_y: i32, board: &Vec<Vec<i32>>) -> (n: i32)
    requires
        well_formed(board_view(board@)),
        0 <= pos_x < board@.len(),
        0 <= pos_y < board@[0]@.len(),
    ensures
        n as int == live_neighbors(board_view(board@), pos_x as int, pos_y as int),
        0 <= n <= 8,
{
    live_neighbor_count(board, pos_x as usize, pos_y as usize) as i32
}

/// A board of `rows` rows of `cols` dead cells.
pub open spec fn zero_board(rows: nat, cols: nat) -> Seq<Seq<i32>> {
    Seq::new(rows, |r: int| Seq::new(cols, |c: int| 0i32))
}

/// Computes the next generation of `board` into a freshly allocated board;
/// `board` itself is only read.
pub fn next_generation(board: &Vec<Vec<i32>>) -> (next: Vec<Vec<i32>>)
    requires
        well_formed(board_view(board@)),
    ensures
        board_view(next@) == next_board(board_view(board@)),
{
    let ghost b = board_view(board@);
    let rows = board.len();
    let cols = board[0].len();
    let mut next: Vec<Vec<i32>> = Vec::new();
    let mut r: usize = 0;
    while r < rows
        invariant
            b == board_view(board@),
            well_formed(b),
            rows == b.len(),
            cols == b[0].len(),
            r <= rows,
            next@.len() == r,
            forall|i: int| 0 <= i < r ==> #[trigger] next@[i]@ == next_board(b)[i],
        decreases rows - r,
    {
        let mut line: Vec<i32> = Vec::new();
        let mut c: usize = 0;
        assert(b[r as int].len() == cols);
        while c < cols
            invariant
                b == board_view(board@),
                well_formed(b),
                rows == b.len(),
                cols == b[0].len(),
                r < rows,
                c <= cols,
                b[r as int].len() == cols,
                line@.len() == c,
                forall|j: int| 0 <= j < c ==> #[trigger] line@[j] == next_board(b)[r as int][j],
            decreases cols - c,
        {
            let n = live_neighbor_count(board, r, c);
            assert(b[r as int][c as int] == 0 || b[r as int][c as int] == 1);
            let v = rules(board[r][c], n as i32);
            line.push(v);
            c += 1;
        }
        assert(line@ =~= next_board(b)[r as int]);
        next.push(line);
        r += 1;
    }
    assert(board_view(next@) =~= next_board(b));
    next
}

/// Replaces every cell of `life_board` by a dead one, keeping the number of
/// rows and the length of the first row.
pub fn reset_life_board(life_board: &mut Vec<Vec<i32>>)
    ensures
        board_view(final(life_board)@) == zero_board(
            old(life_board)@.len(),
            if old(life_board)@.len() > 0 { old(life_board)@[0]@.len() } else { 0 },
        ),
{
    let rows = life_board.len();
    let cols = if rows > 0 { life_board[0].len() } else { 0 };
    let mut fresh: Vec<Vec<i32>> = Vec::new();
    let mut r: usize = 0;
    while r < rows
        invariant
            r <= rows,
            fresh@.len() == r,
            forall|i: int| 0 <= i < r ==> #[trigger] fresh@[i]@ == zero_board(rows as nat, cols as nat)[i],
        decreases rows - r,
    {
        let mut line: Vec<i32> = Vec::new();
        let mut c: usize = 0;
        while c < cols
            invariant
                c <= cols,
                line@.len() == c,
                forall|j: int| 0 <= j < c ==> #[trigger] line@[j] == 0i32,
            decreases cols - c,
        {
            line.push(0);
            c += 1;
        }
        assert(line@ =~= zero_board(rows as nat, cols as nat)[r as int]);
        fresh.push(line);
        r += 1;
    }
    assert(board_view(fresh@) =~= zero_board(rows as nat, cols as nat));
    *life_board = fresh;
}

} // verus!
