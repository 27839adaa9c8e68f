use vstd::prelude::*;

use crate::board::{cols_of, live_neighbors, neighbor_at, next_board, rows_of, well_formed, wrap};
use crate::grid::Grid;
use crate::rules::next_state;

verus! {

/// A `rows` × `cols` board whose only live cells form the 2×2 block with
/// top-left corner `(r0, c0)`.
pub open spec fn block_board(rows: nat, cols: nat, r0: int, c0: int) -> Seq<Seq<i32>> {
    Seq::new(
        rows,
        |r: int|
            Seq::new(
                cols,
                |c: int|
                    if r0 <= r <= r0 + 1 && c0 <= c <= c0 + 1 {
                        1i32
                    } else {
                        0i32
                    },
            ),
    )
}

/// A `rows` × `cols` board whose only live cells are `(r0, c0 - 1)`,
/// `(r0, c0)` and `(r0, c0 + 1)`.
pub open spec fn horizontal_blinker(rows: nat, cols: nat, r0: int, c0: int) -> Seq<Seq<i32>> {
    Seq::new(
        rows,
        |r: int|
            Seq::new(
                cols,
                |c: int|
                    if r == r0 && c0 - 1 <= c <= c0 + 1 {
                        1i32
                    } else {
                        0i32
                    },
            ),
    )
}

/// A `rows` × `cols` board whose only live cells are `(r0 - 1, c0)`,
/// `(r0, c0)` and `(r0 + 1, c0)`.
pub open spec fn vertical_blinker(rows: nat, cols: nat, r0: int, c0: int) -> Seq<Seq<i32>> {
    Seq::new(
        rows,
        |r: int|
            Seq::new(
                cols,
                |c: int|
                    if c == c0 && r0 - 1 <= r <= r0 + 1 {
                        1i32
                    } else {
                        0i32
                    },
            ),
    )
}

/// Stepping depends on the cells alone: two grids with the same cells step
/// to grids with the same cells, so stepping one grid twice gives the same
/// result both times.
pub proof fn lemma_step_deterministic(g1: Grid, g2: Grid, s1: Grid, s2: Grid)
    requires
        g1.wf(),
        g1@ == g2@,
        s1@ == next_board(g1@),
        s2@ == next_board(g2@),
    ensures
        s1@ == s2@,
{
}

/// A 2×2 block of live cells, all other cells dead, on a grid of at least
/// 4×4 is a still life: stepping leaves it unchanged.
pub proof fn lemma_block_still_life(rows: nat, cols: nat, r0: int, c0: int)
    requires
        rows >= 4,
        cols >= 4,
        0 <= r0 && r0 + 1 < rows,
        0 <= c0 && c0 + 1 < cols,
    ensures
        well_formed(block_board(rows, cols, r0, c0)),
        next_board(block_board(rows, cols, r0, c0)) == block_board(rows, cols, r0, c0),
{
    let b = block_board(rows, cols, r0, c0);
    let n = next_board(b);
    assert forall|r: int, c: int| 0 <= r < rows && 0 <= c < cols implies #[trigger] n[r][c]
        == b[r][c] by {
        assert(n[r][c] == next_state(b[r][c] as int, live_neighbors(b, r, c)) as i32);
    }
    assert forall|r: int| 0 <= r < rows implies #[trigger] n[r] =~= b[r] by {
        assert forall|c: int| 0 <= c < cols implies #[trigger] n[r][c] == b[r][c] by {
        }
    }
    assert(n =~= b);
}

/// A horizontal blinker away from the edges of a grid of at least 4×4
/// becomes the vertical blinker through the same centre, and that one
/// becomes the horizontal blinker again: period two.
pub proof fn lemma_blinker_period_two(rows: nat, cols: nat, r0: int, c0: int)
    requires
        rows >= 4,
        cols >= 4,
        1 <= r0 && r0 + 1 < rows,
        1 <= c0 && c0 + 1 < cols,
    ensures
        well_formed(horizontal_blinker(rows, cols, r0, c0)),
        well_formed(vertical_blinker(rows, cols, r0, c0)),
        next_board(horizontal_blinker(rows, cols, r0, c0)) == vertical_blinker(rows, cols, r0, c0),
        next_board(vertical_blinker(rows, cols, r0, c0)) == horizontal_blinker(rows, cols, r0, c0),
        next_board(next_board(horizontal_blinker(rows, cols, r0, c0))) == horizontal_blinker(
            rows,
            cols,
            r0,
            c0,
        ),
{
    let h = horizontal_blinker(rows, cols, r0, c0);
    let v = vertical_blinker(rows, cols, r0, c0);
    let nh = next_board(h);
    let nv = next_board(v);
    assert forall|r: int, c: int| 0 <= r < rows && 0 <= c < cols implies #[trigger] nh[r][c]
        == v[r][c] by {
        assert(nh[r][c] == next_state(h[r][c] as int, live_neighbors(h, r, c)) as i32);
    }
    assert forall|r: int, c: int| 0 <= r < rows && 0 <= c < cols implies #[trigger] nv[r][c]
        == h[r][c] by {
        assert(nv[r][c] == next_state(v[r][c] as int, live_neighbors(v, r, c)) as i32);
    }
    assert forall|r: int| 0 <= r < rows implies #[trigger] nh[r] =~= v[r] by {
        assert forall|c: int| 0 <= c < cols implies #[trigger] nh[r][c] == v[r][c] by {
        }
    }
    assert forall|r: int| 0 <= r < rows implies #[trigger] nv[r] =~= h[r] by {
        assert forall|c: int| 0 <= c < cols implies #[trigger] nv[r][c] == h[r][c] by {
        }
    }
    assert(nh =~= v);
    assert(nv =~= h);
}

/// A dead cell with exactly three live neighbours is born; with two or four
/// it stays dead.
pub proof fn lemma_birth(b: Seq<Seq<i32>>, r: int, c: int)
    requires
        well_formed(b),
        0 <= r < rows_of(b),
        0 <= c < cols_of(b),
        b[r][c] == 0,
    ensures
        live_neighbors(b, r, c) == 3 ==> next_board(b)[r][c] == 1,
        live_neighbors(b, r, c) == 2 || live_neighbors(b, r, c) == 4 ==> next_board(b)[r][c] == 0,
{
}

/// The up-left neighbour of the corner cell `(0, 0)` is the opposite corner
/// `(rows - 1, cols - 1)`, so a live cell there counts towards its neighbours.
pub proof fn lemma_corner_wraparound(b: Seq<Seq<i32>>)
    requires
        well_formed(b),
    ensures
        neighbor_at(b, 0, 0, -1, -1) == b[rows_of(b) - 1][cols_of(b) - 1],
        b[rows_of(b) - 1][cols_of(b) - 1] == 1 ==> live_neighbors(b, 0, 0) >= 1,
{
    let rows = rows_of(b);
    let cols = cols_of(b);
    assert(wrap(-1, rows) == rows - 1);
    assert(b[rows - 1].len() == cols);
    assert forall|dr: int, dc: int| -1 <= dr <= 1 && -1 <= dc <= 1 implies #[trigger] neighbor_at(
        b,
        0,
        0,
        dr,
        dc,
    ) >= 0 by {
        let i = wrap(dr, rows);
        let j = wrap(dc, cols);
        assert(b[i].len() == cols);
        assert(b[i][j] == 0 || b[i][j] == 1);
    }
    assert(neighbor_at(b, 0, 0, -1, 0) >= 0);
    assert(neighbor_at(b, 0, 0, -1, 1) >= 0);
    assert(neighbor_at(b, 0, 0, 0, -1) >= 0);
    assert(neighbor_at(b, 0, 0, 0, 1) >= 0);
    assert(neighbor_at(b, 0, 0, 1, -1) >= 0);
    assert(neighbor_at(b, 0, 0, 1, 0) >= 0);
    assert(neighbor_at(b, 0, 0, 1, 1) >= 0);
}

} // verus!
