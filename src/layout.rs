use vstd::prelude::*;

verus! {

/// Side, in pixels, of the square that shows one cell.
pub const CELL_SIZE: u32 = 20;

/// The lines of a square lattice laid over a `width` × `height` picture,
/// `grid_spacing` pixels apart.
pub struct MapGrid {
    pub grid_spacing: usize,
    pub width: u32,
    pub height: u32,
}

/// Multiples of `spacing` below `limit`, in increasing order: the offsets at
/// which lattice lines are drawn.
pub fn line_positions(limit: u32, spacing: usize) -> (r: Vec<u32>)
    requires
        spacing > 0,
    ensures
        forall|i: int| 0 <= i < r@.len() ==> #[trigger] r@[i] == i * spacing,
        forall|i: int| 0 <= i < r@.len() ==> #[trigger] r@[i] < limit,
        r@.len() * spacing >= limit,
{
    let mut r: Vec<u32> = Vec::new();
    if limit == 0 {
        return r;
    }
    let mut x: u32 = 0;
    assert(r@.len() == 0);
    assert(r@.len() * spacing == 0) by (nonlinear_arith)
        requires
            r@.len() == 0,
    ;
    loop
        invariant
            spacing > 0,
            x < limit,
            x == r@.len() * spacing,
            forall|i: int| 0 <= i < r@.len() ==> #[trigger] r@[i] == i * spacing,
            forall|i: int| 0 <= i < r@.len() ==> #[trigger] r@[i] < limit,
        decreases limit - x,
    {
        r.push(x);
        proof {
            assert((r@.len() - 1) * spacing + spacing == r@.len() * spacing) by (nonlinear_arith);
        }
        if spacing >= (limit - x) as usize {
            return r;
        }
        x = x + spacing as u32;
    }
}

impl MapGrid {
    /// A lattice with lines `spacing` pixels apart over a `width` × `height` picture.
    pub fn new(spacing: usize, width: u32, height: u32) -> (r: Self)
        ensures
            r.grid_spacing == spacing,
            r.width == width,
            r.height == height,
    {
        MapGrid { grid_spacing: spacing, width: width, height: height }
    }

    /// Horizontal offsets of the vertical lattice lines.
    pub fn column_lines(&self) -> (r: Vec<u32>)
        requires
            self.grid_spacing > 0,
        ensures
            forall|i: int| 0 <= i < r@.len() ==> #[trigger] r@[i] == i * self.grid_spacing,
            forall|i: int| 0 <= i < r@.len() ==> #[trigger] r@[i] < self.width,
            r@.len() * self.grid_spacing >= self.width,
    {
        line_positions(self.width, self.grid_spacing)
    }

    /// Vertical offsets of the horizontal lattice lines.
    pub fn row_lines(&self) -> (r: Vec<u32>)
        requires
            self.grid_spacing > 0,
        ensures
            forall|i: int| 0 <= i < r@.len() ==> #[trigger] r@[i] == i * self.grid_spacing,
            forall|i: int| 0 <= i < r@.len() ==> #[trigger] r@[i] < self.height,
            r@.len() * self.grid_spacing >= self.height,
    {
        line_positions(self.height, self.grid_spacing)
    }
}

/// Colour of a cell as red, green and blue: dark green for a live cell,
/// white for a dead one.
pub fn cell_color(state: i32) -> (r: (u8, u8, u8))
    requires
        state == 0 || state == 1,
    ensures
        state == 1 ==> r == (0u8, 100u8, 0u8),
        state == 0 ==> r == (255u8, 255u8, 255u8),
{
    if state == 1 {
        (0, 100, 0)
    } else {
        (255, 255, 255)
    }
}

/// Top-left corner, in pixels, of the square of cell `(row, col)`: `None`
/// when it does not fit in an `i32`.
pub fn cell_origin(row: usize, col: usize) -> (r: Option<(i32, i32)>)
    ensures
        r matches Some(p) ==> p.0 == col * CELL_SIZE && p.1 == row * CELL_SIZE,
        r is None <==> col * CELL_SIZE > i32::MAX || row * CELL_SIZE > i32::MAX,
{
    let limit: usize = (i32::MAX as u32 / CELL_SIZE) as usize;
    if row > limit || col > limit {
        return None;
    }
    Some(((col as u32 * CELL_SIZE) as i32, (row as u32 * CELL_SIZE) as i32))
}

/// Width and height, in pixels, of a window that shows `rows` × `cols`
/// cells: `None` when either does not fit in a `u32`.
pub fn window_size(rows: usize, cols: usize) -> (r: Option<(u32, u32)>)
    ensures
        r matches Some(p) ==> p.0 == cols * CELL_SIZE && p.1 == rows * CELL_SIZE,
        r is None <==> cols * CELL_SIZE > u32::MAX || rows * CELL_SIZE > u32::MAX,
{
    let limit: usize = (u32::MAX / CELL_SIZE) as usize;
    if rows > limit || cols > limit {
        return None;
    }
    Some((cols as u32 * CELL_SIZE, rows as u32 * CELL_SIZE))
}

} // verus!
