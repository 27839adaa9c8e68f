use conway::board::{count_neighs, live_neighbor_count, next_generation, reset_life_board};
use conway::grid::{Grid, ShapeError};
use conway::layout::{cell_color, cell_origin, line_positions, window_size, MapGrid, CELL_SIZE};
use conway::parse::parse_row;
use conway::rules::rules;

fn grid_of(rows: &[&[i32]]) -> Grid {
    Grid::new(rows.iter().map(|r| r.to_vec()).collect()).unwrap()
}

fn cells_of(g: &Grid) -> Vec<Vec<i32>> {
    let (rows, cols) = g.dimensions();
    (0..rows).map(|r| (0..cols).map(|c| g.get(r, c)).collect()).collect()
}

fn board_with(rows: usize, cols: usize, alive: &[(usize, usize)]) -> Vec<Vec<i32>> {
    let mut b = vec![vec![0; cols]; rows];
    for &(r, c) in alive {
        b[r][c] = 1;
    }
    b
}

#[test]
fn rules_survival_and_death() {
    assert_eq!(rules(1, 0), 0);
    assert_eq!(rules(1, 1), 0);
    assert_eq!(rules(1, 2), 1);
    assert_eq!(rules(1, 3), 1);
    assert_eq!(rules(1, 4), 0);
    assert_eq!(rules(1, 8), 0);
}

#[test]
fn rules_birth() {
    assert_eq!(rules(0, 3), 1);
    assert_eq!(rules(0, 2), 0);
    assert_eq!(rules(0, 4), 0);
    assert_eq!(rules(0, 0), 0);
}

#[test]
fn birth_on_grid_with_three_neighbours() {
    let g = Grid::new(board_with(5, 5, &[(1, 1), (1, 3), (3, 2)])).unwrap();
    assert_eq!(g.count_live_neighbors(2, 2), 3);
    assert_eq!(g.step().get(2, 2), 1);
}

#[test]
fn no_birth_with_two_or_four_neighbours() {
    let two = Grid::new(board_with(5, 5, &[(1, 1), (3, 3)])).unwrap();
    assert_eq!(two.count_live_neighbors(2, 2), 2);
    assert_eq!(two.step().get(2, 2), 0);
    let four = Grid::new(board_with(5, 5, &[(1, 1), (1, 3), (3, 1), (3, 3)])).unwrap();
    assert_eq!(four.count_live_neighbors(2, 2), 4);
    assert_eq!(four.step().get(2, 2), 0);
}

#[test]
fn count_neighs_interior() {
    let b = board_with(4, 4, &[(0, 0), (0, 1), (1, 0), (2, 2)]);
    assert_eq!(count_neighs(1, 1, &b), 4);
    assert_eq!(count_neighs(0, 0, &b), 2);
    assert_eq!(live_neighbor_count(&b, 1, 1), 4);
}

#[test]
fn corner_sees_opposite_corner() {
    let b = board_with(4, 5, &[(0, 0), (3, 4)]);
    assert_eq!(count_neighs(0, 0, &b), 1);
    assert_eq!(count_neighs(3, 4, &b), 1);
    let empty = board_with(4, 5, &[(0, 0)]);
    assert_eq!(count_neighs(0, 0, &empty), 0);
}

#[test]
fn neighbours_wrap_on_every_edge() {
    let b = board_with(3, 3, &[(2, 1)]);
    assert_eq!(count_neighs(0, 1, &b), 1);
    let b = board_with(3, 3, &[(1, 2)]);
    assert_eq!(count_neighs(1, 0, &b), 1);
}

#[test]
fn full_small_board_counts_eight() {
    let b = board_with(3, 3, &[(0, 0), (0, 1), (0, 2), (1, 0), (1, 1), (1, 2), (2, 0), (2, 1), (2, 2)]);
    assert_eq!(count_neighs(1, 1, &b), 8);
}

#[test]
fn block_is_still_life() {
    let g = Grid::new(board_with(4, 4, &[(1, 1), (1, 2), (2, 1), (2, 2)])).unwrap();
    assert_eq!(cells_of(&g.step()), cells_of(&g));
    let g = Grid::new(board_with(6, 7, &[(0, 0), (0, 1), (1, 0), (1, 1)])).unwrap();
    assert_eq!(cells_of(&g.step()), cells_of(&g));
}

#[test]
fn blinker_has_period_two() {
    let h = Grid::new(board_with(5, 5, &[(2, 1), (2, 2), (2, 3)])).unwrap();
    let v = board_with(5, 5, &[(1, 2), (2, 2), (3, 2)]);
    let once = h.step();
    assert_eq!(cells_of(&once), v);
    assert_eq!(cells_of(&once.step()), cells_of(&h));
}

#[test]
fn step_is_deterministic() {
    let g = grid_of(&[&[0, 1, 0, 0], &[1, 1, 0, 1], &[0, 0, 1, 0]]);
    assert_eq!(cells_of(&g.step()), cells_of(&g.step()));
}

#[test]
fn step_keeps_dimensions() {
    let g = grid_of(&[&[0, 1, 0, 0, 1], &[1, 1, 0, 1, 0], &[0, 0, 1, 0, 0]]);
    assert_eq!(g.step().dimensions(), (3, 5));
    let single = grid_of(&[&[1]]);
    assert_eq!(single.step().dimensions(), (1, 1));
}

#[test]
fn single_cell_counts_itself_eight_times() {
    let single = grid_of(&[&[1]]);
    assert_eq!(single.count_live_neighbors(0, 0), 8);
    assert_eq!(single.step().get(0, 0), 0);
}

#[test]
fn lone_cell_dies() {
    let g = Grid::new(board_with(4, 4, &[(1, 1)])).unwrap();
    assert_eq!(cells_of(&g.step()), board_with(4, 4, &[]));
}

#[test]
fn next_generation_matches_step() {
    let b = board_with(5, 5, &[(2, 1), (2, 2), (2, 3)]);
    assert_eq!(next_generation(&b), board_with(5, 5, &[(1, 2), (2, 2), (3, 2)]));
}

#[test]
fn ragged_rows_are_rejected() {
    let r = Grid::new(vec![vec![1, 0], vec![1, 0, 1]]);
    assert!(matches!(r, Err(ShapeError::Ragged)));
}

#[test]
fn empty_matrix_is_rejected() {
    assert!(matches!(Grid::new(vec![]), Err(ShapeError::Empty)));
    assert!(matches!(Grid::new(vec![vec![]]), Err(ShapeError::Empty)));
}

#[test]
fn rectangular_rows_make_a_grid() {
    let g = grid_of(&[&[1, 0, 1], &[0, 0, 1]]);
    assert_eq!(g.dimensions(), (2, 3));
    assert_eq!(g.get(0, 2), 1);
    assert_eq!(g.get(1, 0), 0);
}

#[test]
fn reset_clears_every_cell() {
    let mut b = board_with(3, 4, &[(0, 0), (2, 3)]);
    reset_life_board(&mut b);
    assert_eq!(b, vec![vec![0; 4]; 3]);
    let mut e: Vec<Vec<i32>> = vec![];
    reset_life_board(&mut e);
    assert!(e.is_empty());
}

#[test]
fn parse_row_reads_tokens() {
    assert_eq!(parse_row(b"1 0  1\t0\r"), Some(vec![1, 0, 1, 0]));
    assert_eq!(parse_row(b""), Some(vec![]));
    assert_eq!(parse_row(b"   "), Some(vec![]));
    assert_eq!(parse_row(b"0"), Some(vec![0]));
}

#[test]
fn parse_row_rejects_bad_tokens() {
    assert_eq!(parse_row(b"1 2"), None);
    assert_eq!(parse_row(b"10"), None);
    assert_eq!(parse_row(b"1 x 0"), None);
}

#[test]
fn map_grid_new_keeps_fields() {
    let m = MapGrid::new(20, 200, 100);
    assert_eq!(m.grid_spacing, 20);
    assert_eq!(m.width, 200);
    assert_eq!(m.height, 100);
    assert_eq!(m.column_lines(), vec![0, 20, 40, 60, 80, 100, 120, 140, 160, 180]);
    assert_eq!(m.row_lines(), vec![0, 20, 40, 60, 80]);
}

#[test]
fn line_positions_edges() {
    assert_eq!(line_positions(0, 5), Vec::<u32>::new());
    assert_eq!(line_positions(1, 5), vec![0]);
    assert_eq!(line_positions(11, 5), vec![0, 5, 10]);
    assert_eq!(line_positions(10, 5), vec![0, 5]);
    assert_eq!(line_positions(3, usize::MAX), vec![0]);
}

#[test]
fn cell_geometry_and_colour() {
    assert_eq!(cell_color(1), (0, 100, 0));
    assert_eq!(cell_color(0), (255, 255, 255));
    assert_eq!(cell_origin(2, 3), Some((60, 40)));
    assert_eq!(cell_origin(0, 200_000_000), None);
    assert_eq!(window_size(10, 30), Some((600, 200)));
    assert_eq!(window_size(usize::MAX, 1), None);
    assert_eq!(CELL_SIZE, 20);
}
