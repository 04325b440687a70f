use tetris::genes::{Bumpiness, Gene, Holes, MaxHeight};
use tetris::grid::Grid;
use tetris::tetromino::Color;

#[test]
fn holes_on_empty_grid_is_zero() {
    let g = Grid::new();
    assert_eq!(Holes.evaluate(&g), 0);
}

#[test]
fn holes_under_single_top_cell() {
    let mut g = Grid::new();
    g.set_cell(0, 0, Color::Red);
    // the 19 empty cells below (0,0) in column 0 are holes; other columns
    // contribute nothing
    assert_eq!(Holes.evaluate(&g), 19);
}

#[test]
fn holes_counts_covered_gaps_only() {
    let mut g = Grid::new();
    g.set_cell(17, 2, Color::Blue);
    // rows 18 and 19 of column 2 are covered and empty
    assert_eq!(Holes.evaluate(&g), 2);
    g.set_cell(19, 2, Color::Green);
    // now only row 18 is a covered empty cell
    assert_eq!(Holes.evaluate(&g), 1);
}

#[test]
fn max_height_on_empty_grid_is_zero() {
    let g = Grid::new();
    assert_eq!(MaxHeight.evaluate(&g), 0);
}

#[test]
fn max_height_of_top_cell_is_full_height() {
    let mut g = Grid::new();
    g.set_cell(0, 4, Color::Yellow);
    assert_eq!(MaxHeight.evaluate(&g), 20);
}

#[test]
fn max_height_takes_tallest_column() {
    let mut g = Grid::new();
    g.set_cell(15, 9, Color::Red);
    g.set_cell(18, 1, Color::Red);
    assert_eq!(MaxHeight.evaluate(&g), 5);
}

#[test]
fn bumpiness_on_flat_profile_is_zero() {
    let mut g = Grid::new();
    for col in 0..10 {
        g.set_cell(19, col, Color::Cyan);
    }
    assert_eq!(Bumpiness.evaluate(&g), 0);
}

#[test]
fn bumpiness_of_staircase_profile() {
    let mut g = Grid::new();
    // column 0 has height 3, column 1 height 1, the rest height 0
    g.set_cell(17, 0, Color::Red);
    g.set_cell(18, 0, Color::Red);
    g.set_cell(19, 0, Color::Red);
    g.set_cell(19, 1, Color::Red);
    // |3-1| + |1-0| = 3
    assert_eq!(Bumpiness.evaluate(&g), 3);
}

#[test]
fn evaluators_leave_the_grid_unchanged() {
    let mut g = Grid::new();
    g.set_cell(10, 5, Color::White);
    let before = g.cells;
    Holes.evaluate(&g);
    MaxHeight.evaluate(&g);
    Bumpiness.evaluate(&g);
    assert_eq!(g.cells, before);
}
