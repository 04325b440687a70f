use tetris::grid::Grid;
use tetris::tetromino::Color;

fn fill_row(g: &mut Grid, row: usize, color: Color) {
    for col in 0..10 {
        g.set_cell(row, col, color);
    }
}

fn assert_all_empty(g: &Grid) {
    for row in 0..20 {
        for col in 0..10 {
            assert_eq!(g.cell(row, col), Color::Empty);
        }
    }
}

#[test]
fn clear_on_empty_grid_returns_zero() {
    let mut g = Grid::new();
    let before = g.cells;
    assert_eq!(g.clear_full_rows(), 0);
    assert_eq!(g.cells, before);
    assert_all_empty(&g);
}

#[test]
fn clear_on_untouched_rows_returns_zero() {
    let mut g = Grid::new();
    g.set_cell(19, 0, Color::Red);
    g.set_cell(18, 9, Color::Blue);
    let before = g.cells;
    assert_eq!(g.clear_full_rows(), 0);
    assert_eq!(g.cells, before);
}

#[test]
fn clear_single_full_row_cascades_from_above() {
    let mut g = Grid::new();
    fill_row(&mut g, 5, Color::Green);
    g.set_cell(4, 2, Color::Red);
    g.set_cell(3, 7, Color::Blue);
    g.set_cell(9, 1, Color::Cyan);
    assert_eq!(g.clear_full_rows(), 1);
    // row 5 received former row 4, row 4 received former row 3
    assert_eq!(g.cell(5, 2), Color::Red);
    assert_eq!(g.cell(4, 7), Color::Blue);
    // the vacated top row is empty
    for col in 0..10 {
        assert_eq!(g.cell(0, col), Color::Empty);
    }
    // rows below the cleared one are untouched
    assert_eq!(g.cell(9, 1), Color::Cyan);
    // the old markers moved away from their former cells
    assert_eq!(g.cell(4, 2), Color::Empty);
    assert_eq!(g.cell(3, 7), Color::Empty);
}

#[test]
fn clear_twice_second_pass_clears_nothing() {
    let mut g = Grid::new();
    fill_row(&mut g, 19, Color::Yellow);
    fill_row(&mut g, 17, Color::Magenta);
    g.set_cell(18, 4, Color::White);
    g.set_cell(16, 0, Color::Red);
    assert_eq!(g.clear_full_rows(), 2);
    let after_first = g.cells;
    assert_eq!(g.clear_full_rows(), 0);
    assert_eq!(g.cells, after_first);
}

#[test]
fn bottom_row_clears_and_empties() {
    let mut g = Grid::new();
    fill_row(&mut g, 19, Color::Blue);
    assert_eq!(g.clear_full_rows(), 1);
    assert_all_empty(&g);
}

#[test]
fn noncontiguous_full_rows_clear_in_one_pass() {
    let mut g = Grid::new();
    fill_row(&mut g, 3, Color::Red);
    fill_row(&mut g, 5, Color::Red);
    g.set_cell(4, 6, Color::Cyan);
    assert_eq!(g.clear_full_rows(), 2);
    // the surviving marker row sinks to the bottom of the shifted block
    assert_eq!(g.cell(5, 6), Color::Cyan);
    assert_eq!(g.cell(4, 6), Color::Empty);
    assert_eq!(g.cell(3, 6), Color::Empty);
}

#[test]
fn set_cell_and_queries_agree() {
    let mut g = Grid::new();
    assert!(!g.is_occupied(7, 3));
    g.set_cell(7, 3, Color::Cyan);
    assert!(g.is_occupied(7, 3));
    assert_eq!(g.cell(7, 3), Color::Cyan);
    g.set_cell(7, 3, Color::Empty);
    assert!(!g.is_occupied(7, 3));
}
