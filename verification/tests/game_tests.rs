use tetris::game::{Game, GameControls};
use tetris::grid::Grid;
use tetris::tetromino::{Color, Direction, Shape};

/// What a turn should leave behind, by the committed-or-reverted rule: the
/// quarter-turn about the pivot when every rotated cell is an empty
/// in-bounds cell, else the cells unchanged. The square never changes.
fn expected_turn(game: &Game) -> [(usize, usize); 4] {
    let t = &game.tetromino;
    if t.shape == Shape::O {
        return t.cells;
    }
    let p = t.cells[1];
    let mut out = [(0usize, 0usize); 4];
    for i in 0..4 {
        let c = t.cells[i];
        let row = p.0 as i64 + c.1 as i64 - p.1 as i64;
        let col = p.1 as i64 + p.0 as i64 - c.0 as i64;
        if row < 0 || row >= 20 || col < 0 || col >= 10 {
            return t.cells;
        }
        if game.grid.is_occupied(row as usize, col as usize) {
            return t.cells;
        }
        out[i] = (row as usize, col as usize);
    }
    out
}

fn find_seed_for(shape: Shape) -> u64 {
    for seed in 0..10_000u64 {
        if Game::with_seed(seed).tetromino.shape == shape {
            return seed;
        }
    }
    panic!("no seed selects the requested shape");
}

#[test]
fn new_game_starts_clean() {
    let g = Game::new();
    assert_eq!(g.score, 0);
    assert!(!g.over);
    for &(row, col) in g.tetromino.cells.iter() {
        assert!(row <= 1);
        assert!(col < 10);
        assert!(!g.grid.is_occupied(row, col));
    }
}

#[test]
fn same_seed_gives_same_piece() {
    let a = Game::with_seed(42);
    let b = Game::with_seed(42);
    assert_eq!(a.tetromino.cells, b.tetromino.cells);
    assert_eq!(a.tetromino.shape, b.tetromino.shape);
}

#[test]
fn gravity_tick_moves_piece_down() {
    let mut g = Game::new();
    let before = g.tetromino.cells;
    g.tick();
    for i in 0..4 {
        assert_eq!(g.tetromino.cells[i].0, before[i].0 + 1);
        assert_eq!(g.tetromino.cells[i].1, before[i].1);
    }
    assert_eq!(g.score, 0);
    assert!(!g.over);
}

#[test]
fn shift_moves_by_one_unit() {
    let mut g = Game::new();
    let before = g.tetromino.cells;
    g.shift(Direction::Left);
    for i in 0..4 {
        assert_eq!(g.tetromino.cells[i].0, before[i].0);
        assert_eq!(g.tetromino.cells[i].1, before[i].1 - 1);
    }
}

#[test]
fn shift_left_stops_at_the_wall() {
    let mut g = Game::new();
    for _ in 0..10 {
        g.shift(Direction::Left);
    }
    let min_col = g.tetromino.cells.iter().map(|c| c.1).min().unwrap();
    assert_eq!(min_col, 0);
    let at_wall = g.tetromino.cells;
    g.shift(Direction::Left);
    assert_eq!(g.tetromino.cells, at_wall);
}

#[test]
fn shift_right_stops_at_the_wall() {
    let mut g = Game::new();
    for _ in 0..10 {
        g.shift(Direction::Right);
    }
    let max_col = g.tetromino.cells.iter().map(|c| c.1).max().unwrap();
    assert_eq!(max_col, 9);
    let at_wall = g.tetromino.cells;
    g.shift(Direction::Right);
    assert_eq!(g.tetromino.cells, at_wall);
}

#[test]
fn shift_down_stops_on_occupied_cell() {
    // settle one cell right under the spawn area and check a piece cannot
    // be shifted into it
    let mut grid = Grid::new();
    let seed = find_seed_for(Shape::O);
    // the square spawns at rows 0-1, columns 4-5
    grid.set_cell(2, 4, Color::Red);
    let mut g = Game::with_grid(grid, seed);
    assert!(!g.over);
    let spawned = g.tetromino.cells;
    g.shift(Direction::Down);
    assert_eq!(g.tetromino.cells, spawned);
}

#[test]
fn turn_at_spawn_follows_the_rule() {
    let mut g = Game::new();
    let want = expected_turn(&g);
    g.turn();
    assert_eq!(g.tetromino.cells, want);
}

#[test]
fn turn_commits_in_open_space() {
    let seed = find_seed_for(Shape::T);
    let mut g = Game::with_seed(seed);
    for _ in 0..4 {
        g.tick();
    }
    let before = g.tetromino.cells;
    let want = expected_turn(&g);
    g.turn();
    assert_eq!(g.tetromino.cells, want);
    // in open space the rotation really commits
    assert_ne!(g.tetromino.cells, before);
}

#[test]
fn turn_of_square_is_a_no_op() {
    let seed = find_seed_for(Shape::O);
    let mut g = Game::with_seed(seed);
    for _ in 0..4 {
        g.tick();
    }
    let before = g.tetromino.cells;
    g.turn();
    assert_eq!(g.tetromino.cells, before);
}

#[test]
fn hard_drop_rests_on_the_floor() {
    let mut g = Game::new();
    g.hard_drop();
    let max_row = g.tetromino.cells.iter().map(|c| c.0).max().unwrap();
    assert_eq!(max_row, 19);
    // dropping again changes nothing
    let resting = g.tetromino.cells;
    g.hard_drop();
    assert_eq!(g.tetromino.cells, resting);
}

#[test]
fn tick_locks_a_resting_piece_into_the_grid() {
    let mut g = Game::new();
    let color = g.tetromino.color;
    g.hard_drop();
    let resting = g.tetromino.cells;
    g.tick();
    for &(row, col) in resting.iter() {
        assert_eq!(g.grid.cell(row, col), color);
    }
    assert_eq!(g.score, 0);
}

#[test]
fn completed_row_scores_one_and_clears() {
    let seed = find_seed_for(Shape::I);
    let mut grid = Grid::new();
    // bottom row occupied except where the I piece will land
    for col in 0..10 {
        if col < 3 || col > 6 {
            grid.set_cell(19, col, Color::Blue);
        }
    }
    let mut g = Game::with_grid(grid, seed);
    assert!(!g.over);
    g.hard_drop();
    g.tick();
    assert_eq!(g.score, 1);
    assert!(!g.over);
    for row in 0..20 {
        for col in 0..10 {
            assert!(!g.grid.is_occupied(row, col));
        }
    }
}

#[test]
fn spawn_overlap_sets_game_over() {
    let mut grid = Grid::new();
    for row in 0..2 {
        for col in 0..10 {
            grid.set_cell(row, col, Color::White);
        }
    }
    let g = Game::with_grid(grid, 7);
    assert!(g.over);
}

#[test]
fn spawn_in_the_clear_is_not_game_over() {
    let g = Game::with_grid(Grid::new(), 7);
    assert!(!g.over);
}

#[test]
fn game_over_is_never_cleared() {
    let mut grid = Grid::new();
    for row in 0..2 {
        for col in 0..10 {
            grid.set_cell(row, col, Color::White);
        }
    }
    let mut g = Game::with_grid(grid, 99);
    assert!(g.over);
    for _ in 0..30 {
        g.tick();
        assert!(g.over);
    }
}

#[test]
fn stacking_pieces_eventually_ends_the_game() {
    let mut g = Game::with_seed(1);
    for _ in 0..200 {
        g.hard_drop();
        g.tick();
        if g.over {
            break;
        }
    }
    assert!(g.over);
}

#[test]
fn paused_controls_suppress_commands() {
    let mut c = GameControls::new();
    assert!(!c.pause);
    c.toggle_pause();
    assert!(c.pause);
    let before = c.game.tetromino.cells;
    c.shift(Direction::Left);
    c.turn();
    c.hard_drop();
    c.tick();
    assert_eq!(c.game.tetromino.cells, before);
    assert_eq!(c.game.score, 0);
}

#[test]
fn unpaused_controls_reach_the_engine() {
    let mut c = GameControls::new();
    c.toggle_pause();
    c.toggle_pause();
    assert!(!c.pause);
    let before = c.game.tetromino.cells;
    c.tick();
    for i in 0..4 {
        assert_eq!(c.game.tetromino.cells[i].0, before[i].0 + 1);
    }
}

#[test]
fn score_never_decreases_over_a_long_game() {
    let mut g = Game::with_seed(3);
    let mut last = 0u32;
    for _ in 0..500 {
        g.shift(Direction::Left);
        g.tick();
        assert!(g.score >= last);
        last = g.score;
        if g.over {
            break;
        }
    }
}
