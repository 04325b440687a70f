//! The game engine: playfield, active piece, score and termination flag.
//!
//! Each command is a total, synchronous transition. Shifts commit only when
//! the piece is not touching a wall or the settled stack in that direction;
//! rotation is speculative and reverts unless every rotated cell lands on an
//! empty in-bounds cell; a tick either applies gravity or locks the piece:
//! it merges into the grid, full rows clear, the score grows by one per
//! cleared row, a fresh piece spawns, and the game is over exactly when that
//! fresh piece overlaps the settled stack. The over flag is never cleared.
//!
//! `GameControls` is the pause gate around the engine: while paused, every
//! engine-mutating command is suppressed.

use vstd::prelude::*;

use crate::grid::{Grid, WIDTH, clear_count, cleared, empty_grid};
use crate::tetromino::{
    Color, Direction, Shape, Tetromino, as_cell, cell_representable, color_of, shift_target,
    spawn_cells, turn_target,
};

verus! {

/// The engine state: settled grid, active piece, score, termination flag,
/// and the pseudo-random state the next spawn will draw from.
pub struct Game {
    pub grid: Grid,
    pub score: u32,
    pub tetromino: Tetromino,
    pub over: bool,
    pub rng: u64,
}

/// The seed `Game::new` starts from; `Game::with_seed` takes any other.
pub const DEFAULT_SEED: u64 = 0x853c49e6748fea9b;

/// One step of the linear-congruential pseudo-random sequence that drives
/// shape selection.
pub open spec fn next_rng(s: u64) -> u64 {
    s.wrapping_mul(6364136223846793005).wrapping_add(1442695040888963407)
}

/// The shape a pseudo-random draw selects: a uniform choice over the seven
/// shape kinds.
pub open spec fn shape_for(r: u64) -> Shape {
    let k = r % 7;
    if k == 0 {
        Shape::I
    } else if k == 1 {
        Shape::O
    } else if k == 2 {
        Shape::T
    } else if k == 3 {
        Shape::S
    } else if k == 4 {
        Shape::Z
    } else if k == 5 {
        Shape::J
    } else {
        Shape::L
    }
}

/// A freshly spawned piece as drawn from pseudo-random state `r`: the drawn
/// shape in its canonical spawn layout with its own color.
pub open spec fn fresh_piece(t: Tetromino, r: u64) -> bool {
    &&& t.shape == shape_for(r)
    &&& t.color == color_of(t.shape)
    &&& t.cells@ == spawn_cells(t.shape, 10)
}

/// The active piece is well-formed: four distinct cells inside the grid.
pub open spec fn piece_wf(cells: Seq<(usize, usize)>) -> bool {
    &&& cells.len() == 4
    &&& forall|i: int| 0 <= i < 4 ==> (#[trigger] cells[i]).0 < 20 && cells[i].1 < 10
    &&& forall|i: int, j: int| 0 <= i < j < 4 ==> cells[i] != cells[j]
}

/// One piece cell is blocked in `dir`: the next cell that way is outside
/// the grid or holds a settled color.
pub open spec fn touch_cell(g: Seq<Seq<Color>>, c: (usize, usize), dir: Direction) -> bool {
    match dir {
        Direction::Left => c.1 == 0 || g[c.0 as int][c.1 - 1] != Color::Empty,
        Direction::Right => c.1 + 1 >= 10 || g[c.0 as int][c.1 + 1] != Color::Empty,
        Direction::Down => c.0 + 1 >= 20 || g[c.0 + 1][c.1 as int] != Color::Empty,
    }
}

/// The piece touches in `dir`: some cell of it is blocked that way.
pub open spec fn touches_dir(g: Seq<Seq<Color>>, cells: Seq<(usize, usize)>, dir: Direction) -> bool {
    exists|i: int| 0 <= i < cells.len() && touch_cell(g, #[trigger] cells[i], dir)
}

/// The grid with the piece's cells settled in the piece's color.
pub open spec fn merged(g: Seq<Seq<Color>>, cells: Seq<(usize, usize)>, col: Color) -> Seq<
    Seq<Color>,
> {
    Seq::new(
        20,
        |r: int|
            Seq::new(
                10,
                |c: int|
                    if piece_covers(cells, r, c) {
                        col
                    } else {
                        g[r][c]
                    },
            ),
    )
}

/// Whether some piece cell sits at `(r, c)`.
pub open spec fn piece_covers(cells: Seq<(usize, usize)>, r: int, c: int) -> bool {
    exists|i: int| 0 <= i < cells.len() && (#[trigger] cells[i]).0 == r && cells[i].1 == c
}

/// Whether some piece cell sits on an occupied grid cell.
pub open spec fn overlaps(g: Seq<Seq<Color>>, cells: Seq<(usize, usize)>) -> bool {
    exists|i: int|
        0 <= i < cells.len() && g[(#[trigger] cells[i]).0 as int][cells[i].1 as int] != Color::Empty
}

/// A rotated cell lands inside the grid on an empty cell.
pub open spec fn target_free(g: Seq<Seq<Color>>, t: (int, int)) -> bool {
    0 <= t.0 < 20 && 0 <= t.1 < 10 && g[t.0][t.1] == Color::Empty
}

/// A turn may commit: every cell of the rotated layout lands inside the
/// grid on an empty cell.
pub open spec fn turn_valid(pre: Game) -> bool {
    forall|i: int| 0 <= i < 4 ==> target_free(pre.grid@, #[trigger] turn_target(pre.tetromino)[i])
}

/// What a `shift` command leaves behind: everything but the piece cells is
/// untouched; the piece moved one unit, or stayed put because it was
/// touching that way.
pub open spec fn shift_post(pre: Game, post: Game, dir: Direction) -> bool {
    &&& post.grid@ == pre.grid@
    &&& post.score == pre.score
    &&& post.over == pre.over
    &&& post.rng == pre.rng
    &&& post.tetromino.color == pre.tetromino.color
    &&& post.tetromino.shape == pre.tetromino.shape
    &&& if touches_dir(pre.grid@, pre.tetromino.cells@, dir) {
        post.tetromino == pre.tetromino
    } else {
        forall|i: int|
            0 <= i < 4 ==> #[trigger] post.tetromino.cells@[i] == as_cell(
                shift_target(pre.tetromino.cells@[i], dir),
            )
    }
}

/// What a `turn` command leaves behind: everything but the piece cells is
/// untouched; the piece holds the rotated layout if every rotated cell is
/// free, else its cells reverted.
pub open spec fn turn_post(pre: Game, post: Game) -> bool {
    &&& post.grid@ == pre.grid@
    &&& post.score == pre.score
    &&& post.over == pre.over
    &&& post.rng == pre.rng
    &&& post.tetromino.color == pre.tetromino.color
    &&& post.tetromino.shape == pre.tetromino.shape
    &&& if turn_valid(pre) {
        forall|i: int|
            0 <= i < 4 ==> #[trigger] post.tetromino.cells@[i] == as_cell(
                turn_target(pre.tetromino)[i],
            )
    } else {
        post.tetromino == pre.tetromino
    }
}

/// The piece's cells translated `k` rows down.
pub open spec fn dropped_cells(cells: Seq<(usize, usize)>, k: int) -> Seq<(usize, usize)> {
    Seq::new(cells.len(), |i: int| (((cells[i].0 + k) as usize), cells[i].1))
}

/// What a `hard_drop` command leaves behind: the piece fell some minimal
/// number of rows to rest on the floor or the stack; nothing else changed.
pub open spec fn drop_post(pre: Game, post: Game) -> bool {
    &&& post.grid@ == pre.grid@
    &&& post.score == pre.score
    &&& post.over == pre.over
    &&& post.rng == pre.rng
    &&& post.tetromino.color == pre.tetromino.color
    &&& post.tetromino.shape == pre.tetromino.shape
    &&& exists|k: int|
        #![auto]
        0 <= k < 20 && post.tetromino.cells@ == dropped_cells(pre.tetromino.cells@, k)
            && touches_dir(pre.grid@, dropped_cells(pre.tetromino.cells@, k), Direction::Down) && (
        forall|j: int|
            0 <= j < k ==> !touches_dir(
                pre.grid@,
                dropped_cells(pre.tetromino.cells@, j),
                Direction::Down,
            ))
}

/// The score after `n` rows cleared at once: one point per row, saturating
/// at the integer's ceiling.
pub open spec fn add_score(s: u32, n: int) -> u32 {
    if s + n <= u32::MAX {
        (s + n) as u32
    } else {
        u32::MAX
    }
}

/// What a `tick` command leaves behind. A piece not touching down falls one
/// row, as an uncontested downward shift. A touching piece locks: it merges
/// into the grid, full rows clear, the score grows by the cleared count, a
/// fresh piece spawns from the next pseudo-random draw, and the game is
/// over exactly when it already was or the fresh piece overlaps the settled
/// stack.
pub open spec fn tick_post(pre: Game, post: Game) -> bool {
    if !touches_dir(pre.grid@, pre.tetromino.cells@, Direction::Down) {
        shift_post(pre, post, Direction::Down)
    } else {
        let locked = merged(pre.grid@, pre.tetromino.cells@, pre.tetromino.color);
        &&& post.grid@ == cleared(locked)
        &&& post.score == add_score(pre.score, clear_count(locked))
        &&& post.rng == next_rng(pre.rng)
        &&& fresh_piece(post.tetromino, post.rng)
        &&& post.over == (pre.over || overlaps(post.grid@, post.tetromino.cells@))
    }
}

/// A game as it stands at start: empty grid, zero score, not over, and the
/// first piece drawn from the seed.
pub open spec fn initial_state(g: Game, seed: u64) -> bool {
    &&& g.grid@ == empty_grid()
    &&& g.score == 0
    &&& !g.over
    &&& g.rng == next_rng(seed)
    &&& fresh_piece(g.tetromino, g.rng)
}

impl Game {
    /// The active piece is well-formed.
    pub open spec fn wf(&self) -> bool {
        piece_wf(self.tetromino.cells@)
    }

    /// A new game from the default seed.
    pub fn new() -> (g: Game)
        ensures
            g.wf(),
            initial_state(g, DEFAULT_SEED),
    {
        Game::with_seed(DEFAULT_SEED)
    }

    /// A new game whose piece sequence is drawn from `seed`: empty grid,
    /// zero score, not over, first piece spawned.
    pub fn with_seed(seed: u64) -> (g: Game)
        ensures
            g.wf(),
            initial_state(g, seed),
    {
        let mut g = Game {
            grid: Grid::new(),
            score: 0,
            tetromino: Tetromino::spawn(Shape::I, WIDTH),
            over: false,
            rng: seed,
        };
        g.spawn_piece();
        g
    }

    /// A new game over an already-settled grid, with the piece sequence
    /// drawn from `seed`: zero score, first piece spawned, and over exactly
    /// when that piece overlaps the settled stack.
    pub fn with_grid(grid: Grid, seed: u64) -> (g: Game)
        ensures
            g.wf(),
            g.grid == grid,
            g.score == 0,
            g.rng == next_rng(seed),
            fresh_piece(g.tetromino, g.rng),
            g.over == overlaps(g.grid@, g.tetromino.cells@),
    {
        let mut g = Game {
            grid,
            score: 0,
            tetromino: Tetromino::spawn(Shape::I, WIDTH),
            over: false,
            rng: seed,
        };
        g.spawn_piece();
        g.over = g.piece_overlaps();
        g
    }

    /// Does the active piece sit on an occupied grid cell? True only for a
    /// piece freshly spawned into a stack that reaches the spawn rows.
    fn piece_overlaps(&self) -> (b: bool)
        requires
            self.wf(),
        ensures
            b == overlaps(self.grid@, self.tetromino.cells@),
    {
        let mut over_now = false;
        let mut i: usize = 0;
        while i < 4
            invariant
                i <= 4,
                self.wf(),
                over_now == exists|m: int|
                    0 <= m < i && self.grid@[(#[trigger] self.tetromino.cells@[m]).0 as int][self.tetromino.cells@[m].1 as int]
                        != Color::Empty,
            decreases 4 - i,
        {
            let c: (usize, usize) = self.tetromino.cells[i];
            if self.grid.is_occupied(c.0, c.1) {
                over_now = true;
                proof {
                    assert(self.grid@[(self.tetromino.cells@[i as int]).0 as int][self.tetromino.cells@[i as int].1 as int]
                        != Color::Empty);
                }
            }
            i += 1;
        }
        over_now
    }

    /// Advances the pseudo-random state and spawns the piece it selects.
    fn spawn_piece(&mut self)
        ensures
            final(self).wf(),
            final(self).rng == next_rng(old(self).rng),
            fresh_piece(final(self).tetromino, final(self).rng),
            final(self).grid == old(self).grid,
            final(self).score == old(self).score,
            final(self).over == old(self).over,
    {
        self.rng = self.rng.wrapping_mul(6364136223846793005).wrapping_add(1442695040888963407);
        let k: u64 = self.rng % 7;
        let shape = if k == 0 {
            Shape::I
        } else if k == 1 {
            Shape::O
        } else if k == 2 {
            Shape::T
        } else if k == 3 {
            Shape::S
        } else if k == 4 {
            Shape::Z
        } else if k == 5 {
            Shape::J
        } else {
            Shape::L
        };
        self.tetromino = Tetromino::spawn(shape, WIDTH);
    }

    /// Is the piece blocked in `dir` by a wall, the floor, or a settled
    /// cell?
    fn piece_touches(&self, dir: Direction) -> (b: bool)
        requires
            self.wf(),
        ensures
            b == touches_dir(self.grid@, self.tetromino.cells@, dir),
    {
        let mut touch = false;
        let mut i: usize = 0;
        while i < 4
            invariant
                i <= 4,
                self.wf(),
                touch == exists|m: int|
                    0 <= m < i && touch_cell(self.grid@, #[trigger] self.tetromino.cells@[m], dir),
            decreases 4 - i,
        {
            let c: (usize, usize) = self.tetromino.cells[i];
            let hit: bool = match dir {
                Direction::Left => c.1 == 0 || self.grid.is_occupied(c.0, c.1 - 1),
                Direction::Right => c.1 + 1 >= 10 || self.grid.is_occupied(c.0, c.1 + 1),
                Direction::Down => c.0 + 1 >= 20 || self.grid.is_occupied(c.0 + 1, c.1),
            };
            proof {
                assert(hit == touch_cell(self.grid@, self.tetromino.cells@[i as int], dir));
            }
            touch = touch || hit;
            i += 1;
        }
        touch
    }

    /// Applies a shift command: moves the piece one unit in `dir` unless it
    /// touches that way, in which case nothing changes.
    pub fn shift(&mut self, dir: Direction)
        requires
            old(self).wf(),
        ensures
            final(self).wf(),
            shift_post(*old(self), *final(self), dir),
    {
        let touch = self.piece_touches(dir);
        if !touch {
            proof {
                assert forall|i: int| 0 <= i < 4 implies !touch_cell(
                    old(self).grid@,
                    #[trigger] old(self).tetromino.cells@[i],
                    dir,
                ) by {}
            }
            self.tetromino.shift(dir);
            proof {
                assert forall|i: int, j: int| 0 <= i < j < 4 implies #[trigger] self
                    .tetromino
                    .cells@[i] != #[trigger] self.tetromino.cells@[j] by {
                    assert(self.tetromino.cells@[i] == as_cell(
                        shift_target(old(self).tetromino.cells@[i], dir),
                    ));
                    assert(self.tetromino.cells@[j] == as_cell(
                        shift_target(old(self).tetromino.cells@[j], dir),
                    ));
                }
            }
        }
    }

    /// Applies a turn command: speculative rotate, validate against grid
    /// bounds and occupancy, then commit or revert.
    pub fn turn(&mut self)
        requires
            old(self).wf(),
        ensures
            final(self).wf(),
            turn_post(*old(self), *final(self)),
    {
        let backup: [(usize, usize); 4] = self.tetromino.cells;
        proof {
            assert forall|m: int| 0 <= m < 4 implies (#[trigger] turn_target(
                old(self).tetromino,
            )[m]).0 < 30 && turn_target(old(self).tetromino)[m].1 < 30 by {
                lemma_turn_target_bounds(old(self).tetromino, m);
            }
        }
        if self.tetromino.turn() {
            let mut good = true;
            let mut i: usize = 0;
            while i < 4
                invariant
                    i <= 4,
                    forall|m: int|
                        0 <= m < 4 ==> (#[trigger] turn_target(old(self).tetromino)[m]).0 < 30
                            && turn_target(old(self).tetromino)[m].1 < 30,
                    self.grid == old(self).grid,
                    self.score == old(self).score,
                    self.over == old(self).over,
                    self.rng == old(self).rng,
                    self.tetromino.color == old(self).tetromino.color,
                    self.tetromino.shape == old(self).tetromino.shape,
                    self.tetromino.cells@.len() == 4,
                    forall|m: int|
                        0 <= m < 4 ==> cell_representable(
                            #[trigger] turn_target(old(self).tetromino)[m],
                        ),
                    forall|m: int|
                        0 <= m < 4 ==> #[trigger] self.tetromino.cells@[m] == as_cell(
                            turn_target(old(self).tetromino)[m],
                        ),
                    good == forall|m: int|
                        0 <= m < i ==> target_free(
                            self.grid@,
                            #[trigger] turn_target(old(self).tetromino)[m],
                        ),
                decreases 4 - i,
            {
                let c: (usize, usize) = self.tetromino.cells[i];
                if c.0 < 20 && c.1 < 10 {
                    if self.grid.is_occupied(c.0, c.1) {
                        good = false;
                    }
                } else {
                    good = false;
                }
                proof {
                    assert(self.tetromino.cells@[i as int] == as_cell(
                        turn_target(old(self).tetromino)[i as int],
                    ));
                }
                i += 1;
            }
            if good {
                proof {
                    assert(turn_valid(*old(self)));
                    assert forall|a: int, b: int| 0 <= a < b < 4 implies #[trigger] self
                        .tetromino
                        .cells@[a] != #[trigger] self.tetromino.cells@[b] by {
                        lemma_turn_target_injective(old(self).tetromino, a, b);
                    }
                }
                return ;
            }
        }
        self.tetromino.cells = backup;
        proof {
            assert(!turn_valid(*old(self)));
            assert(self.tetromino == old(self).tetromino);
        }
    }

    /// Applies a hard-drop command: shifts the piece down until it rests on
    /// the floor or the settled stack.
    pub fn hard_drop(&mut self)
        requires
            old(self).wf(),
        ensures
            final(self).wf(),
            drop_post(*old(self), *final(self)),
    {
        let ghost pre = *old(self);
        let ghost mut k: int = 0;
        proof {
            assert(self.tetromino.cells@ =~= dropped_cells(pre.tetromino.cells@, 0));
        }
        let mut touching = self.piece_touches(Direction::Down);
        while !touching
            invariant
                self.wf(),
                pre.wf(),
                0 <= k < 20,
                self.grid@ == pre.grid@,
                self.score == pre.score,
                self.over == pre.over,
                self.rng == pre.rng,
                self.tetromino.color == pre.tetromino.color,
                self.tetromino.shape == pre.tetromino.shape,
                self.tetromino.cells@ == dropped_cells(pre.tetromino.cells@, k),
                forall|j: int|
                    0 <= j < k ==> !touches_dir(
                        pre.grid@,
                        dropped_cells(pre.tetromino.cells@, j),
                        Direction::Down,
                    ),
                touching == touches_dir(self.grid@, self.tetromino.cells@, Direction::Down),
            decreases 20 - self.tetromino.cells@[0].0,
        {
            let ghost at_entry = *self;
            self.shift(Direction::Down);
            proof {
                k = k + 1;
                assert(self.tetromino.cells@ =~= dropped_cells(pre.tetromino.cells@, k)) by {
                    assert forall|i: int| 0 <= i < 4 implies #[trigger] self.tetromino.cells@[i]
                        == dropped_cells(pre.tetromino.cells@, k)[i] by {
                        assert(self.tetromino.cells@[i] == as_cell(
                            shift_target(at_entry.tetromino.cells@[i], Direction::Down),
                        ));
                        assert(at_entry.tetromino.cells@[i] == dropped_cells(
                            pre.tetromino.cells@,
                            k - 1,
                        )[i]);
                    }
                }
            }
            touching = self.piece_touches(Direction::Down);
        }
        proof {
            assert(drop_post(pre, *self)) by {
                assert(0 <= k < 20 && self.tetromino.cells@ == dropped_cells(
                    pre.tetromino.cells@,
                    k,
                ) && touches_dir(
                    pre.grid@,
                    dropped_cells(pre.tetromino.cells@, k),
                    Direction::Down,
                ) && (forall|j: int|
                    0 <= j < k ==> !touches_dir(
                        pre.grid@,
                        dropped_cells(pre.tetromino.cells@, j),
                        Direction::Down,
                    )));
            }
        }
    }

    /// Merges the active piece's cells into the grid in the piece's color.
    fn merge_piece(&mut self)
        requires
            old(self).wf(),
        ensures
            final(self).wf(),
            final(self).grid@ == merged(
                old(self).grid@,
                old(self).tetromino.cells@,
                old(self).tetromino.color,
            ),
            final(self).score == old(self).score,
            final(self).over == old(self).over,
            final(self).rng == old(self).rng,
            final(self).tetromino == old(self).tetromino,
    {
        let c0: (usize, usize) = self.tetromino.cells[0];
        let c1: (usize, usize) = self.tetromino.cells[1];
        let c2: (usize, usize) = self.tetromino.cells[2];
        let c3: (usize, usize) = self.tetromino.cells[3];
        let col = self.tetromino.color;
        self.grid.set_cell(c0.0, c0.1, col);
        self.grid.set_cell(c1.0, c1.1, col);
        self.grid.set_cell(c2.0, c2.1, col);
        self.grid.set_cell(c3.0, c3.1, col);
        proof {
            assert(self.grid@ =~~= merged(
                old(self).grid@,
                old(self).tetromino.cells@,
                old(self).tetromino.color,
            ));
        }
    }

    /// Applies a tick: gravity while the piece can fall, else the piece
    /// locks — merge, clear full rows, score, spawn, and the game-over
    /// check on the fresh piece.
    pub fn tick(&mut self)
        requires
            old(self).wf(),
        ensures
            final(self).wf(),
            tick_post(*old(self), *final(self)),
            old(self).over ==> final(self).over,
            final(self).score >= old(self).score,
    {
        let touch = self.piece_touches(Direction::Down);
        if !touch {
            self.shift(Direction::Down);
        } else {
            self.merge_piece();
            let n: u32 = self.grid.clear_full_rows();
            self.score = if self.score <= u32::MAX - n {
                self.score + n
            } else {
                u32::MAX
            };
            self.spawn_piece();
            let over_now = self.piece_overlaps();
            self.over = self.over || over_now;
        }
    }
}

/// A well-formed piece's turn target stays in a small coordinate window:
/// the pivot and every cell lie inside the grid, so a rotated coordinate
/// is below the sum of the grid dimensions.
proof fn lemma_turn_target_bounds(t: Tetromino, i: int)
    requires
        piece_wf(t.cells@),
        0 <= i < 4,
    ensures
        turn_target(t)[i].0 < 30,
        turn_target(t)[i].1 < 30,
{
    if t.shape == Shape::O {
        assert(turn_target(t)[i] == (t.cells@[i].0 as int, t.cells@[i].1 as int));
    } else {
        let p = t.cells@[1];
        assert(turn_target(t)[i] == (p.0 + t.cells@[i].1 - p.1, p.1 + p.0 - t.cells@[i].0));
    }
}

/// Distinct cells rotate to distinct cells: the quarter-turn about the
/// pivot is injective, so a turn never produces duplicate cells.
proof fn lemma_turn_target_injective(t: Tetromino, a: int, b: int)
    requires
        piece_wf(t.cells@),
        0 <= a < 4,
        0 <= b < 4,
        a != b,
    ensures
        turn_target(t)[a] != turn_target(t)[b],
{
    if t.shape == Shape::O {
        assert(turn_target(t)[a] == (t.cells@[a].0 as int, t.cells@[a].1 as int));
        assert(turn_target(t)[b] == (t.cells@[b].0 as int, t.cells@[b].1 as int));
    } else {
        let p = t.cells@[1];
        assert(turn_target(t)[a] == (p.0 + t.cells@[a].1 - p.1, p.1 + p.0 - t.cells@[a].0));
        assert(turn_target(t)[b] == (p.0 + t.cells@[b].1 - p.1, p.1 + p.0 - t.cells@[b].0));
        assert(t.cells@[a] != t.cells@[b]);
    }
}

/// The pause gate around the engine: while paused, every engine-mutating
/// command is suppressed; render queries go to the inner game directly.
pub struct GameControls {
    pub game: Game,
    pub pause: bool,
}

impl GameControls {
    /// A fresh unpaused game from the default seed.
    pub fn new() -> (c: GameControls)
        ensures
            c.game.wf(),
            initial_state(c.game, DEFAULT_SEED),
            !c.pause,
    {
        GameControls { game: Game::new(), pause: false }
    }

    /// Flips the pause gate; the game state is untouched.
    pub fn toggle_pause(&mut self)
        ensures
            final(self).pause == !old(self).pause,
            final(self).game == old(self).game,
    {
        self.pause = !self.pause;
    }

    /// A shift command, suppressed while paused.
    pub fn shift(&mut self, dir: Direction)
        requires
            old(self).game.wf(),
        ensures
            final(self).game.wf(),
            final(self).pause == old(self).pause,
            old(self).pause ==> final(self).game == old(self).game,
            !old(self).pause ==> shift_post(old(self).game, final(self).game, dir),
    {
        if !self.pause {
            self.game.shift(dir);
        }
    }

    /// A turn command, suppressed while paused.
    pub fn turn(&mut self)
        requires
            old(self).game.wf(),
        ensures
            final(self).game.wf(),
            final(self).pause == old(self).pause,
            old(self).pause ==> final(self).game == old(self).game,
            !old(self).pause ==> turn_post(old(self).game, final(self).game),
    {
        if !self.pause {
            self.game.turn();
        }
    }

    /// A hard-drop command, suppressed while paused.
    pub fn hard_drop(&mut self)
        requires
            old(self).game.wf(),
        ensures
            final(self).game.wf(),
            final(self).pause == old(self).pause,
            old(self).pause ==> final(self).game == old(self).game,
            !old(self).pause ==> drop_post(old(self).game, final(self).game),
    {
        if !self.pause {
            self.game.hard_drop();
        }
    }

    /// A tick command, suppressed while paused.
    pub fn tick(&mut self)
        requires
            old(self).game.wf(),
        ensures
            final(self).game.wf(),
            final(self).pause == old(self).pause,
            old(self).pause ==> final(self).game == old(self).game,
            !old(self).pause ==> tick_post(old(self).game, final(self).game),
            old(self).game.over ==> final(self).game.over,
    {
        if !self.pause {
            self.game.tick();
        }
    }
}

} // verus!
