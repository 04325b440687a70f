//! The playfield: a fixed 10 x 20 matrix of colored cells.
//!
//! The grid is created empty, mutated in place when a landed piece merges
//! into it, and compacted by the line-clearing pass. A full row vanishes;
//! every row above it shifts down one step and the vacated top row becomes
//! empty. The pass scans top to bottom, so the settled rows that survive
//! keep their order and end up stacked at the bottom under `count` fresh
//! empty rows — which is exactly what [`cleared`] states.

use vstd::prelude::*;

use crate::tetromino::Color;

verus! {

/// Number of columns of the playfield.
pub const WIDTH: usize = 10;

/// Number of rows of the playfield.
pub const HEIGHT: usize = 20;

/// The playfield matrix. Row 0 is the top row; cell `(row, col)` holds
/// `Color::Empty` or the color tag of a settled piece.
#[derive(Clone, Copy)]
pub struct Grid {
    pub cells: [[Color; 10]; 20],
}

impl View for Grid {
    type V = Seq<Seq<Color>>;

    open spec fn view(&self) -> Seq<Seq<Color>> {
        Seq::new(20, |i: int| self.cells@[i]@)
    }
}

/// Every cell of the row holds a settled color.
pub open spec fn row_full(r: Seq<Color>) -> bool {
    forall|j: int| 0 <= j < r.len() ==> r[j] != Color::Empty
}

/// A row of ten empty cells.
pub open spec fn empty_row() -> Seq<Color> {
    Seq::new(10, |j: int| Color::Empty)
}

/// A playfield of twenty empty rows.
pub open spec fn empty_grid() -> Seq<Seq<Color>> {
    Seq::new(20, |i: int| empty_row())
}

/// The shape every grid view has: twenty rows of ten cells.
pub open spec fn grid_dims(g: Seq<Seq<Color>>) -> bool {
    g.len() == 20 && (forall|i: int| 0 <= i < 20 ==> (#[trigger] g[i]).len() == 10)
}

/// The rows that survive a line-clearing pass: the not-full rows, in order.
pub open spec fn kept_rows(g: Seq<Seq<Color>>) -> Seq<Seq<Color>> {
    g.filter(|r: Seq<Color>| !row_full(r))
}

/// How many rows a line-clearing pass removes.
pub open spec fn clear_count(g: Seq<Seq<Color>>) -> int {
    g.len() - kept_rows(g).len()
}

/// The grid after a line-clearing pass: the surviving rows keep their
/// order and sink to the bottom, under one fresh empty row per cleared row.
pub open spec fn cleared(g: Seq<Seq<Color>>) -> Seq<Seq<Color>> {
    Seq::new(clear_count(g) as nat, |i: int| empty_row()) + kept_rows(g)
}

/// Appending a row extends the surviving rows exactly when it is not full.
proof fn lemma_kept_push(g: Seq<Seq<Color>>, r: Seq<Color>)
    ensures
        kept_rows(g.push(r)) == if row_full(r) {
            kept_rows(g)
        } else {
            kept_rows(g).push(r)
        },
{
    reveal(Seq::filter);
    assert(g.push(r).drop_last() =~= g);
    assert(g.push(r).last() == r);
}

/// A pass over rows none of which is full keeps them all.
proof fn lemma_kept_all(g: Seq<Seq<Color>>)
    requires
        forall|i: int| 0 <= i < g.len() ==> !row_full(#[trigger] g[i]),
    ensures
        kept_rows(g) == g,
    decreases g.len(),
{
    reveal(Seq::filter);
    if g.len() > 0 {
        lemma_kept_all(g.drop_last());
        assert(kept_rows(g) == kept_rows(g.drop_last()).push(g.last()));
        assert(g.drop_last().push(g.last()) =~= g);
    }
}

/// Every surviving row is one of the grid's rows.
proof fn lemma_kept_member(g: Seq<Seq<Color>>, i: int)
    requires
        0 <= i < kept_rows(g).len(),
    ensures
        exists|k: int| 0 <= k < g.len() && g[k] == kept_rows(g)[i],
    decreases g.len(),
{
    reveal(Seq::filter);
    if g.len() > 0 {
        let sub = kept_rows(g.drop_last());
        if i < sub.len() {
            lemma_kept_member(g.drop_last(), i);
            let k = choose|k: int|
                0 <= k < g.drop_last().len() && g.drop_last()[k] == kept_rows(g.drop_last())[i];
            assert(g[k] == kept_rows(g)[i]);
        } else {
            assert(g[g.len() - 1] == kept_rows(g)[i]);
        }
    }
}

/// A pass over an all-empty grid clears nothing and leaves every row as it
/// was.
pub proof fn lemma_clear_all_empty(g: Seq<Seq<Color>>)
    requires
        grid_dims(g),
        forall|i: int, j: int| 0 <= i < 20 && 0 <= j < 10 ==> #[trigger] g[i][j] == Color::Empty,
    ensures
        clear_count(g) == 0,
        cleared(g) == g,
{
    assert forall|i: int| 0 <= i < g.len() implies !row_full(#[trigger] g[i]) by {
        assert(g[i][0] == Color::Empty);
        assert(g[i].len() == 10);
    }
    lemma_kept_all(g);
    assert(cleared(g) =~= g);
}

/// With exactly one full row, at index `i`, a pass clears exactly that
/// row: the top row becomes empty, the rows above `i` shift down one step,
/// and the rows below `i` stay put.
pub proof fn lemma_clear_single_full_row(g: Seq<Seq<Color>>, i: int)
    requires
        grid_dims(g),
        0 <= i < 20,
        row_full(g[i]),
        forall|k: int| 0 <= k < 20 && k != i ==> !row_full(#[trigger] g[k]),
    ensures
        clear_count(g) == 1,
        cleared(g)[0] == empty_row(),
        forall|k: int| 1 <= k <= i ==> #[trigger] cleared(g)[k] == g[k - 1],
        forall|k: int| i < k < 20 ==> #[trigger] cleared(g)[k] == g[k],
{
    let above = g.subrange(0, i);
    let below = g.subrange(i + 1, 20);
    assert(g =~= above + g.subrange(i, i + 1) + below);
    Seq::filter_distributes_over_add(
        above + g.subrange(i, i + 1),
        below,
        |r: Seq<Color>| !row_full(r),
    );
    Seq::filter_distributes_over_add(above, g.subrange(i, i + 1), |r: Seq<Color>| !row_full(r));
    lemma_kept_all(above);
    lemma_kept_all(below);
    assert(kept_rows(g.subrange(i, i + 1)) =~= Seq::<Seq<Color>>::empty()) by {
        reveal_with_fuel(Seq::filter, 2);
        assert(g.subrange(i, i + 1).drop_last() =~= Seq::<Seq<Color>>::empty());
        assert(g.subrange(i, i + 1).last() == g[i]);
        assert(Seq::<Seq<Color>>::empty().filter(|r: Seq<Color>| !row_full(r)).len() == 0);
    }
    assert(kept_rows(g) =~= above + below);
    assert(cleared(g) =~= Seq::new(1, |k: int| empty_row()) + above + below);
}

/// A second pass right after a first one clears nothing and changes
/// nothing: no full row survives a pass.
pub proof fn lemma_clear_idempotent(g: Seq<Seq<Color>>)
    requires
        grid_dims(g),
    ensures
        grid_dims(cleared(g)),
        clear_count(cleared(g)) == 0,
        cleared(cleared(g)) == cleared(g),
{
    let c = cleared(g);
    Seq::lemma_filter_len(g, |r: Seq<Color>| !row_full(r));
    assert(c.len() == 20);
    assert forall|i: int| 0 <= i < 20 implies (#[trigger] c[i]).len() == 10 && !row_full(c[i]) by {
        if i < clear_count(g) {
            assert(c[i] == empty_row());
            assert(c[i][0] == Color::Empty);
        } else {
            let k = i - clear_count(g);
            assert(c[i] == kept_rows(g)[k]);
            Seq::lemma_filter_pred(g, |r: Seq<Color>| !row_full(r), k);
            lemma_kept_member(g, k);
            let m = choose|m: int| 0 <= m < g.len() && g[m] == kept_rows(g)[k];
            assert(g[m].len() == 10);
        }
    }
    lemma_kept_all(c);
    assert(cleared(c) =~= c);
}

impl Grid {
    /// A fresh, all-empty playfield.
    pub fn new() -> (g: Grid)
        ensures
            g@ == empty_grid(),
    {
        let g = Grid { cells: [[Color::Empty; 10]; 20] };
        proof {
            assert(g@ =~~= empty_grid());
        }
        g
    }

    /// Bounds-checked cell query: does `(row, col)` hold a settled color?
    pub fn is_occupied(&self, row: usize, col: usize) -> (b: bool)
        requires
            row < 20,
            col < 10,
        ensures
            b == (self@[row as int][col as int] != Color::Empty),
    {
        self.cells[row][col].is_filled()
    }

    /// The color tag at `(row, col)`.
    pub fn cell(&self, row: usize, col: usize) -> (c: Color)
        requires
            row < 20,
            col < 10,
        ensures
            c == self@[row as int][col as int],
    {
        self.cells[row][col]
    }

    /// Writes one cell, used to merge a landed piece into the playfield.
    pub fn set_cell(&mut self, row: usize, col: usize, color: Color)
        requires
            row < 20,
            col < 10,
        ensures
            final(self)@ == old(self)@.update(
                row as int,
                old(self)@[row as int].update(col as int, color),
            ),
    {
        let mut r = self.cells[row];
        r[col] = color;
        self.cells[row] = r;
        proof {
            assert(final(self)@ =~~= old(self)@.update(
                row as int,
                old(self)@[row as int].update(col as int, color),
            ));
        }
    }

    /// Is every cell of row `row` occupied?
    fn row_is_full(&self, row: usize) -> (b: bool)
        requires
            row < 20,
        ensures
            b == row_full(self@[row as int]),
    {
        let mut j: usize = 0;
        while j < 10
            invariant
                j <= 10,
                row < 20,
                forall|j2: int| 0 <= j2 < j ==> self@[row as int][j2] != Color::Empty,
            decreases 10 - j,
        {
            if !self.cells[row][j].is_filled() {
                return false;
            }
            j += 1;
        }
        true
    }

    /// The line-clearing pass: scans rows top to bottom; each full row is
    /// removed, the rows above it shift down one step, and the vacated top
    /// row becomes empty, so a row that moves into a just-cleared index is
    /// examined again before the scan advances. Returns how many rows were
    /// cleared.
    pub fn clear_full_rows(&mut self) -> (n: u32)
        ensures
            final(self)@ == cleared(old(self)@),
            n as int == clear_count(old(self)@),
            n <= 20,
    {
        let ghost g0 = self@;
        let mut n: u32 = 0;
        let mut i: usize = 0;
        while i < 20
            invariant
                i <= 20,
                n <= i,
                n as int == clear_count(g0.subrange(0, i as int)),
                self@.subrange(0, i as int) == cleared(g0.subrange(0, i as int)),
                self@.subrange(i as int, 20) == g0.subrange(i as int, 20),
                g0.len() == 20,
            decreases 20 - i,
        {
            let ghost pre = g0.subrange(0, i as int);
            let ghost prenext = g0.subrange(0, i as int + 1);
            proof {
                assert(prenext =~= pre.push(g0[i as int]));
                assert(self@[i as int] == self@.subrange(i as int, 20)[0]);
                assert(self@[i as int] == g0[i as int]);
                lemma_kept_push(pre, g0[i as int]);
                Seq::lemma_filter_len(pre, |r: Seq<Color>| !row_full(r));
            }
            proof {
                assert forall|m: int| i <= m < 20 implies #[trigger] self@[m] == g0[m] by {
                    assert(self@.subrange(i as int, 20)[m - i] == g0.subrange(i as int, 20)[m
                        - i]);
                }
            }
            if self.row_is_full(i) {
                let ghost s0 = self@;
                n += 1;
                let mut k = i;
                while k >= 1
                    invariant
                        k <= i < 20,
                        s0.len() == 20,
                        forall|m: int| 0 <= m <= k ==> #[trigger] self@[m] == s0[m],
                        forall|m: int| k < m <= i ==> #[trigger] self@[m] == s0[m - 1],
                        forall|m: int| i < m < 20 ==> #[trigger] self@[m] == s0[m],
                    decreases k,
                {
                    let ghost before = self@;
                    self.cells[k] = self.cells[k - 1];
                    proof {
                        assert forall|m: int| 0 <= m < 20 && m != k implies #[trigger] self@[m]
                            == before[m] by {}
                        assert(self@[k as int] == before[k - 1]);
                    }
                    k -= 1;
                }
                let ghost mid = self@;
                self.cells[0] = [Color::Empty; 10];
                proof {
                    assert forall|m: int| 1 <= m < 20 implies #[trigger] self@[m] == mid[m] by {}
                    assert(self@[0] =~= empty_row());
                    assert(self@.subrange(0, i as int + 1) =~~= Seq::new(1, |m: int| empty_row())
                        + s0.subrange(0, i as int));
                    assert(cleared(prenext) =~~= Seq::new(1, |m: int| empty_row()) + cleared(pre));
                    assert(s0.subrange(0, i as int) == cleared(pre));
                    assert(self@.subrange(0, i as int + 1) =~~= cleared(prenext));
                    assert(self@.subrange(i as int + 1, 20) =~= g0.subrange(i as int + 1, 20));
                }
            } else {
                proof {
                    assert(cleared(prenext) =~~= cleared(pre).push(g0[i as int]));
                    assert(self@.subrange(0, i as int + 1) =~= self@.subrange(0, i as int).push(
                        self@[i as int],
                    ));
                    assert(self@.subrange(i as int + 1, 20) =~= g0.subrange(i as int + 1, 20));
                }
            }
            i += 1;
        }
        proof {
            assert(g0.subrange(0, 20) =~= g0);
            assert(self@.subrange(0, 20) =~= self@);
        }
        n
    }
}

} // verus!
