//! Fitness evaluators: pure scores over a finished grid snapshot.
//!
//! Each evaluator reads a grid and returns a number an external search or
//! training process can weigh: the count of covered holes, the tallest
//! column's height, or the bumpiness of the column-height profile. None of
//! them mutates the grid.

use vstd::prelude::*;

use crate::grid::Grid;
use crate::tetromino::Color;

verus! {

/// The height of column `x` counted from row `y` down: the distance from
/// the topmost occupied cell at or below `y` to the grid bottom, 0 when
/// everything from `y` down is empty.
pub open spec fn col_height_from(g: Seq<Seq<Color>>, x: int, y: int) -> int
    decreases 20 - y,
{
    if y < 0 || y >= 20 {
        0
    } else if g[y][x] != Color::Empty {
        20 - y
    } else {
        col_height_from(g, x, y + 1)
    }
}

/// The height of column `x`: the distance from its topmost occupied cell
/// to the grid bottom, 0 for an empty column.
pub open spec fn col_height(g: Seq<Seq<Color>>, x: int) -> int {
    col_height_from(g, x, 0)
}

/// Cell `(y, x)` is a hole: empty, with at least one occupied cell above
/// it in the same column.
pub open spec fn is_hole(g: Seq<Seq<Color>>, x: int, y: int) -> bool {
    g[y][x] == Color::Empty && exists|y2: int| 0 <= y2 < y && g[y2][x] != Color::Empty
}

/// The holes of column `x` from row `y` down.
pub open spec fn holes_in_col_from(g: Seq<Seq<Color>>, x: int, y: int) -> int
    decreases 20 - y,
{
    if y < 0 || y >= 20 {
        0
    } else {
        (if is_hole(g, x, y) {
            1int
        } else {
            0int
        }) + holes_in_col_from(g, x, y + 1)
    }
}

/// The holes of the columns from `x` rightward.
pub open spec fn holes_from(g: Seq<Seq<Color>>, x: int) -> int
    decreases 10 - x,
{
    if x < 0 || x >= 10 {
        0
    } else {
        holes_in_col_from(g, x, 0) + holes_from(g, x + 1)
    }
}

/// The total count of holes: empty cells with an occupied cell somewhere
/// above them in their column.
pub open spec fn hole_count(g: Seq<Seq<Color>>) -> int {
    holes_from(g, 0)
}

/// The tallest column height among the columns from `x` rightward.
pub open spec fn max_height_from(g: Seq<Seq<Color>>, x: int) -> int
    decreases 10 - x,
{
    if x < 0 || x >= 10 {
        0
    } else {
        let h = col_height(g, x);
        let rest = max_height_from(g, x + 1);
        if h >= rest {
            h
        } else {
            rest
        }
    }
}

/// The tallest column's height.
pub open spec fn max_height(g: Seq<Seq<Color>>) -> int {
    max_height_from(g, 0)
}

/// The absolute difference of two heights.
pub open spec fn abs_diff(a: int, b: int) -> int {
    if a >= b {
        a - b
    } else {
        b - a
    }
}

/// The bumpiness of the columns from `x` rightward: each column's absolute
/// height difference with its left neighbor.
pub open spec fn bump_from(g: Seq<Seq<Color>>, x: int) -> int
    decreases 10 - x,
{
    if x < 1 || x >= 10 {
        0
    } else {
        abs_diff(col_height(g, x - 1), col_height(g, x)) + bump_from(g, x + 1)
    }
}

/// The total bumpiness: the sum of absolute differences between each
/// column's height and its right neighbor's.
pub open spec fn bumpiness(g: Seq<Seq<Color>>) -> int {
    bump_from(g, 1)
}

/// The height of column `x`: scans down to the first occupied cell.
fn column_height(g: &Grid, x: usize) -> (h: u32)
    requires
        x < 10,
    ensures
        h as int == col_height(g@, x as int),
        h <= 20,
{
    let mut y: usize = 0;
    while y < 20
        invariant
            y <= 20,
            x < 10,
            col_height(g@, x as int) == col_height_from(g@, x as int, y as int),
        decreases 20 - y,
    {
        if g.is_occupied(y, x) {
            return 20 - y as u32;
        }
        y += 1;
    }
    0
}

/// The hole count of column `x`: scans down, counting empty cells once an
/// occupied cell has been seen above.
fn column_holes(g: &Grid, x: usize) -> (n: u32)
    requires
        x < 10,
    ensures
        n as int == holes_in_col_from(g@, x as int, 0),
        n <= 20,
{
    let mut n: u32 = 0;
    let mut found = false;
    let mut y: usize = 0;
    while y < 20
        invariant
            y <= 20,
            x < 10,
            n <= y,
            found == exists|y2: int| 0 <= y2 < y && g@[y2][x as int] != Color::Empty,
            holes_in_col_from(g@, x as int, 0) == n + holes_in_col_from(g@, x as int, y as int),
        decreases 20 - y,
    {
        if g.is_occupied(y, x) {
            found = true;
            proof {
                assert(g@[y as int][x as int] != Color::Empty);
                assert(!is_hole(g@, x as int, y as int));
            }
        } else {
            if found {
                n += 1;
            }
            proof {
                assert(is_hole(g@, x as int, y as int) == found);
            }
        }
        y += 1;
    }
    n
}

/// A pluggable fitness evaluator over a finished grid snapshot.
pub trait Gene {
    /// The value this evaluator assigns to the grid.
    spec fn spec_evaluate(&self, g: &Grid) -> int;

    /// Computes the evaluator's value for the grid.
    fn evaluate(&self, g: &Grid) -> (v: u32)
        ensures
            v as int == self.spec_evaluate(g),
    ;
}

/// Counts covered holes: empty cells with an occupied cell above them in
/// the same column, summed over all columns.
pub struct Holes;

/// Measures the tallest column: the distance from the top of the highest
/// occupied cell to the grid bottom.
pub struct MaxHeight;

/// Measures surface roughness: the sum of absolute height differences
/// between horizontally adjacent columns.
pub struct Bumpiness;

impl Gene for Holes {
    open spec fn spec_evaluate(&self, g: &Grid) -> int {
        hole_count(g@)
    }

    fn evaluate(&self, g: &Grid) -> (v: u32)
        ensures
            v as int == self.spec_evaluate(g),
    {
        let mut n: u32 = 0;
        let mut x: usize = 0;
        while x < 10
            invariant
                x <= 10,
                n <= 20 * x,
                hole_count(g@) == n + holes_from(g@, x as int),
            decreases 10 - x,
        {
            n += column_holes(g, x);
            x += 1;
        }
        n
    }
}

impl Gene for MaxHeight {
    open spec fn spec_evaluate(&self, g: &Grid) -> int {
        max_height(g@)
    }

    fn evaluate(&self, g: &Grid) -> (v: u32)
        ensures
            v as int == self.spec_evaluate(g),
    {
        let mut m: u32 = 0;
        let mut x: usize = 10;
        while x > 0
            invariant
                x <= 10,
                m as int == max_height_from(g@, x as int),
            decreases x,
        {
            x -= 1;
            let h: u32 = column_height(g, x);
            if h > m {
                m = h;
            }
        }
        m
    }
}

impl Gene for Bumpiness {
    open spec fn spec_evaluate(&self, g: &Grid) -> int {
        bumpiness(g@)
    }

    fn evaluate(&self, g: &Grid) -> (v: u32)
        ensures
            v as int == self.spec_evaluate(g),
    {
        let mut b: u32 = 0;
        let mut prev: u32 = column_height(g, 0);
        let mut x: usize = 1;
        while x < 10
            invariant
                1 <= x <= 10,
                b <= 20 * x,
                prev <= 20,
                prev as int == col_height(g@, x - 1),
                bumpiness(g@) == b + bump_from(g@, x as int),
            decreases 10 - x,
        {
            let h: u32 = column_height(g, x);
            let d: u32 = if prev >= h {
                prev - h
            } else {
                h - prev
            };
            b += d;
            prev = h;
            x += 1;
        }
        b
    }
}

} // verus!

