//! The falling piece: a four-cell tetromino with a color tag.
//!
//! A piece is a set of four absolute grid coordinates `(row, col)` plus a
//! shape kind and a color. Shifting translates every cell by one unit;
//! rotation is speculative: the piece computes its rotated cell set and
//! commits it only when every rotated coordinate is representable, leaving
//! the caller to validate grid bounds and occupancy.

use vstd::prelude::*;

verus! {

/// The content of one grid cell: empty, or the color tag of a settled piece.
#[derive(Clone, Copy, Debug, PartialEq, Eq, Structural)]
pub enum Color {
    Empty,
    Cyan,
    Yellow,
    Magenta,
    Green,
    Red,
    Blue,
    White,
}

impl Color {
    /// True when the cell holds a settled piece's color.
    pub fn is_filled(&self) -> (b: bool)
        ensures
            b == (*self != Color::Empty),
    {
        *self != Color::Empty
    }
}

/// A lateral or downward shift command for the active piece.
#[derive(Clone, Copy, Debug, PartialEq, Eq, Structural)]
pub enum Direction {
    Left,
    Right,
    Down,
}

/// The seven tetromino shape kinds.
#[derive(Clone, Copy, Debug, PartialEq, Eq, Structural)]
pub enum Shape {
    I,
    O,
    T,
    S,
    Z,
    J,
    L,
}

/// The active falling piece: four absolute `(row, col)` cells, its shape
/// kind, and its color tag.
#[derive(Clone, Copy)]
pub struct Tetromino {
    pub cells: [(usize, usize); 4],
    pub color: Color,
    pub shape: Shape,
}

/// Where one cell lands after a unit shift in `dir`, in unbounded coordinates.
pub open spec fn shift_target(c: (usize, usize), dir: Direction) -> (int, int) {
    match dir {
        Direction::Left => (c.0 as int, c.1 - 1),
        Direction::Right => (c.0 as int, c.1 + 1),
        Direction::Down => (c.0 + 1, c.1 as int),
    }
}

/// One cell `c` rotated a quarter turn about the pivot cell `p`, in
/// unbounded coordinates: `(row, col)` maps to
/// `(p_row + (col - p_col), p_col - (row - p_row))`.
pub open spec fn rotated_cell(p: (usize, usize), c: (usize, usize)) -> (int, int) {
    (p.0 + c.1 - p.1, p.1 + p.0 - c.0)
}

/// Whether an unbounded coordinate pair fits the unsigned cell representation.
pub open spec fn cell_representable(rc: (int, int)) -> bool {
    rc.0 >= 0 && rc.1 >= 0
}

/// An unbounded coordinate pair read back as an unsigned cell.
pub open spec fn as_cell(rc: (int, int)) -> (usize, usize) {
    (rc.0 as usize, rc.1 as usize)
}

/// The cell set a piece aims for when it turns: unchanged for the square,
/// else every cell rotated a quarter turn about the piece's pivot cell
/// (its second cell).
pub open spec fn turn_target(t: Tetromino) -> Seq<(int, int)> {
    if t.shape == Shape::O {
        Seq::new(4, |i: int| (t.cells@[i].0 as int, t.cells@[i].1 as int))
    } else {
        Seq::new(4, |i: int| rotated_cell(t.cells@[1], t.cells@[i]))
    }
}

/// The color tag each shape kind falls with.
pub open spec fn color_of(shape: Shape) -> Color {
    match shape {
        Shape::I => Color::Cyan,
        Shape::O => Color::Yellow,
        Shape::T => Color::Magenta,
        Shape::S => Color::Green,
        Shape::Z => Color::Red,
        Shape::J => Color::Blue,
        Shape::L => Color::White,
    }
}

/// The canonical spawn layout of a shape on a grid `width` columns wide:
/// four cells in the top two rows around the middle column, the second
/// cell being the rotation pivot.
pub open spec fn spawn_cells(shape: Shape, width: usize) -> Seq<(usize, usize)> {
    let m = width as int / 2;
    match shape {
        Shape::I => seq![
            (0usize, (m - 2) as usize),
            (0usize, (m - 1) as usize),
            (0usize, m as usize),
            (0usize, (m + 1) as usize),
        ],
        Shape::O => seq![
            (0usize, (m - 1) as usize),
            (0usize, m as usize),
            (1usize, (m - 1) as usize),
            (1usize, m as usize),
        ],
        Shape::T => seq![
            (0usize, (m - 2) as usize),
            (0usize, (m - 1) as usize),
            (0usize, m as usize),
            (1usize, (m - 1) as usize),
        ],
        Shape::S => seq![
            (1usize, (m - 2) as usize),
            (1usize, (m - 1) as usize),
            (0usize, (m - 1) as usize),
            (0usize, m as usize),
        ],
        Shape::Z => seq![
            (0usize, (m - 2) as usize),
            (0usize, (m - 1) as usize),
            (1usize, (m - 1) as usize),
            (1usize, m as usize),
        ],
        Shape::J => seq![
            (0usize, (m - 2) as usize),
            (0usize, (m - 1) as usize),
            (0usize, m as usize),
            (1usize, m as usize),
        ],
        Shape::L => seq![
            (0usize, (m - 2) as usize),
            (0usize, (m - 1) as usize),
            (0usize, m as usize),
            (1usize, (m - 2) as usize),
        ],
    }
}

/// Rotates one cell about the pivot, or reports that the rotated cell
/// would leave the unsigned coordinate range.
fn rotate_one(p: (usize, usize), c: (usize, usize)) -> (r: Option<(usize, usize)>)
    requires
        p.0 < 0x10000,
        p.1 < 0x10000,
        c.0 < 0x10000,
        c.1 < 0x10000,
    ensures
        cell_representable(rotated_cell(p, c)) ==> r == Some(as_cell(rotated_cell(p, c))),
        !cell_representable(rotated_cell(p, c)) ==> r == None::<(usize, usize)>,
{
    let rs: usize = p.0 + c.1;
    let cs: usize = p.1 + p.0;
    if rs >= p.1 && cs >= c.0 {
        Some((rs - p.1, cs - c.0))
    } else {
        None
    }
}

impl Tetromino {
    /// Places a new piece of the given shape in its canonical spawn layout
    /// on a grid `width` columns wide.
    pub fn spawn(shape: Shape, width: usize) -> (t: Tetromino)
        requires
            4 <= width <= 0x10000,
        ensures
            t.cells@ == spawn_cells(shape, width),
            t.color == color_of(shape),
            t.shape == shape,
            forall|i: int| 0 <= i < 4 ==> (#[trigger] t.cells@[i]).0 <= 1 && t.cells@[i].1 < width,
            forall|i: int, j: int| 0 <= i < j < 4 ==> t.cells@[i] != t.cells@[j],
    {
        let m = width / 2;
        let cells: [(usize, usize); 4] = match shape {
            Shape::I => [(0, m - 2), (0, m - 1), (0, m), (0, m + 1)],
            Shape::O => [(0, m - 1), (0, m), (1, m - 1), (1, m)],
            Shape::T => [(0, m - 2), (0, m - 1), (0, m), (1, m - 1)],
            Shape::S => [(1, m - 2), (1, m - 1), (0, m - 1), (0, m)],
            Shape::Z => [(0, m - 2), (0, m - 1), (1, m - 1), (1, m)],
            Shape::J => [(0, m - 2), (0, m - 1), (0, m), (1, m)],
            Shape::L => [(0, m - 2), (0, m - 1), (0, m), (1, m - 2)],
        };
        let color = match shape {
            Shape::I => Color::Cyan,
            Shape::O => Color::Yellow,
            Shape::T => Color::Magenta,
            Shape::S => Color::Green,
            Shape::Z => Color::Red,
            Shape::J => Color::Blue,
            Shape::L => Color::White,
        };
        proof {
            assert(m == width as int / 2);
            assert(2 <= m < width);
            assert(cells@ =~= spawn_cells(shape, width));
        }
        Tetromino { cells, color, shape }
    }

    /// Translates every cell one unit in `dir`. The caller is responsible
    /// for collision checks; this requires only that the move stays in the
    /// unsigned coordinate range.
    pub fn shift(&mut self, dir: Direction)
        requires
            forall|i: int|
                0 <= i < 4 ==> cell_representable(
                    shift_target(#[trigger] old(self).cells@[i], dir),
                ),
            forall|i: int|
                0 <= i < 4 ==> (#[trigger] old(self).cells@[i]).0 < usize::MAX && old(
                    self,
                ).cells@[i].1 < usize::MAX,
        ensures
            final(self).color == old(self).color,
            final(self).shape == old(self).shape,
            forall|i: int|
                0 <= i < 4 ==> #[trigger] final(self).cells@[i] == as_cell(
                    shift_target(old(self).cells@[i], dir),
                ),
    {
        let c0 = self.cells[0];
        let c1 = self.cells[1];
        let c2 = self.cells[2];
        let c3 = self.cells[3];
        self.cells = match dir {
            Direction::Left => [
                (c0.0, c0.1 - 1),
                (c1.0, c1.1 - 1),
                (c2.0, c2.1 - 1),
                (c3.0, c3.1 - 1),
            ],
            Direction::Right => [
                (c0.0, c0.1 + 1),
                (c1.0, c1.1 + 1),
                (c2.0, c2.1 + 1),
                (c3.0, c3.1 + 1),
            ],
            Direction::Down => [
                (c0.0 + 1, c0.1),
                (c1.0 + 1, c1.1),
                (c2.0 + 1, c2.1),
                (c3.0 + 1, c3.1),
            ],
        };
    }

    /// Speculatively rotates the piece a quarter turn about its pivot cell.
    /// Commits the rotated cells and returns true when every rotated
    /// coordinate is representable; otherwise leaves the cells unchanged
    /// and returns false. The square shape turns in place. The caller still
    /// validates grid bounds and occupancy.
    pub fn turn(&mut self) -> (ok: bool)
        requires
            forall|i: int|
                0 <= i < 4 ==> (#[trigger] old(self).cells@[i]).0 < 0x10000 && old(
                    self,
                ).cells@[i].1 < 0x10000,
        ensures
            final(self).color == old(self).color,
            final(self).shape == old(self).shape,
            ok == (forall|i: int|
                0 <= i < 4 ==> cell_representable(#[trigger] turn_target(*old(self))[i])),
            ok ==> forall|i: int|
                0 <= i < 4 ==> #[trigger] final(self).cells@[i] == as_cell(
                    turn_target(*old(self))[i],
                ),
            !ok ==> final(self).cells@ == old(self).cells@,
    {
        match self.shape {
            Shape::O => {
                proof {
                    assert forall|i: int| 0 <= i < 4 implies cell_representable(
                        #[trigger] turn_target(*old(self))[i],
                    ) by {
                        assert(turn_target(*old(self))[i] == (
                            old(self).cells@[i].0 as int,
                            old(self).cells@[i].1 as int,
                        ));
                    }
                    assert forall|i: int| 0 <= i < 4 implies #[trigger] self.cells@[i] == as_cell(
                        turn_target(*old(self))[i],
                    ) by {
                        assert(turn_target(*old(self))[i] == (
                            old(self).cells@[i].0 as int,
                            old(self).cells@[i].1 as int,
                        ));
                    }
                }
                true
            },
            _ => {
                let p = self.cells[1];
                proof {
                    assert forall|i: int| 0 <= i < 4 implies #[trigger] turn_target(*old(self))[i]
                        == rotated_cell(old(self).cells@[1], old(self).cells@[i]) by {}
                }
                let r0 = rotate_one(p, self.cells[0]);
                let r1 = rotate_one(p, self.cells[1]);
                let r2 = rotate_one(p, self.cells[2]);
                let r3 = rotate_one(p, self.cells[3]);
                match (r0, r1, r2, r3) {
                    (Some(n0), Some(n1), Some(n2), Some(n3)) => {
                        self.cells = [n0, n1, n2, n3];
                        true
                    },
                    _ => {
                        proof {
                            if r0 is None {
                                assert(!cell_representable(turn_target(*old(self))[0]));
                            } else if r1 is None {
                                assert(!cell_representable(turn_target(*old(self))[1]));
                            } else if r2 is None {
                                assert(!cell_representable(turn_target(*old(self))[2]));
                            } else {
                                assert(!cell_representable(turn_target(*old(self))[3]));
                            }
                        }
                        false
                    },
                }
            },
        }
    }
}

} // verus!
