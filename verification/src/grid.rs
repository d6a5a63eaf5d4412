//! The play-field: a rectangle of cells whose outer ring is wall.

use vstd::prelude::*;
use crate::cell::{cell_positions, Cell, Wall};

verus! {

/// Width of the standard play-field, wall ring included.
pub const WIDTH: i32 = 16;

/// Height of the standard play-field, wall ring included.
pub const HEIGHT: i32 = 16;

/// A play-field of `width` columns and `height` rows, fixed once made.
/// Columns and rows count from zero.
#[derive(Clone, Copy, Debug, PartialEq, Eq, Structural)]
pub struct Grid {
    pub width: i32,
    pub height: i32,
}

/// The order in which a field is walked: row by row, and within a row
/// column by column.
pub open spec fn row_major_before(a: (int, int), b: (int, int)) -> bool {
    a.1 < b.1 || (a.1 == b.1 && a.0 < b.0)
}

/// The position that a pair of machine coordinates stands for.
pub open spec fn as_position(p: (i32, i32)) -> (int, int) {
    (p.0 as int, p.1 as int)
}

/// The positions that a list of coordinate pairs stands for, in its order.
pub open spec fn positions(cells: Seq<(i32, i32)>) -> Seq<(int, int)> {
    cells.map_values(|p: (i32, i32)| as_position(p))
}

impl Grid {
    /// The position lies on the field.
    pub open spec fn contains(self, p: (int, int)) -> bool {
        0 <= p.0 < self.width && 0 <= p.1 < self.height
    }

    /// The position lies on the outer ring of the field.
    pub open spec fn wall_at(self, p: (int, int)) -> bool {
        self.contains(p) && (p.0 == 0 || p.0 == self.width - 1 || p.1 == 0 || p.1 == self.height
            - 1)
    }

    /// The position lies strictly inside the outer ring.
    pub open spec fn interior_at(self, p: (int, int)) -> bool {
        0 < p.0 < self.width - 1 && 0 < p.1 < self.height - 1
    }

    /// The positions that one walk of the field collects: the ring or the
    /// interior.
    pub open spec fn selects(self, ring: bool, p: (int, int)) -> bool {
        if ring {
            self.wall_at(p)
        } else {
            self.interior_at(p)
        }
    }

    /// `cells` lists exactly the positions of the ring, or exactly those of
    /// the interior, each once and in row-major order.
    pub open spec fn enumerates(self, ring: bool, cells: Seq<(int, int)>) -> bool {
        &&& forall|i: int| 0 <= i < cells.len() ==> self.selects(ring, #[trigger] cells[i])
        &&& forall|p: (int, int)| #[trigger] self.selects(ring, p) ==> cells.contains(p)
        &&& forall|i: int, j: int|
            0 <= i < j < cells.len() ==> row_major_before(#[trigger] cells[i], #[trigger] cells[j])
    }

    /// A field of the given size. Any size is a field; one narrower or
    /// lower than three cells has no interior.
    pub fn new(width: i32, height: i32) -> (grid: Self)
        ensures
            grid.width == width,
            grid.height == height,
    {
        Grid { width, height }
    }

    /// Whether `(col, row)` is a wall cell.
    pub fn is_wall(&self, col: i32, row: i32) -> (wall: bool)
        ensures
            wall == self.wall_at((col as int, row as int)),
    {
        0 <= col && col < self.width && 0 <= row && row < self.height && (col == 0 || col
            == self.width - 1 || row == 0 || row == self.height - 1)
    }

    /// Whether `(col, row)` is an interior cell.
    pub fn is_interior(&self, col: i32, row: i32) -> (inside: bool)
        ensures
            inside == self.interior_at((col as int, row as int)),
    {
        0 < col && col < self.width && col + 1 < self.width && 0 < row && row < self.height && row
            + 1 < self.height
    }

    /// Walks the field in row-major order and keeps the ring or the interior.
    fn scan(&self, ring: bool) -> (cells: Vec<(i32, i32)>)
        ensures
            self.enumerates(ring, positions(cells@)),
    {
        let mut cells: Vec<(i32, i32)> = Vec::new();
        let mut row: i32 = 0;
        while row < self.height
            invariant
                0 <= row,
                row <= self.height || self.height < 0,
                forall|i: int|
                    0 <= i < cells.len() ==> self.selects(ring, #[trigger] positions(cells@)[i])
                        && positions(cells@)[i].1 < row,
                forall|p: (int, int)| #[trigger]
                    self.selects(ring, p) && p.1 < row ==> positions(cells@).contains(p),
                forall|i: int, j: int|
                    0 <= i < j < cells.len() ==> row_major_before(
                        #[trigger] positions(cells@)[i],
                        #[trigger] positions(cells@)[j],
                    ),
            decreases self.height - row,
        {
            let mut col: i32 = 0;
            while col < self.width
                invariant
                    0 <= row < self.height,
                    0 <= col,
                    col <= self.width || self.width < 0,
                    forall|i: int|
                        0 <= i < cells.len() ==> self.selects(
                            ring,
                            #[trigger] positions(cells@)[i],
                        ) && row_major_before(positions(cells@)[i], (col as int, row as int)),
                    forall|p: (int, int)| #[trigger]
                        self.selects(ring, p) && row_major_before(p, (col as int, row as int))
                            ==> positions(cells@).contains(p),
                    forall|i: int, j: int|
                        0 <= i < j < cells.len() ==> row_major_before(
                            #[trigger] positions(cells@)[i],
                            #[trigger] positions(cells@)[j],
                        ),
                decreases self.width - col,
            {
                let wanted = if ring {
                    self.is_wall(col, row)
                } else {
                    self.is_interior(col, row)
                };
                if wanted {
                    let ghost before = cells@;
                    cells.push((col, row));
                    proof {
                        let here = (col as int, row as int);
                        assert(positions(cells@) =~= positions(before).push(here));
                        assert forall|p: (int, int)| #[trigger]
                            self.selects(ring, p) && row_major_before(
                                p,
                                (col + 1, row as int),
                            ) implies positions(cells@).contains(p) by {
                            if p == here {
                                assert(positions(cells@)[before.len() as int] == p);
                            } else {
                                let i = choose|i: int|
                                    0 <= i < positions(before).len() && positions(before)[i] == p;
                                assert(positions(cells@)[i] == p);
                            }
                        }
                    }
                }
                col += 1;
            }
            row += 1;
        }
        cells
    }

    /// The wall ring, each of its cells once, in row-major order.
    pub fn walls(&self) -> (ring: Vec<Cell<Wall>>)
        ensures
            self.enumerates(true, cell_positions(ring@)),
    {
        let found = self.scan(true);
        let mut ring: Vec<Cell<Wall>> = Vec::new();
        let mut i: usize = 0;
        while i < found.len()
            invariant
                i <= found.len(),
                ring.len() == i,
                forall|j: int| 0 <= j < i ==> (#[trigger] ring[j]).pos() == as_position(found[j]),
            decreases found.len() - i,
        {
            let at: (i32, i32) = found[i];
            ring.push(Cell::new(at.0, at.1, Wall));
            i += 1;
        }
        proof {
            assert(cell_positions(ring@) =~= positions(found@));
        }
        ring
    }

    /// The interior positions, each once, in row-major order.
    pub fn interior(&self) -> (inside: Vec<(i32, i32)>)
        ensures
            self.enumerates(false, positions(inside@)),
    {
        self.scan(false)
    }
}

} // verus!
