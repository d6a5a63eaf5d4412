//! Grid cells and the kinds of thing that can stand on one.

use vstd::prelude::*;
use crate::direction::Direction;

verus! {

/// Kind tag of a cell on the outer ring.
#[derive(Clone, Copy, Debug)]
pub struct Wall;

/// Kind tag of the cell that holds the food.
#[derive(Clone, Copy, Debug)]
pub struct Food;

/// Kind tag of the leading segment, which alone carries a facing.
#[derive(Clone, Copy, Debug)]
pub struct Head(pub Direction);

/// Kind tag of a segment that follows another.
#[derive(Clone, Copy, Debug)]
pub struct Body;

/// Both coordinates of the position can be stored in a cell.
pub open spec fn fits(p: (int, int)) -> bool {
    i32::MIN <= p.0 <= i32::MAX && i32::MIN <= p.1 <= i32::MAX
}

/// A grid position together with the kind of thing that stands there.
#[derive(Debug)]
pub struct Cell<T> {
    pub col: i32,
    pub row: i32,
    pub value: T,
}

impl<T> Cell<T> {
    /// The position as `(column, row)`.
    pub open spec fn pos(self) -> (int, int) {
        (self.col as int, self.row as int)
    }

    /// A cell of kind `t` at `(col, row)`.
    pub fn new(col: i32, row: i32, t: T) -> (cell: Self)
        ensures
            cell.col == col,
            cell.row == row,
            cell.value == t,
    {
        Self { col, row, value: t }
    }

    /// Whether the two cells stand on the same position, whatever their kinds.
    pub fn collision<S>(&self, rhs: &Cell<S>) -> (hit: bool)
        ensures
            hit == (self.pos() == rhs.pos()),
    {
        self.col == rhs.col && self.row == rhs.row
    }
}

/// The positions of a list of cells, in its order.
pub open spec fn cell_positions<T>(cells: Seq<Cell<T>>) -> Seq<(int, int)> {
    Seq::new(cells.len(), |i: int| cells[i].pos())
}

impl Cell<Head> {
    /// The facing of the head.
    pub open spec fn direction(self) -> Direction {
        self.value.0
    }

    /// Moves the head exactly one cell in its facing: up and down change the
    /// row, left and right the column.
    pub fn move_forward(&mut self)
        requires
            fits(old(self).direction().step_from(old(self).pos())),
        ensures
            final(self).pos() == old(self).direction().step_from(old(self).pos()),
            final(self).direction() == old(self).direction(),
    {
        match self.value.0 {
            Direction::Up => {
                self.row += 1;
            },
            Direction::Left => {
                self.col -= 1;
            },
            Direction::Down => {
                self.row -= 1;
            },
            Direction::Right => {
                self.col += 1;
            },
        }
    }

    /// Turns the head to `direction` unless that is the exact reversal of
    /// its facing, in which case the request is dropped.
    pub fn change_direction(&mut self, direction: Direction)
        ensures
            final(self).direction() == old(self).direction().turned(Some(direction)),
            final(self).pos() == old(self).pos(),
    {
        if !self.value.0.opposite(direction) {
            self.value.0 = direction;
        }
    }
}

} // verus!
