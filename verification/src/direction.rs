//! The four facings of the head and the arbitration of a requested turn.

use vstd::prelude::*;

verus! {

/// A facing on the grid. Rows grow upwards, columns grow to the right.
#[derive(Clone, Copy, Debug, PartialEq, Eq, Structural)]
pub enum Direction {
    Up,
    Left,
    Down,
    Right,
}

impl Direction {
    /// The facing that points the other way.
    pub open spec fn reverse(self) -> Direction {
        match self {
            Direction::Up => Direction::Down,
            Direction::Left => Direction::Right,
            Direction::Down => Direction::Up,
            Direction::Right => Direction::Left,
        }
    }

    /// `rhs` is the exact reversal of `self`.
    pub open spec fn is_opposite(self, rhs: Direction) -> bool {
        rhs == self.reverse()
    }

    /// The unit step of this facing as `(column, row)` offsets.
    pub open spec fn delta(self) -> (int, int) {
        match self {
            Direction::Up => (0, 1),
            Direction::Left => (-1, 0),
            Direction::Down => (0, -1),
            Direction::Right => (1, 0),
        }
    }

    /// The cell one unit step from `from` in this facing.
    pub open spec fn step_from(self, from: (int, int)) -> (int, int) {
        (from.0 + self.delta().0, from.1 + self.delta().1)
    }

    /// The facing after a tick that found `pending` queued: the request is
    /// taken unless it is absent or an exact reversal.
    pub open spec fn turned(self, pending: Option<Direction>) -> Direction {
        match pending {
            Some(requested) if !self.is_opposite(requested) => requested,
            _ => self,
        }
    }

    /// Whether `rhs` points exactly the other way.
    pub fn opposite(self, rhs: Self) -> (r: bool)
        ensures
            r == self.is_opposite(rhs),
    {
        match (self, rhs) {
            (Direction::Up, Direction::Down) => true,
            (Direction::Left, Direction::Right) => true,
            (Direction::Down, Direction::Up) => true,
            (Direction::Right, Direction::Left) => true,
            _ => false,
        }
    }

    /// The facing requested by the four arrow keys. When several are held
    /// the first of left, up, down, right wins; with none there is no request.
    pub fn from_arrows(left: bool, up: bool, down: bool, right: bool) -> (r: Option<Direction>)
        ensures
            r == if left {
                Some(Direction::Left)
            } else if up {
                Some(Direction::Up)
            } else if down {
                Some(Direction::Down)
            } else if right {
                Some(Direction::Right)
            } else {
                None
            },
    {
        if left {
            Some(Direction::Left)
        } else if up {
            Some(Direction::Up)
        } else if down {
            Some(Direction::Down)
        } else if right {
            Some(Direction::Right)
        } else {
            None
        }
    }
}

} // verus!
