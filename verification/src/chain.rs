//! The snake itself: a head followed by body segments, each of which
//! follows the segment just ahead of it in the list.

use vstd::prelude::*;
use crate::cell::{cell_positions, fits, Body, Cell, Head};
use crate::direction::Direction;
use crate::grid::as_position;

verus! {

/// What a chain is, apart from how it is stored: the facing of the head
/// and the positions of all segments, head first, tail last. The segment
/// at index `i > 0` follows the one at index `i - 1`.
pub struct ChainView {
    pub direction: Direction,
    pub cells: Seq<(int, int)>,
}

impl ChainView {
    /// The position of the head.
    pub open spec fn head(self) -> (int, int) {
        self.cells[0]
    }

    /// The positions of the body segments, nearest to the head first.
    pub open spec fn body(self) -> Seq<(int, int)> {
        self.cells.skip(1)
    }

    /// The position of the segment that segment `i` follows: the one just
    /// ahead of it in the list. The head, at index 0, follows nothing.
    pub open spec fn leader(self, i: int) -> (int, int)
        recommends
            0 < i < self.cells.len(),
    {
        self.cells[i - 1]
    }

    /// The chain one tick later. The head turns to the pending request
    /// unless that is a reversal, then moves one cell. The old chain follows
    /// behind it: whole if the chain grows, without its tail otherwise.
    pub open spec fn advanced(self, pending: Option<Direction>, grow: bool) -> ChainView {
        let direction = self.direction.turned(pending);
        let followers = if grow {
            self.cells
        } else {
            self.cells.drop_last()
        };
        ChainView { direction, cells: seq![direction.step_from(self.head())] + followers }
    }

    /// No two segments stand on the same position.
    pub open spec fn apart(self) -> bool {
        self.cells.no_duplicates()
    }
}

/// The snake: its head and, in head-to-tail order, its body segments.
#[derive(Debug)]
pub struct Chain {
    pub head: Cell<Head>,
    pub body: Vec<Cell<Body>>,
}

impl View for Chain {
    type V = ChainView;

    open spec fn view(&self) -> ChainView {
        ChainView {
            direction: self.head.direction(),
            cells: seq![self.head.pos()] + cell_positions(self.body@),
        }
    }
}

impl Chain {
    /// A head at `(col, row)` facing `direction`, with one body segment on
    /// the cell directly behind it.
    pub fn new(col: i32, row: i32, direction: Direction) -> (chain: Self)
        requires
            fits(direction.reverse().step_from((col as int, row as int))),
        ensures
            chain@.direction == direction,
            chain@.cells == seq![
                (col as int, row as int),
                direction.reverse().step_from((col as int, row as int)),
            ],
    {
        let behind = match direction {
            Direction::Up => Cell::new(col, row - 1, Body),
            Direction::Left => Cell::new(col + 1, row, Body),
            Direction::Down => Cell::new(col, row + 1, Body),
            Direction::Right => Cell::new(col - 1, row, Body),
        };
        let mut body: Vec<Cell<Body>> = Vec::new();
        body.push(behind);
        let chain = Chain { head: Cell::new(col, row, Head(direction)), body };
        proof {
            assert(chain@.cells =~= seq![
                (col as int, row as int),
                direction.reverse().step_from((col as int, row as int)),
            ]);
        }
        chain
    }

    /// Whether some segment, head or body, stands on `(col, row)`.
    pub fn occupies(&self, col: i32, row: i32) -> (taken: bool)
        ensures
            taken == self@.cells.contains((col as int, row as int)),
    {
        let ghost target = (col as int, row as int);
        if self.head.col == col && self.head.row == row {
            proof {
                assert(self@.cells[0] == target);
            }
            return true;
        }
        let mut i: usize = 0;
        while i < self.body.len()
            invariant
                i <= self.body.len(),
                target == (col as int, row as int),
                forall|j: int| 0 <= j < i ==> (#[trigger] self.body[j]).pos() != target,
            decreases self.body.len() - i,
        {
            if self.body[i].col == col && self.body[i].row == row {
                proof {
                    assert(self@.cells[i + 1] == target);
                }
                return true;
            }
            i += 1;
        }
        proof {
            assert forall|k: int| 0 <= k < self@.cells.len() implies self@.cells[k] != target by {
                if k > 0 {
                    assert(self@.cells[k] == self.body[k - 1].pos());
                }
            }
        }
        false
    }

    /// One tick of movement. The head takes the pending turn unless it is a
    /// reversal and moves one cell; then one sweep from the head towards the
    /// tail hands every body segment the position its leader has just left.
    /// With `grow` a new tail segment appears where the old tail stood.
    /// Hands back the new position of the head.
    pub fn advance(&mut self, pending: Option<Direction>, grow: bool) -> (head: (i32, i32))
        requires
            fits(old(self)@.advanced(pending, grow).head()),
        ensures
            final(self)@ == old(self)@.advanced(pending, grow),
            as_position(head) == final(self)@.head(),
    {
        let ghost before = self@.cells;
        let ghost trail = self.body@;
        let mut col: i32 = self.head.col;
        let mut row: i32 = self.head.row;
        if let Some(direction) = pending {
            self.head.change_direction(direction);
        }
        self.head.move_forward();
        let mut i: usize = 0;
        while i < self.body.len()
            invariant
                i <= self.body.len(),
                self.body.len() == trail.len(),
                before.len() == trail.len() + 1,
                forall|j: int| 0 <= j < trail.len() ==> before[j + 1] == (#[trigger] trail[j]).pos(),
                self.head.direction() == old(self)@.direction.turned(pending),
                self.head.pos() == self.head.direction().step_from(before[0]),
                (col as int, row as int) == before[i as int],
                forall|j: int| 0 <= j < i ==> (#[trigger] self.body[j]).pos() == before[j],
                forall|j: int| i <= j < trail.len() ==> #[trigger] self.body[j] == trail[j],
            decreases self.body.len() - i,
        {
            let c: i32 = self.body[i].col;
            let r: i32 = self.body[i].row;
            self.body[i] = Cell::new(col, row, Body);
            col = c;
            row = r;
            i += 1;
        }
        if grow {
            self.body.push(Cell::new(col, row, Body));
        }
        proof {
            assert(self@.cells =~= old(self)@.advanced(pending, grow).cells);
        }
        (self.head.col, self.head.row)
    }
}

/// With no turn pending and no growth owed, a tick translates the chain
/// rigidly: the head moves by the unit step of its facing, which it keeps,
/// and every body segment lands where its leader stood before the tick.
pub proof fn lemma_rigid_translation(chain: ChainView)
    requires
        chain.cells.len() >= 1,
    ensures
        chain.advanced(None, false).direction == chain.direction,
        chain.advanced(None, false).cells.len() == chain.cells.len(),
        chain.advanced(None, false).head() == chain.direction.step_from(chain.head()),
        forall|i: int|
            1 <= i < chain.cells.len() ==> #[trigger] chain.advanced(None, false).cells[i]
                == chain.leader(i),
{
}

/// A tick never shortens the chain: it adds one segment if growth was owed
/// and keeps the length otherwise, whatever turn was pending.
pub proof fn lemma_chain_never_shrinks(chain: ChainView, pending: Option<Direction>, grow: bool)
    requires
        chain.cells.len() >= 1,
    ensures
        chain.advanced(pending, grow).cells.len() == chain.cells.len() + if grow {
            1nat
        } else {
            0nat
        },
{
}

/// A request to turn to the exact reversal of the head's facing never
/// changes the facing, whatever the chain and whether or not it grows; the
/// head still moves one cell the way it faced.
pub proof fn lemma_reversal_is_dropped(chain: ChainView, requested: Direction, grow: bool)
    requires
        chain.direction.is_opposite(requested),
    ensures
        chain.advanced(Some(requested), grow).direction == chain.direction,
        chain.advanced(Some(requested), grow).head() == chain.direction.step_from(chain.head()),
        chain.advanced(Some(requested), grow) == chain.advanced(None, grow),
{
}

} // verus!
