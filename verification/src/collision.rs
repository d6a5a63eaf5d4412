//! The test that ends the game: the head on a wall or on its own body.

use vstd::prelude::*;
use crate::chain::Chain;
use crate::grid::Grid;

verus! {

/// What a tick reports to whoever schedules the next one.
#[derive(Clone, Copy, Debug, PartialEq, Eq, Structural)]
pub enum Outcome {
    /// The game goes on.
    Continue,
    /// The head has run into something: the game is over. This is the
    /// regular end of a game, not a fault.
    Terminal,
}

/// The head of the chain `cells` stands on a wall of `grid` or on one of
/// the chain's own body segments.
pub open spec fn collides(grid: Grid, cells: Seq<(int, int)>) -> bool {
    grid.wall_at(cells[0]) || cells.skip(1).contains(cells[0])
}

/// Tests the head against the wall ring and against every body segment.
/// It is meant to run once the chain has moved as a whole, on the positions
/// that all segments hold after the move.
pub fn check_collision(chain: &Chain, grid: &Grid) -> (outcome: Outcome)
    ensures
        outcome is Terminal <==> collides(*grid, chain@.cells),
{
    let ghost head = chain@.cells[0];
    let ghost body = chain@.cells.skip(1);
    let mut colli_body = false;
    let mut i: usize = 0;
    while i < chain.body.len()
        invariant
            i <= chain.body.len(),
            head == chain.head.pos(),
            colli_body <==> exists|j: int| 0 <= j < i && (#[trigger] chain.body[j]).pos() == head,
        decreases chain.body.len() - i,
    {
        if chain.head.collision(&chain.body[i]) {
            colli_body = true;
        }
        i += 1;
    }
    proof {
        assert(body.len() == chain.body.len());
        assert(forall|j: int| 0 <= j < body.len() ==> body[j] == (#[trigger] chain.body[j]).pos());
        if colli_body {
            let j = choose|j: int| 0 <= j < i && (#[trigger] chain.body[j]).pos() == head;
            assert(body[j] == head);
        }
        if body.contains(head) {
            let j = choose|j: int| 0 <= j < body.len() && body[j] == head;
            assert(chain.body[j].pos() == head);
        }
    }
    let colli_wall = grid.is_wall(chain.head.col, chain.head.row);
    if colli_body || colli_wall {
        Outcome::Terminal
    } else {
        Outcome::Continue
    }
}

} // verus!
