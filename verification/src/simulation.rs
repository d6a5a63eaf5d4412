//! The whole game as one owned state and the tick that advances it.
//!
//! A tick runs, in this order and as one step: take the pending turn, move
//! the chain, apply owed growth, test for a collision, make sure there is
//! food, let the head eat. Between ticks only a turn can be requested.

use vstd::prelude::*;
use crate::cell::{fits, Cell, Food};
use crate::chain::{Chain, ChainView};
use crate::collision::{check_collision, collides, Outcome};
use crate::direction::Direction;
use crate::food::{consume_food, create_food_if_not_exist, crowded, free_at};
use crate::grid::{as_position, Grid};
use crate::pending::{Growth, NextDirection};

verus! {

/// What a game is, apart from how it is stored.
pub struct SimulationView {
    /// The play-field.
    pub grid: Grid,
    /// The snake.
    pub chain: ChainView,
    /// Where the food lies, if there is food.
    pub food: Option<(int, int)>,
    /// The chain owes one segment of growth to the next tick.
    pub growth: bool,
    /// The turn requested since the last tick.
    pub pending: Option<Direction>,
    /// A collision has ended the game.
    pub over: bool,
}

impl SimulationView {
    /// What holds between the ticks of a running game: the chain has a head
    /// and at least one body segment, all of them on interior cells and no
    /// two on the same one; food, if there is any, lies on a free interior
    /// cell; and while growth is owed the food that paid for it is gone.
    pub open spec fn sound(self) -> bool {
        &&& self.chain.cells.len() >= 2
        &&& forall|i: int|
            0 <= i < self.chain.cells.len() ==> self.grid.interior_at(#[trigger] self.chain.cells[i])
        &&& self.chain.apart()
        &&& self.food matches Some(at) ==> free_at(self.grid, self.chain.cells, at)
        &&& self.growth ==> self.food is None
    }

    /// A game is either over or sound.
    pub open spec fn wf(self) -> bool {
        self.over || self.sound()
    }

    /// The chain as the next tick will leave it.
    pub open spec fn moved(self) -> ChainView {
        self.chain.advanced(self.pending, self.growth)
    }

    /// The next tick eats: the game is running and the food lies where the
    /// head arrives.
    pub open spec fn eats(self) -> bool {
        !self.over && self.food == Some(self.moved().head())
    }

    /// `next` and `outcome` are a possible result of one tick from `self`.
    ///
    /// A game that is over stays as it is. Otherwise the pending turn is
    /// used up and the chain moves, growing if growth was owed; the game is
    /// over from now on exactly if the moved head stands on a wall or on a
    /// moved body segment; food on the head's new cell is eaten, which owes
    /// growth to the tick after this one; other food stays; and if there
    /// was no food, new food lies on some free interior cell, or nowhere if
    /// the moved chain leaves none free. Only the choice of that cell is
    /// left open.
    pub open spec fn ticks_to(self, next: SimulationView, outcome: Outcome) -> bool {
        if self.over {
            next == self && outcome is Terminal
        } else {
            &&& next.grid == self.grid
            &&& next.chain == self.moved()
            &&& next.pending is None
            &&& next.over == collides(self.grid, self.moved().cells)
            &&& outcome is Terminal <==> next.over
            &&& next.growth == self.eats()
            &&& match self.food {
                Some(_) => next.food == if self.eats() {
                    None
                } else {
                    self.food
                },
                None => match next.food {
                    Some(at) => free_at(self.grid, self.moved().cells, at),
                    None => crowded(self.grid, self.moved().cells),
                },
            }
        }
    }
}

/// The position of the food, if there is food.
pub open spec fn food_position(food: Option<Cell<Food>>) -> Option<(int, int)> {
    match food {
        Some(cell) => Some(cell.pos()),
        None => None,
    }
}

/// The movement step of a tick: empties the turn queue and the growth flag
/// and advances the chain by what they held.
pub fn move_snake(chain: &mut Chain, direction_change: &mut NextDirection, growth: &mut Growth)
    requires
        fits(old(chain)@.advanced(old(direction_change).0, old(growth).0).head()),
    ensures
        final(chain)@ == old(chain)@.advanced(old(direction_change).0, old(growth).0),
        final(direction_change).0 is None,
        !final(growth).0,
{
    let pending = direction_change.take();
    let grow = growth.replace(false);
    chain.advance(pending, grow);
}

/// A game: the field, the snake, the food and the two one-slot queues.
#[derive(Debug)]
pub struct Simulation {
    grid: Grid,
    chain: Chain,
    food: Option<Cell<Food>>,
    growth: Growth,
    next_direction: NextDirection,
    over: bool,
}

impl View for Simulation {
    type V = SimulationView;

    closed spec fn view(&self) -> SimulationView {
        SimulationView {
            grid: self.grid,
            chain: self.chain@,
            food: food_position(self.food),
            growth: self.growth.0,
            pending: self.next_direction.0,
            over: self.over,
        }
    }
}

impl Simulation {
    /// The game is over or its state is sound.
    pub open spec fn wf(&self) -> bool {
        self@.wf()
    }

    /// A game on `grid` whose head stands on `(col, row)` facing
    /// `direction`, with one body segment directly behind it and with food
    /// on `food`, if a cell is given. There is no game unless head and body
    /// stand on interior cells and the food on a free one.
    pub fn new(grid: Grid, col: i32, row: i32, direction: Direction, food: Option<(i32, i32)>) -> (game:
        Option<Self>)
        ensures
            game is Some <==> {
                let head = (col as int, row as int);
                let behind = direction.reverse().step_from(head);
                &&& grid.interior_at(head)
                &&& grid.interior_at(behind)
                &&& food matches Some(at) ==> free_at(grid, seq![head, behind], as_position(at))
            },
            game matches Some(game) ==> game.wf() && game@ == (SimulationView {
                grid,
                chain: ChainView {
                    direction,
                    cells: seq![
                        (col as int, row as int),
                        direction.reverse().step_from((col as int, row as int)),
                    ],
                },
                food: match food {
                    Some(at) => Some(as_position(at)),
                    None => None,
                },
                growth: false,
                pending: None,
                over: false,
            }),
    {
        if !grid.is_interior(col, row) {
            return None;
        }
        let chain = Chain::new(col, row, direction);
        if !grid.is_interior(chain.body[0].col, chain.body[0].row) {
            return None;
        }
        let mut stocked: Option<Cell<Food>> = None;
        if let Some(at) = food {
            if !grid.is_interior(at.0, at.1) || chain.occupies(at.0, at.1) {
                return None;
            }
            stocked = Some(Cell::new(at.0, at.1, Food));
        }
        let game = Simulation {
            grid,
            chain,
            food: stocked,
            growth: Growth(false),
            next_direction: NextDirection(None),
            over: false,
        };
        proof {
            assert(game@.chain.cells[0] != game@.chain.cells[1]);
        }
        Some(game)
    }

    /// The standard start on `grid`: the head a quarter of the way across
    /// and half-way up, facing right, one body segment to its left, no food
    /// yet. There is no game on a field too small for that.
    pub fn setup(grid: Grid) -> (game: Option<Self>)
        ensures
            game is Some <==> grid.width >= 8 && grid.height >= 3,
            game matches Some(game) ==> game.wf() && game@ == (SimulationView {
                grid,
                chain: ChainView {
                    direction: Direction::Right,
                    cells: seq![
                        (grid.width / 4, grid.height / 2),
                        (grid.width / 4 - 1, grid.height / 2),
                    ],
                },
                food: None,
                growth: false,
                pending: None,
                over: false,
            }),
    {
        if grid.width < 8 || grid.height < 3 {
            return None;
        }
        Simulation::new(grid, grid.width / 4, grid.height / 2, Direction::Right, None)
    }

    /// The play-field.
    pub fn grid(&self) -> (grid: &Grid)
        ensures
            *grid == self@.grid,
    {
        &self.grid
    }

    /// The snake.
    pub fn chain(&self) -> (chain: &Chain)
        ensures
            chain@ == self@.chain,
    {
        &self.chain
    }

    /// The food, if there is food.
    pub fn food(&self) -> (food: &Option<Cell<Food>>)
        ensures
            food_position(*food) == self@.food,
    {
        &self.food
    }

    /// Whether the chain owes growth to the next tick.
    pub fn growth(&self) -> (owed: bool)
        ensures
            owed == self@.growth,
    {
        self.growth.0
    }

    /// The turn requested since the last tick.
    pub fn next_direction(&self) -> (pending: Option<Direction>)
        ensures
            pending == self@.pending,
    {
        self.next_direction.0
    }

    /// Whether a collision has ended the game.
    pub fn is_over(&self) -> (over: bool)
        ensures
            over == self@.over,
    {
        self.over
    }

    /// Requests a turn. Only the queue changes: the latest request before a
    /// tick is the one that the tick sees.
    pub fn enqueue(&mut self, direction: Direction)
        ensures
            final(self)@ == (SimulationView { pending: Some(direction), ..old(self)@ }),
            final(self).wf() == old(self).wf(),
    {
        self.next_direction.enqueue(direction);
    }

    /// One tick: takes the pending turn, moves the chain and lets it grow
    /// if growth is owed, tests for a collision, makes sure there is food,
    /// and lets the head eat. A game that is over is left as it is.
    pub fn tick(&mut self) -> (outcome: Outcome)
        requires
            old(self).wf(),
        ensures
            final(self).wf(),
            old(self)@.ticks_to(final(self)@, outcome),
    {
        if self.over {
            return Outcome::Terminal;
        }
        proof {
            assert(self.grid.interior_at(self@.chain.cells[0]));
        }
        move_snake(&mut self.chain, &mut self.next_direction, &mut self.growth);
        let outcome = check_collision(&self.chain, &self.grid);
        create_food_if_not_exist(&self.grid, &self.chain, &mut self.food);
        consume_food(&self.chain.head, &mut self.food, &mut self.growth);
        if let Outcome::Terminal = outcome {
            self.over = true;
        }
        proof {
            assert(old(self)@.ticks_to(self@, outcome));
            lemma_tick_keeps_wf(old(self)@, self@, outcome);
        }
        outcome
    }

    /// What the scheduler calls whenever it has looked at its timer: a tick
    /// if the interval has just run out, nothing otherwise.
    pub fn update(&mut self, just_finished: bool) -> (outcome: Outcome)
        requires
            old(self).wf(),
        ensures
            final(self).wf(),
            just_finished ==> old(self)@.ticks_to(final(self)@, outcome),
            !just_finished ==> final(self)@ == old(self)@ && (outcome is Terminal <==> old(
                self,
            )@.over),
    {
        if just_finished {
            self.tick()
        } else if self.over {
            Outcome::Terminal
        } else {
            Outcome::Continue
        }
    }
}

/// A tick leaves a well-formed game well-formed.
pub proof fn lemma_tick_keeps_wf(before: SimulationView, after: SimulationView, outcome: Outcome)
    requires
        before.wf(),
        before.ticks_to(after, outcome),
    ensures
        after.wf(),
{
    if !before.over && !after.over {
        let old_cells = before.chain.cells;
        let cells = after.chain.cells;
        let head = cells[0];
        assert(before.grid.interior_at(old_cells[0]));
        assert(cells.skip(1) =~= if before.growth {
            old_cells
        } else {
            old_cells.drop_last()
        });
        assert forall|i: int| 0 <= i < cells.len() implies after.grid.interior_at(
            #[trigger] cells[i],
        ) by {
            if i > 0 {
                assert(cells[i] == old_cells[i - 1]);
            }
        }
        assert forall|i: int, j: int| 0 <= i < j < cells.len() implies cells[i] != cells[j] by {
            if i == 0 {
                assert(cells.skip(1)[j - 1] == cells[j]);
            } else {
                assert(cells[i] == old_cells[i - 1]);
                assert(cells[j] == old_cells[j - 1]);
            }
        }
        if after.food is Some && before.food is Some {
            let at = after.food->0;
            assert forall|i: int| 0 <= i < cells.len() implies cells[i] != at by {
                if i > 0 {
                    assert(cells[i] == old_cells[i - 1]);
                }
            }
        }
    }
}

/// A tick is determined but for the cell on which new food lands: two
/// results of a tick from the same state agree on the outcome, the chain,
/// the queues and on whether there is food, and where the tick found food
/// they are the same state.
pub proof fn lemma_tick_leaves_only_new_food_open(
    before: SimulationView,
    one: SimulationView,
    one_outcome: Outcome,
    other: SimulationView,
    other_outcome: Outcome,
)
    requires
        before.ticks_to(one, one_outcome),
        before.ticks_to(other, other_outcome),
    ensures
        one_outcome == other_outcome,
        one == (SimulationView { food: one.food, ..other }),
        one.food is Some <==> other.food is Some,
        before.over || before.food is Some ==> one == other,
{
}

/// After an admitted tick that lets the game go on, no two segments of
/// the chain, head and body alike, stand on the same position, and none
/// stands on a wall.
pub proof fn lemma_segments_stay_apart(
    before: SimulationView,
    after: SimulationView,
    outcome: Outcome,
)
    requires
        before.wf(),
        before.ticks_to(after, outcome),
        outcome is Continue,
    ensures
        after.chain.apart(),
        forall|i: int|
            0 <= i < after.chain.cells.len() ==> !after.grid.wall_at(#[trigger] after.chain.cells[i]),
{
    lemma_tick_keeps_wf(before, after, outcome);
}

/// Growth lags consumption by exactly one tick. If a tick eats, the chain
/// is as long after it as it was before it, the game goes on, and the tick
/// that follows makes the chain one segment longer.
pub proof fn lemma_growth_lags_consumption(
    before: SimulationView,
    fed: SimulationView,
    grown: SimulationView,
    first: Outcome,
    second: Outcome,
)
    requires
        before.wf(),
        before.eats(),
        before.ticks_to(fed, first),
        fed.ticks_to(grown, second),
    ensures
        first is Continue,
        fed.chain.cells.len() == before.chain.cells.len(),
        grown.chain.cells.len() == fed.chain.cells.len() + 1,
{
    let at = before.food->0;
    let cells = fed.chain.cells;
    assert(cells[0] == at);
    assert(cells.skip(1) =~= before.chain.cells.drop_last());
    assert forall|j: int| 0 <= j < cells.skip(1).len() implies cells.skip(1)[j] != at by {
        assert(cells.skip(1)[j] == before.chain.cells[j]);
    }
}

/// A tick of a running game reports the end exactly if, once the whole
/// chain has moved, the head stands on a wall or on a body segment; and it
/// reports it in that very tick.
pub proof fn lemma_collision_ends_the_tick(
    before: SimulationView,
    after: SimulationView,
    outcome: Outcome,
)
    requires
        !before.over,
        before.ticks_to(after, outcome),
    ensures
        outcome is Terminal <==> after.grid.wall_at(after.chain.head()) || after.chain.body().contains(
            after.chain.head(),
        ),
        after.over <==> outcome is Terminal,
{
}

} // verus!
