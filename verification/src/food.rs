//! Food: where it may appear, how a cell is picked for it, and what
//! happens when the head reaches it.

use vstd::prelude::*;
use crate::cell::{Cell, Food, Head};
use crate::chain::Chain;
use crate::grid::{as_position, row_major_before, Grid};
use crate::pending::Growth;

verus! {

/// How many random cells are tried for a new food before the field is
/// searched cell by cell instead.
pub const MAX_DRAWS: u32 = 1024;

/// Food may appear at `p`: the position is interior to `grid` and no
/// segment of the chain `cells` stands on it.
pub open spec fn free_at(grid: Grid, cells: Seq<(int, int)>, p: (int, int)) -> bool {
    grid.interior_at(p) && !cells.contains(p)
}

/// The chain `cells` leaves no interior position of `grid` free.
pub open spec fn crowded(grid: Grid, cells: Seq<(int, int)>) -> bool {
    forall|p: (int, int)| !#[trigger] free_at(grid, cells, p)
}

/// A free position is on the field, off the wall ring and off the chain.
pub proof fn lemma_free_is_clear(grid: Grid, cells: Seq<(int, int)>, p: (int, int))
    requires
        free_at(grid, cells, p),
    ensures
        grid.contains(p),
        !grid.wall_at(p),
        forall|i: int| 0 <= i < cells.len() ==> cells[i] != p,
{
}

/// Calls `rand::random_range` on the half-open range `low..high`, which
/// draws from the thread-local generator. Believed, not proved: for a
/// non-empty range the call returns, and the value lies in the range. Which
/// value it is differs from call to call, so nothing more is said.
#[verifier::external_body]
fn random_range(low: i32, high: i32) -> (drawn: i32)
    requires
        low < high,
    ensures
        low <= drawn < high,
{
    rand::random_range(low..high)
}

/// Puts the food on `(col, row)` if there is no food yet and the cell is
/// free; otherwise changes nothing. Tells whether it placed the food.
pub fn place_food(
    grid: &Grid,
    chain: &Chain,
    food: &mut Option<Cell<Food>>,
    col: i32,
    row: i32,
) -> (placed: bool)
    ensures
        placed == (*old(food) is None && free_at(*grid, chain@.cells, (col as int, row as int))),
        placed ==> *final(food) == Some(Cell { col, row, value: Food }),
        !placed ==> *final(food) == *old(food),
{
    if food.is_some() || !grid.is_interior(col, row) || chain.occupies(col, row) {
        return false;
    }
    *food = Some(Cell::new(col, row, Food));
    true
}

/// The first free cell of the field in row-major order, or `None` when the
/// chain fills the whole interior.
pub fn first_free_cell(grid: &Grid, chain: &Chain) -> (found: Option<(i32, i32)>)
    ensures
        match found {
            Some(at) => {
                &&& free_at(*grid, chain@.cells, as_position(at))
                &&& forall|p: (int, int)| #[trigger]
                    free_at(*grid, chain@.cells, p) ==> !row_major_before(p, as_position(at))
            },
            None => crowded(*grid, chain@.cells),
        },
{
    if grid.width < 3 || grid.height < 3 {
        return None;
    }
    let mut row: i32 = 1;
    while row + 1 < grid.height
        invariant
            grid.width >= 3,
            1 <= row < grid.height,
            forall|p: (int, int)| #[trigger] free_at(*grid, chain@.cells, p) ==> p.1 >= row,
        decreases grid.height - row,
    {
        let mut col: i32 = 1;
        while col + 1 < grid.width
            invariant
                1 <= row < grid.height - 1,
                1 <= col < grid.width,
                forall|p: (int, int)| #[trigger]
                    free_at(*grid, chain@.cells, p) ==> !row_major_before(
                        p,
                        (col as int, row as int),
                    ),
            decreases grid.width - col,
        {
            if !chain.occupies(col, row) {
                return Some((col, row));
            }
            col += 1;
        }
        row += 1;
    }
    None
}

/// Makes sure that there is food, if the field has room for it. Food that
/// exists stays where it is. Otherwise interior cells are drawn at random,
/// uniformly over the whole interior, until one is free; after `MAX_DRAWS`
/// rejected draws the first free cell in row-major order is taken instead.
/// Only when the chain fills the interior is there no food afterwards.
pub fn create_food_if_not_exist(grid: &Grid, chain: &Chain, food: &mut Option<Cell<Food>>)
    ensures
        *old(food) is Some ==> *final(food) == *old(food),
        *old(food) is None ==> match *final(food) {
            Some(cell) => free_at(*grid, chain@.cells, cell.pos()),
            None => crowded(*grid, chain@.cells),
        },
{
    if food.is_some() {
        return;
    }
    if grid.width >= 3 && grid.height >= 3 {
        let mut draws: u32 = 0;
        while draws < MAX_DRAWS
            invariant
                grid.width >= 3,
                grid.height >= 3,
                *old(food) is None,
                *food is None,
            decreases MAX_DRAWS - draws,
        {
            let col: i32 = random_range(1, grid.width - 1);
            let row: i32 = random_range(1, grid.height - 1);
            if place_food(grid, chain, food, col, row) {
                return;
            }
            draws += 1;
        }
    }
    match first_free_cell(grid, chain) {
        Some(at) => {
            *food = Some(Cell::new(at.0, at.1, Food));
        },
        None => {},
    }
}

/// Eats the food if the head stands on it: the food disappears and one
/// segment of growth is owed to the next movement step. Otherwise nothing
/// changes. Tells whether the food was eaten.
pub fn consume_food(head: &Cell<Head>, food: &mut Option<Cell<Food>>, growth: &mut Growth) -> (eaten:
    bool)
    ensures
        eaten == (*old(food) matches Some(cell) && cell.pos() == head.pos()),
        eaten ==> *final(food) is None && final(growth).0,
        !eaten ==> *final(food) == *old(food) && *final(growth) == *old(growth),
{
    let eaten = match food {
        Some(cell) => head.collision(cell),
        None => false,
    };
    if eaten {
        *food = None;
        growth.replace(true);
    }
    eaten
}

} // verus!
