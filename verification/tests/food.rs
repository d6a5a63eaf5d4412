use grid_snake::cell::{Body, Cell, Food, Head};
use grid_snake::chain::Chain;
use grid_snake::direction::Direction;
use grid_snake::food::{consume_food, create_food_if_not_exist, first_free_cell, place_food, MAX_DRAWS};
use grid_snake::grid::Grid;
use grid_snake::pending::Growth;

fn chain_of(direction: Direction, head: (i32, i32), body: &[(i32, i32)]) -> Chain {
    Chain {
        head: Cell::new(head.0, head.1, Head(direction)),
        body: body.iter().map(|&(col, row)| Cell::new(col, row, Body)).collect(),
    }
}

fn at(food: &Option<Cell<Food>>) -> Option<(i32, i32)> {
    food.as_ref().map(|cell| (cell.col, cell.row))
}

#[test]
fn the_cap_on_draws_is_positive() {
    assert_eq!(MAX_DRAWS, 1024);
}

#[test]
fn place_food_takes_a_free_interior_cell() {
    let grid = Grid::new(16, 16);
    let chain = Chain::new(4, 8, Direction::Right);
    let mut food = None;
    assert!(place_food(&grid, &chain, &mut food, 6, 8));
    assert_eq!(at(&food), Some((6, 8)));
}

#[test]
fn place_food_refuses_the_wall_and_the_outside() {
    let grid = Grid::new(16, 16);
    let chain = Chain::new(4, 8, Direction::Right);
    for (col, row) in [(0, 0), (0, 5), (15, 5), (5, 0), (5, 15), (-1, 3), (16, 16), (3, 99)] {
        let mut food = None;
        assert!(!place_food(&grid, &chain, &mut food, col, row));
        assert_eq!(at(&food), None);
    }
}

#[test]
fn place_food_refuses_head_and_body() {
    let grid = Grid::new(16, 16);
    let chain = chain_of(Direction::Right, (4, 8), &[(3, 8), (2, 8)]);
    for (col, row) in [(4, 8), (3, 8), (2, 8)] {
        let mut food = None;
        assert!(!place_food(&grid, &chain, &mut food, col, row));
        assert_eq!(at(&food), None);
    }
}

#[test]
fn place_food_leaves_existing_food_alone() {
    let grid = Grid::new(16, 16);
    let chain = Chain::new(4, 8, Direction::Right);
    let mut food = Some(Cell::new(9, 9, Food));
    assert!(!place_food(&grid, &chain, &mut food, 6, 8));
    assert_eq!(at(&food), Some((9, 9)));
}

#[test]
fn first_free_cell_is_the_first_in_row_major_order() {
    let grid = Grid::new(16, 16);
    assert_eq!(first_free_cell(&grid, &Chain::new(4, 8, Direction::Right)), Some((1, 1)));
    let along_the_bottom = chain_of(Direction::Right, (3, 1), &[(2, 1), (1, 1)]);
    assert_eq!(first_free_cell(&grid, &along_the_bottom), Some((4, 1)));
}

#[test]
fn first_free_cell_goes_on_to_the_next_row() {
    let grid = Grid::new(5, 5);
    let chain = chain_of(Direction::Up, (1, 2), &[(1, 1), (2, 1), (3, 1)]);
    assert_eq!(first_free_cell(&grid, &chain), Some((2, 2)));
}

#[test]
fn first_free_cell_of_a_full_field_is_none() {
    let grid = Grid::new(4, 4);
    let chain = chain_of(Direction::Left, (1, 2), &[(2, 2), (2, 1), (1, 1)]);
    assert_eq!(first_free_cell(&grid, &chain), None);
}

#[test]
fn first_free_cell_of_a_field_without_interior_is_none() {
    let chain = Chain::new(4, 8, Direction::Right);
    assert_eq!(first_free_cell(&Grid::new(2, 16), &chain), None);
    assert_eq!(first_free_cell(&Grid::new(16, 2), &chain), None);
    assert_eq!(first_free_cell(&Grid::new(0, 0), &chain), None);
    assert_eq!(first_free_cell(&Grid::new(-5, -5), &chain), None);
}

#[test]
fn create_food_keeps_existing_food() {
    let grid = Grid::new(16, 16);
    let chain = Chain::new(4, 8, Direction::Right);
    let mut food = Some(Cell::new(9, 9, Food));
    for _ in 0..20 {
        create_food_if_not_exist(&grid, &chain, &mut food);
        assert_eq!(at(&food), Some((9, 9)));
    }
}

#[test]
fn created_food_is_interior_and_off_the_snake() {
    let grid = Grid::new(16, 16);
    let chain = chain_of(Direction::Right, (8, 8), &[(7, 8), (6, 8), (6, 7), (6, 6), (7, 6)]);
    for _ in 0..500 {
        let mut food = None;
        create_food_if_not_exist(&grid, &chain, &mut food);
        let (col, row) = at(&food).expect("the field has room");
        assert!(grid.is_interior(col, row));
        assert!(!grid.is_wall(col, row));
        assert!(!chain.occupies(col, row));
    }
}

#[test]
fn created_food_varies_from_call_to_call() {
    let grid = Grid::new(16, 16);
    let chain = Chain::new(4, 8, Direction::Right);
    let mut seen = Vec::new();
    for _ in 0..300 {
        let mut food = None;
        create_food_if_not_exist(&grid, &chain, &mut food);
        let cell = at(&food).expect("the field has room");
        if !seen.contains(&cell) {
            seen.push(cell);
        }
    }
    assert!(seen.len() > 1);
    assert!(seen.iter().any(|&(col, _)| col != 1));
    assert!(seen.iter().any(|&(_, row)| row != 1));
}

#[test]
fn created_food_finds_the_only_free_cell() {
    let grid = Grid::new(5, 4);
    let chain = chain_of(Direction::Right, (2, 2), &[(1, 2), (1, 1), (2, 1), (3, 1)]);
    for _ in 0..50 {
        let mut food = None;
        create_food_if_not_exist(&grid, &chain, &mut food);
        assert_eq!(at(&food), Some((3, 2)));
    }
}

#[test]
fn a_full_field_gets_no_food() {
    let grid = Grid::new(4, 4);
    let chain = chain_of(Direction::Left, (1, 2), &[(2, 2), (2, 1), (1, 1)]);
    let mut food = None;
    create_food_if_not_exist(&grid, &chain, &mut food);
    assert_eq!(at(&food), None);
}

#[test]
fn a_field_without_interior_gets_no_food() {
    let chain = Chain::new(4, 8, Direction::Right);
    for grid in [Grid::new(2, 2), Grid::new(1, 9), Grid::new(9, 2), Grid::new(0, 0), Grid::new(-1, 7)] {
        let mut food = None;
        create_food_if_not_exist(&grid, &chain, &mut food);
        assert_eq!(at(&food), None);
    }
}

#[test]
fn consume_food_under_the_head() {
    let head = Cell::new(6, 8, Head(Direction::Right));
    let mut food = Some(Cell::new(6, 8, Food));
    let mut growth = Growth(false);
    assert!(consume_food(&head, &mut food, &mut growth));
    assert_eq!(at(&food), None);
    assert!(growth.0);
}

#[test]
fn consume_food_elsewhere_changes_nothing() {
    let head = Cell::new(6, 8, Head(Direction::Right));
    let mut food = Some(Cell::new(7, 8, Food));
    let mut growth = Growth(false);
    assert!(!consume_food(&head, &mut food, &mut growth));
    assert_eq!(at(&food), Some((7, 8)));
    assert!(!growth.0);
}

#[test]
fn consume_food_without_food_changes_nothing() {
    let head = Cell::new(6, 8, Head(Direction::Right));
    let mut food = None;
    let mut growth = Growth(true);
    assert!(!consume_food(&head, &mut food, &mut growth));
    assert_eq!(at(&food), None);
    assert!(growth.0);
}
