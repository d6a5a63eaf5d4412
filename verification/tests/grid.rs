use grid_snake::grid::{Grid, HEIGHT, WIDTH};

#[test]
fn standard_field_is_sixteen_by_sixteen() {
    assert_eq!((WIDTH, HEIGHT), (16, 16));
    let grid = Grid::new(WIDTH, HEIGHT);
    assert_eq!((grid.width, grid.height), (16, 16));
}

#[test]
fn is_wall_on_the_ring() {
    let grid = Grid::new(16, 16);
    for k in 0..16 {
        assert!(grid.is_wall(k, 0));
        assert!(grid.is_wall(k, 15));
        assert!(grid.is_wall(0, k));
        assert!(grid.is_wall(15, k));
    }
}

#[test]
fn is_wall_is_false_inside_the_ring() {
    let grid = Grid::new(16, 16);
    for col in 1..15 {
        for row in 1..15 {
            assert!(!grid.is_wall(col, row));
            assert!(grid.is_interior(col, row));
        }
    }
}

#[test]
fn is_wall_is_false_off_the_field() {
    let grid = Grid::new(16, 16);
    assert!(!grid.is_wall(-1, 0));
    assert!(!grid.is_wall(0, -1));
    assert!(!grid.is_wall(16, 15));
    assert!(!grid.is_wall(15, 16));
    assert!(!grid.is_wall(0, 40));
    assert!(!grid.is_interior(-1, 5));
    assert!(!grid.is_interior(5, 16));
}

#[test]
fn ring_cells_are_not_interior() {
    let grid = Grid::new(16, 16);
    assert!(!grid.is_interior(0, 0));
    assert!(!grid.is_interior(0, 7));
    assert!(!grid.is_interior(15, 7));
    assert!(!grid.is_interior(7, 0));
    assert!(!grid.is_interior(7, 15));
    assert!(grid.is_interior(1, 1));
    assert!(grid.is_interior(14, 14));
}

#[test]
fn is_interior_survives_extreme_sizes() {
    let grid = Grid::new(i32::MAX, i32::MAX);
    assert!(grid.is_interior(i32::MAX - 2, 1));
    assert!(!grid.is_interior(i32::MAX - 1, 1));
    assert!(grid.is_wall(i32::MAX - 1, 1));
    let none = Grid::new(i32::MIN, i32::MIN);
    assert!(!none.is_interior(1, 1));
    assert!(!none.is_wall(0, 0));
}

#[test]
fn walls_of_the_standard_field() {
    let ring = Grid::new(16, 16).walls();
    assert_eq!(ring.len(), 60);
    assert_eq!((ring[0].col, ring[0].row), (0, 0));
    assert_eq!((ring[15].col, ring[15].row), (15, 0));
    assert_eq!((ring[16].col, ring[16].row), (0, 1));
    assert_eq!((ring[17].col, ring[17].row), (15, 1));
    assert_eq!((ring[59].col, ring[59].row), (15, 15));
}

#[test]
fn walls_of_a_three_by_three_field_in_row_major_order() {
    let ring: Vec<(i32, i32)> =
        Grid::new(3, 3).walls().iter().map(|cell| (cell.col, cell.row)).collect();
    assert_eq!(ring, vec![(0, 0), (1, 0), (2, 0), (0, 1), (2, 1), (0, 2), (1, 2), (2, 2)]);
}

#[test]
fn walls_match_is_wall_cell_by_cell() {
    let grid = Grid::new(7, 5);
    let ring: Vec<(i32, i32)> = grid.walls().iter().map(|cell| (cell.col, cell.row)).collect();
    let mut expected = Vec::new();
    for row in 0..5 {
        for col in 0..7 {
            if grid.is_wall(col, row) {
                expected.push((col, row));
            }
        }
    }
    assert_eq!(ring, expected);
    assert_eq!(ring.len(), 2 * 7 + 2 * 5 - 4);
}

#[test]
fn walls_of_degenerate_fields() {
    assert!(Grid::new(0, 0).walls().is_empty());
    assert!(Grid::new(-3, 5).walls().is_empty());
    assert!(Grid::new(5, -3).walls().is_empty());
    assert_eq!(Grid::new(1, 1).walls().len(), 1);
    assert_eq!(Grid::new(2, 2).walls().len(), 4);
    assert_eq!(Grid::new(1, 4).walls().len(), 4);
}

#[test]
fn interior_of_the_standard_field() {
    let inside = Grid::new(16, 16).interior();
    assert_eq!(inside.len(), 14 * 14);
    assert_eq!(inside[0], (1, 1));
    assert_eq!(inside[1], (2, 1));
    assert_eq!(inside[14], (1, 2));
    assert_eq!(inside[195], (14, 14));
}

#[test]
fn interior_of_small_fields() {
    assert_eq!(Grid::new(3, 3).interior(), vec![(1, 1)]);
    assert_eq!(Grid::new(4, 3).interior(), vec![(1, 1), (2, 1)]);
    assert_eq!(Grid::new(3, 4).interior(), vec![(1, 1), (1, 2)]);
    assert!(Grid::new(2, 9).interior().is_empty());
    assert!(Grid::new(9, 2).interior().is_empty());
    assert!(Grid::new(0, 0).interior().is_empty());
}

#[test]
fn ring_and_interior_share_the_field_between_them() {
    let grid = Grid::new(9, 6);
    assert_eq!(grid.walls().len() + grid.interior().len(), 9 * 6);
    for (col, row) in grid.interior() {
        assert!(!grid.is_wall(col, row));
    }
}
