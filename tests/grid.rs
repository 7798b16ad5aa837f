use life_engine::{EngineError, Grid, MAX_DIMENSION};

fn alive_cells(grid: &Grid) -> Vec<(u32, u32)> {
    let w = grid.width();
    let mut out = Vec::new();
    for (i, &alive) in grid.active_buffer().iter().enumerate() {
        if alive {
            out.push((i as u32 % w, i as u32 / w));
        }
    }
    out
}

fn grid_with(width: u32, height: u32, live: &[(i32, i32)]) -> Grid {
    let mut grid = Grid::allocate(width, height).unwrap();
    for &(x, y) in live {
        grid.toggle(x, y).unwrap();
    }
    grid
}

#[test]
fn allocate_gives_dead_grid_of_requested_size() {
    let grid = Grid::allocate(7, 4).unwrap();
    assert_eq!(grid.width(), 7);
    assert_eq!(grid.height(), 4);
    assert_eq!(grid.active_buffer().len(), 28);
    assert!(grid.active_buffer().iter().all(|&c| !c));
}

#[test]
fn allocate_accepts_largest_dimension() {
    let grid = Grid::allocate(MAX_DIMENSION, 1).unwrap();
    assert_eq!(grid.width(), 8192);
    assert_eq!(grid.active_buffer().len(), 8192);
}

#[test]
fn allocate_rejects_zero_and_oversized_dimensions() {
    assert_eq!(Grid::allocate(0, 5).err(), Some(EngineError::ResourceExhausted));
    assert_eq!(Grid::allocate(5, 0).err(), Some(EngineError::ResourceExhausted));
    assert_eq!(Grid::allocate(8193, 5).err(), Some(EngineError::ResourceExhausted));
    assert_eq!(Grid::allocate(5, 8193).err(), Some(EngineError::ResourceExhausted));
}

#[test]
fn lone_cell_dies() {
    let mut grid = grid_with(3, 3, &[(1, 1)]);
    assert_eq!(alive_cells(&grid), vec![(1, 1)]);
    grid.step();
    assert!(alive_cells(&grid).is_empty());
}

#[test]
fn blinker_oscillates() {
    let mut grid = grid_with(5, 5, &[(1, 2), (2, 2), (3, 2)]);
    grid.step();
    assert_eq!(alive_cells(&grid), vec![(2, 1), (2, 2), (2, 3)]);
    grid.step();
    assert_eq!(alive_cells(&grid), vec![(1, 2), (2, 2), (3, 2)]);
}

#[test]
fn empty_grid_stays_empty() {
    let mut grid = Grid::allocate(6, 4).unwrap();
    for _ in 0..5 {
        grid.step();
        assert!(alive_cells(&grid).is_empty());
    }
}

#[test]
fn dead_cell_with_three_neighbors_is_born() {
    // (1, 1) is dead with live neighbours (0, 0), (2, 0) and (1, 2).
    let mut grid = grid_with(3, 3, &[(0, 0), (2, 0), (1, 2)]);
    grid.step();
    assert!(grid.active_buffer()[4]);
}

#[test]
fn crowded_cell_dies_and_block_survives() {
    // The center of a full 3x3 square has eight neighbours.
    let all: Vec<(i32, i32)> = (0..3).flat_map(|y| (0..3).map(move |x| (x, y))).collect();
    let mut grid = grid_with(3, 3, &all);
    grid.step();
    assert!(!grid.active_buffer()[4]);
    // The corners have three neighbours each and stay alive.
    assert_eq!(alive_cells(&grid), vec![(0, 0), (2, 0), (0, 2), (2, 2)]);

    let mut block = grid_with(4, 4, &[(1, 1), (2, 1), (1, 2), (2, 2)]);
    block.step();
    assert_eq!(alive_cells(&block), vec![(1, 1), (2, 1), (1, 2), (2, 2)]);
}

#[test]
fn border_does_not_wrap() {
    // A vertical line on the left edge: with wrap-around the column on the
    // right edge would come alive too.
    let mut grid = grid_with(4, 3, &[(0, 0), (0, 1), (0, 2)]);
    grid.step();
    assert_eq!(alive_cells(&grid), vec![(0, 1), (1, 1)]);
}

#[test]
fn step_is_deterministic() {
    let live = [(1, 1), (2, 1), (3, 1), (2, 3), (4, 4), (0, 4)];
    let mut a = grid_with(6, 5, &live);
    let mut b = grid_with(6, 5, &live);
    // Different histories of the scratch buffer do not matter.
    b.toggle(5, 0).unwrap();
    b.toggle(5, 0).unwrap();
    a.step();
    b.step();
    assert_eq!(a.active_buffer(), b.active_buffer());
    a.step();
    b.step();
    assert_eq!(a.active_buffer(), b.active_buffer());
}

#[test]
fn toggle_twice_restores_grid() {
    let mut grid = grid_with(4, 3, &[(0, 0), (3, 2)]);
    let before = grid.active_buffer().clone();
    grid.toggle(2, 1).unwrap();
    assert!(grid.active_buffer()[6]);
    let mut expected = before.clone();
    expected[6] = true;
    assert_eq!(grid.active_buffer(), &expected);
    grid.toggle(2, 1).unwrap();
    assert_eq!(grid.active_buffer(), &before);
}

#[test]
fn toggle_out_of_bounds_is_rejected() {
    let mut grid = grid_with(4, 3, &[(1, 1)]);
    let before = grid.active_buffer().clone();
    assert_eq!(grid.toggle(-1, 0), Err(EngineError::InvalidAddress));
    assert_eq!(grid.toggle(0, -1), Err(EngineError::InvalidAddress));
    assert_eq!(grid.toggle(4, 0), Err(EngineError::InvalidAddress));
    assert_eq!(grid.toggle(0, 3), Err(EngineError::InvalidAddress));
    assert_eq!(grid.active_buffer(), &before);
}

#[test]
fn swap_exposes_scratch_buffer() {
    let mut grid = grid_with(2, 2, &[(0, 0)]);
    // The toggle copied the dead grid and flipped one cell; the scratch
    // buffer is the dead grid it started from.
    grid.swap();
    assert!(alive_cells(&grid).is_empty());
    grid.swap();
    assert_eq!(alive_cells(&grid), vec![(0, 0)]);
}
