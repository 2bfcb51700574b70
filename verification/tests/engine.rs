use game_of_life::cell::Cell;
use game_of_life::engine::{count_neighbours, update, Model};
use game_of_life::grid::Grid;

fn grid(values: Vec<Vec<i32>>) -> Grid {
    Grid::from_values(values).unwrap()
}

fn filled(rows: usize, cols: usize, value: i32) -> Grid {
    grid(vec![vec![value; cols]; rows])
}

fn values_of(grid: &Grid) -> Vec<Vec<i32>> {
    let mut values = Vec::new();
    for row in 0..grid.rows() {
        let mut line = Vec::new();
        for col in 0..grid.cols() {
            line.push(grid.get(row, col).value());
        }
        values.push(line);
    }
    values
}

#[test]
fn dead_cell_with_three_neighbours_comes_alive() {
    assert_eq!(Cell::Dead.next(3), Cell::Alive);
}

#[test]
fn dead_cell_with_any_other_count_stays_dead() {
    for n in [0u8, 1, 2, 4, 5, 6, 7, 8] {
        assert_eq!(Cell::Dead.next(n), Cell::Dead, "dead cell, {} neighbours", n);
    }
}

#[test]
fn live_cell_with_fewer_than_two_neighbours_dies() {
    assert_eq!(Cell::Alive.next(0), Cell::Dead);
    assert_eq!(Cell::Alive.next(1), Cell::Dead);
}

#[test]
fn live_cell_with_two_or_three_neighbours_survives() {
    assert_eq!(Cell::Alive.next(2), Cell::Alive);
    assert_eq!(Cell::Alive.next(3), Cell::Alive);
}

#[test]
fn live_cell_with_more_than_three_neighbours_dies() {
    for n in [4u8, 5, 6, 7, 8] {
        assert_eq!(Cell::Alive.next(n), Cell::Dead, "live cell, {} neighbours", n);
    }
}

#[test]
fn lone_centre_cell_dies() {
    let g = grid(vec![vec![0, 0, 0], vec![0, 1, 0], vec![0, 0, 0]]);
    let next = g.step();
    assert_eq!(values_of(&next), vec![vec![0, 0, 0], vec![0, 0, 0], vec![0, 0, 0]]);
}

#[test]
fn lone_centre_cell_is_seen_once_by_each_neighbour() {
    let g = grid(vec![vec![0, 0, 0], vec![0, 1, 0], vec![0, 0, 0]]);
    for row in 0..3 {
        for col in 0..3 {
            let expected = if row == 1 && col == 1 { 0 } else { 1 };
            assert_eq!(count_neighbours(&g, row, col), expected, "at ({}, {})", row, col);
        }
    }
}

#[test]
fn blinker_turns_and_turns_back() {
    let horizontal = vec![
        vec![0, 0, 0, 0, 0],
        vec![0, 0, 0, 0, 0],
        vec![0, 1, 1, 1, 0],
        vec![0, 0, 0, 0, 0],
        vec![0, 0, 0, 0, 0],
    ];
    let vertical = vec![
        vec![0, 0, 0, 0, 0],
        vec![0, 0, 1, 0, 0],
        vec![0, 0, 1, 0, 0],
        vec![0, 0, 1, 0, 0],
        vec![0, 0, 0, 0, 0],
    ];
    let start = grid(horizontal.clone());
    let once = start.step();
    assert_eq!(values_of(&once), vertical);
    let twice = once.step();
    assert_eq!(values_of(&twice), horizontal);
    assert_eq!(twice, start);
}

#[test]
fn blinker_neighbour_counts() {
    let g = grid(vec![
        vec![0, 0, 0, 0, 0],
        vec![0, 0, 0, 0, 0],
        vec![0, 1, 1, 1, 0],
        vec![0, 0, 0, 0, 0],
        vec![0, 0, 0, 0, 0],
    ]);
    let expected: [[u8; 5]; 5] = [
        [0, 0, 0, 0, 0],
        [1, 2, 3, 2, 1],
        [1, 1, 2, 1, 1],
        [1, 2, 3, 2, 1],
        [0, 0, 0, 0, 0],
    ];
    for row in 0..5 {
        for col in 0..5 {
            assert_eq!(count_neighbours(&g, row, col), expected[row][col], "at ({}, {})", row, col);
        }
    }
}

#[test]
fn dead_grid_stays_dead() {
    for (rows, cols) in [(1, 1), (1, 2), (2, 1), (2, 3), (3, 3), (5, 5), (7, 4)] {
        let g = filled(rows, cols, 0);
        let next = g.step();
        assert_eq!(next, g, "{} by {}", rows, cols);
        assert_eq!(values_of(&next), vec![vec![0; cols]; rows]);
    }
}

#[test]
fn full_grid_dies() {
    for (rows, cols) in [(5, 5), (6, 7), (9, 5)] {
        let g = filled(rows, cols, 1);
        for row in 0..rows {
            for col in 0..cols {
                assert_eq!(count_neighbours(&g, row, col), 8);
            }
        }
        assert_eq!(values_of(&g.step()), vec![vec![0; cols]; rows], "{} by {}", rows, cols);
    }
}

#[test]
fn full_small_grid_dies_too() {
    for (rows, cols) in [(1, 1), (1, 2), (2, 2), (3, 3), (4, 2)] {
        let g = filled(rows, cols, 1);
        assert_eq!(count_neighbours(&g, 0, 0), 8, "{} by {}", rows, cols);
        assert_eq!(values_of(&g.step()), vec![vec![0; cols]; rows], "{} by {}", rows, cols);
    }
}

#[test]
fn corner_cell_is_seen_across_the_edges() {
    for n in 3..8usize {
        let mut values = vec![vec![0; n]; n];
        values[0][0] = 1;
        let g = grid(values);
        assert_eq!(count_neighbours(&g, n - 1, n - 1), 1, "n = {}", n);
        assert_eq!(count_neighbours(&g, n - 1, 0), 1, "n = {}", n);
        assert_eq!(count_neighbours(&g, 0, n - 1), 1, "n = {}", n);
        assert_eq!(count_neighbours(&g, n - 1, 1), 1, "n = {}", n);
        assert_eq!(count_neighbours(&g, 1, n - 1), 1, "n = {}", n);
        assert_eq!(count_neighbours(&g, 0, 1), 1, "n = {}", n);
        assert_eq!(count_neighbours(&g, 1, 0), 1, "n = {}", n);
        assert_eq!(count_neighbours(&g, 1, 1), 1, "n = {}", n);
        assert_eq!(count_neighbours(&g, 0, 0), 0, "n = {}", n);
    }
}

#[test]
fn corner_cell_is_seen_by_its_eight_neighbours_only() {
    let (rows, cols) = (5usize, 6usize);
    let mut values = vec![vec![0; cols]; rows];
    values[0][0] = 1;
    let g = grid(values);
    for row in 0..rows {
        for col in 0..cols {
            let near_row = row == 0 || row == 1 || row == rows - 1;
            let near_col = col == 0 || col == 1 || col == cols - 1;
            let expected = if near_row && near_col && !(row == 0 && col == 0) { 1 } else { 0 };
            assert_eq!(count_neighbours(&g, row, col), expected, "at ({}, {})", row, col);
        }
    }
}

#[test]
fn last_cell_is_seen_from_the_first() {
    let mut values = vec![vec![0; 4]; 4];
    values[3][3] = 1;
    let g = grid(values);
    assert_eq!(count_neighbours(&g, 0, 0), 1);
    assert_eq!(count_neighbours(&g, 0, 3), 1);
    assert_eq!(count_neighbours(&g, 3, 0), 1);
    assert_eq!(count_neighbours(&g, 1, 1), 0);
}

#[test]
fn single_cell_grid_counts_itself_eight_times() {
    let alive = grid(vec![vec![1]]);
    assert_eq!(count_neighbours(&alive, 0, 0), 8);
    assert_eq!(values_of(&alive.step()), vec![vec![0]]);
    let dead = grid(vec![vec![0]]);
    assert_eq!(count_neighbours(&dead, 0, 0), 0);
    assert_eq!(values_of(&dead.step()), vec![vec![0]]);
}

#[test]
fn narrow_grid_counts_a_cell_once_for_every_offset_that_reaches_it() {
    let g = grid(vec![vec![1, 0]]);
    assert_eq!(count_neighbours(&g, 0, 0), 2);
    assert_eq!(count_neighbours(&g, 0, 1), 6);
    assert_eq!(values_of(&g.step()), vec![vec![1, 0]]);
}

#[test]
fn two_by_two_grid_counts() {
    let g = grid(vec![vec![1, 0], vec![0, 0]]);
    assert_eq!(count_neighbours(&g, 0, 0), 0);
    assert_eq!(count_neighbours(&g, 0, 1), 2);
    assert_eq!(count_neighbours(&g, 1, 0), 2);
    assert_eq!(count_neighbours(&g, 1, 1), 4);
    assert_eq!(values_of(&g.step()), vec![vec![0, 0], vec![0, 0]]);
}

#[test]
fn block_is_still() {
    let g = grid(vec![
        vec![0, 0, 0, 0],
        vec![0, 1, 1, 0],
        vec![0, 1, 1, 0],
        vec![0, 0, 0, 0],
    ]);
    assert_eq!(g.step(), g);
}

#[test]
fn glider_moves_one_cell_diagonally_in_four_generations() {
    let start = grid(vec![
        vec![0, 1, 0, 0, 0, 0],
        vec![0, 0, 1, 0, 0, 0],
        vec![1, 1, 1, 0, 0, 0],
        vec![0, 0, 0, 0, 0, 0],
        vec![0, 0, 0, 0, 0, 0],
        vec![0, 0, 0, 0, 0, 0],
    ]);
    let moved = start.step().step().step().step();
    let expected = vec![
        vec![0, 0, 0, 0, 0, 0],
        vec![0, 0, 1, 0, 0, 0],
        vec![0, 0, 0, 1, 0, 0],
        vec![0, 1, 1, 1, 0, 0],
        vec![0, 0, 0, 0, 0, 0],
        vec![0, 0, 0, 0, 0, 0],
    ];
    assert_eq!(values_of(&moved), expected);
}

#[test]
fn glider_crosses_the_edge_and_comes_back() {
    let start = grid(vec![
        vec![0, 1, 0, 0, 0],
        vec![0, 0, 1, 0, 0],
        vec![1, 1, 1, 0, 0],
        vec![0, 0, 0, 0, 0],
        vec![0, 0, 0, 0, 0],
    ]);
    let mut g = start.clone();
    for _ in 0..20 {
        g = g.step();
    }
    assert_eq!(g, start);
}

#[test]
fn step_reads_the_old_generation_only() {
    let g = grid(vec![
        vec![0, 0, 0, 0],
        vec![1, 1, 1, 0],
        vec![0, 0, 0, 0],
        vec![0, 0, 0, 0],
    ]);
    let expected = vec![
        vec![0, 1, 0, 0],
        vec![0, 1, 0, 0],
        vec![0, 1, 0, 0],
        vec![0, 0, 0, 0],
    ];
    assert_eq!(values_of(&g.step()), expected);
}

#[test]
fn step_keeps_the_dimensions() {
    for (rows, cols) in [(1, 1), (1, 5), (5, 1), (3, 7), (10, 4)] {
        let mut g = Grid::from_fn(rows, cols, |r, c| {
            if (r * 3 + c * 5) % 4 < 2 {
                Cell::Alive
            } else {
                Cell::Dead
            }
        })
        .unwrap();
        for _ in 0..5 {
            g = g.step();
            assert_eq!(g.rows(), rows);
            assert_eq!(g.cols(), cols);
        }
    }
}

#[test]
fn step_gives_the_same_result_every_time() {
    let g = Grid::from_fn(9, 11, |r, c| {
        if (r * r + 3 * c + r * c) % 3 == 0 {
            Cell::Alive
        } else {
            Cell::Dead
        }
    })
    .unwrap();
    let first = g.step();
    let second = g.step();
    assert_eq!(first, second);
    let copy = g.clone();
    assert_eq!(copy.step(), first);
}

#[test]
fn step_leaves_the_input_untouched() {
    let g = grid(vec![
        vec![0, 0, 0, 0, 0],
        vec![0, 0, 0, 0, 0],
        vec![0, 1, 1, 1, 0],
        vec![0, 0, 0, 0, 0],
        vec![0, 0, 0, 0, 0],
    ]);
    let seen_before = values_of(&g);
    let kept = g.clone();
    let next = g.step();
    assert_eq!(values_of(&g), seen_before);
    let mut model = Model { grid: next };
    update(&mut model);
    update(&mut model);
    assert_eq!(values_of(&g), seen_before);
    assert_eq!(g, kept);
    assert_ne!(model.grid, g);
}

#[test]
fn update_replaces_the_grid_by_its_successor() {
    let start = grid(vec![
        vec![0, 0, 0, 0, 0],
        vec![0, 0, 1, 0, 0],
        vec![0, 0, 1, 0, 0],
        vec![0, 0, 1, 0, 0],
        vec![0, 0, 0, 0, 0],
    ]);
    let expected = start.step();
    let mut model = Model { grid: start.clone() };
    update(&mut model);
    assert_eq!(model.grid, expected);
    assert_eq!(model.grid.rows(), 5);
    assert_eq!(model.grid.cols(), 5);
    update(&mut model);
    assert_eq!(model.grid, start);
}

#[test]
fn count_is_never_above_eight() {
    let g = Grid::from_fn(6, 6, |r, c| if (r + 2 * c) % 3 == 0 { Cell::Dead } else { Cell::Alive })
        .unwrap();
    for row in 0..6 {
        for col in 0..6 {
            assert!(count_neighbours(&g, row, col) <= 8);
        }
    }
}
