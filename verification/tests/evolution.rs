use game_of_life::{Cell, Universe};

fn alive(cell: Cell) -> u8 {
    if cell == Cell::Alive {
        1
    } else {
        0
    }
}

fn cells_of(bits: &[u8]) -> Vec<Cell> {
    bits.iter().map(|b| if *b == 1 { Cell::Alive } else { Cell::Dead }).collect()
}

fn neighbors_by_hand(cells: &[Cell], width: usize, height: usize, row: usize, column: usize) -> u8 {
    let rows = [(row + height - 1) % height, row, (row + 1) % height];
    let columns = [(column + width - 1) % width, column, (column + 1) % width];
    let mut count = 0;
    for (i, r) in rows.iter().enumerate() {
        for (j, c) in columns.iter().enumerate() {
            if i == 1 && j == 1 {
                continue;
            }
            count += alive(cells[r * width + c]);
        }
    }
    count
}

fn next_by_hand(cells: &[Cell], width: usize, height: usize) -> Vec<Cell> {
    let mut next = Vec::new();
    for row in 0..height {
        for column in 0..width {
            let count = neighbors_by_hand(cells, width, height, row, column);
            let cell = cells[row * width + column];
            let fate = match (cell, count) {
                (Cell::Alive, 2) | (Cell::Alive, 3) | (Cell::Dead, 3) => Cell::Alive,
                _ => Cell::Dead,
            };
            next.push(fate);
        }
    }
    next
}

#[test]
fn cell_0_1() {
    let u = Universe::new();
    let count = u.live_neighbor_count(0, 1);
    assert_eq!(6, count);
}

#[test]
fn cell_0_0() {
    let u = Universe::new();
    let count = u.live_neighbor_count(0, 0);
    assert_eq!(4, count);
}

#[test]
fn cell_2_4() {
    let u = Universe::new();
    let count = u.live_neighbor_count(2, 4);
    assert_eq!(3, count);
}

#[test]
fn corner_looks_at_rows_and_columns_63_0_1() {
    let u = Universe::new();
    let cells = u.get_cells();
    let mut count = 0;
    for row in [63usize, 0, 1] {
        for column in [63usize, 0, 1] {
            if row == 0 && column == 0 {
                continue;
            }
            count += alive(cells[row * 64 + column]);
        }
    }
    assert_eq!(count, u.live_neighbor_count(0, 0));
    assert_eq!(4, count);
}

#[test]
fn far_corner_wraps_to_row_and_column_0() {
    let u = Universe::new();
    let cells = u.get_cells();
    let mut count = 0;
    for row in [62usize, 63, 0] {
        for column in [62usize, 63, 0] {
            if row == 63 && column == 63 {
                continue;
            }
            count += alive(cells[row * 64 + column]);
        }
    }
    assert_eq!(count, u.live_neighbor_count(63, 63));
}

#[test]
fn neighbor_counts_on_a_tall_grid() {
    let u = Universe::with_size(3, 5);
    let expected = [4, 5, 4, 6, 5, 6, 4, 4, 4, 6, 5, 6, 4, 5, 4];
    for row in 0..5 {
        for column in 0..3 {
            assert_eq!(expected[row * 3 + column], u.live_neighbor_count(row, column), "{}:{}", row, column);
        }
    }
}

#[test]
fn neighbor_counts_on_a_wide_grid() {
    let u = Universe::with_size(5, 3);
    let expected = [4, 6, 4, 6, 4, 5, 5, 4, 5, 5, 4, 6, 4, 6, 4];
    for row in 0..3 {
        for column in 0..5 {
            assert_eq!(expected[row * 5 + column], u.live_neighbor_count(row, column), "{}:{}", row, column);
        }
    }
}

#[test]
fn neighbor_counts_match_a_count_by_hand() {
    for (width, height) in [(1, 1), (2, 1), (1, 3), (4, 4), (7, 3), (64, 64)] {
        let u = Universe::with_size(width, height);
        for row in 0..height {
            for column in 0..width {
                let by_hand = neighbors_by_hand(u.get_cells(), width, height, row, column);
                assert_eq!(by_hand, u.live_neighbor_count(row, column));
                assert!(by_hand <= 8);
            }
        }
    }
}

#[test]
fn coordinates_beyond_the_grid_wrap_in_neighbor_counting() {
    let u = Universe::with_size(5, 3);
    assert_eq!(u.live_neighbor_count(0, 0), u.live_neighbor_count(3, 5));
    assert_eq!(u.live_neighbor_count(1, 2), u.live_neighbor_count(4, 7));
    assert_eq!(u.live_neighbor_count(2, 4), u.live_neighbor_count(2 + 3 * 7, 4 + 5 * 9));
    let last = usize::MAX;
    assert_eq!(u.live_neighbor_count(last % 3, last % 5), u.live_neighbor_count(last, last));
}

#[test]
fn single_cell_grid_is_its_own_eight_neighbors() {
    let mut u = Universe::with_size(1, 1);
    assert_eq!(Cell::Alive, u.cell_at(0, 0));
    assert_eq!(8, u.live_neighbor_count(0, 0));
    u.tick();
    assert_eq!(Cell::Dead, u.cell_at(0, 0));
    assert_eq!(0, u.live_neighbor_count(0, 0));
    u.tick();
    assert_eq!(Cell::Dead, u.cell_at(0, 0));
}

#[test]
fn tick_on_a_small_grid_matches_the_rule_table() {
    let mut u = Universe::with_size(3, 2);
    assert_eq!(cells_of(&[1, 0, 1, 0, 1, 0]).as_slice(), u.get_cells());
    u.tick();
    assert_eq!(cells_of(&[1, 0, 1, 0, 0, 0]).as_slice(), u.get_cells());
    u.tick();
    assert_eq!(cells_of(&[0, 0, 0, 0, 0, 0]).as_slice(), u.get_cells());
}

#[test]
fn tick_on_a_four_by_four_grid() {
    let mut u = Universe::with_size(4, 4);
    assert_eq!(
        cells_of(&[1, 0, 1, 0, 1, 0, 1, 1, 1, 0, 1, 0, 1, 0, 1, 0]).as_slice(),
        u.get_cells()
    );
    u.tick();
    let striped = cells_of(&[1, 0, 1, 0, 1, 0, 1, 0, 1, 0, 1, 0, 1, 0, 1, 0]);
    assert_eq!(striped.as_slice(), u.get_cells());
    u.tick();
    assert_eq!(striped.as_slice(), u.get_cells());
}

#[test]
fn tick_on_a_two_by_one_grid_is_stable() {
    let mut u = Universe::with_size(2, 1);
    assert_eq!(2, u.live_neighbor_count(0, 0));
    assert_eq!(6, u.live_neighbor_count(0, 1));
    u.tick();
    assert_eq!(cells_of(&[1, 0]).as_slice(), u.get_cells());
}

#[test]
fn tick_reads_only_the_generation_before_it() {
    for (width, height) in [(3, 5), (5, 3), (4, 4), (9, 6), (64, 64)] {
        let mut u = Universe::with_size(width, height);
        for _ in 0..4 {
            let expected = next_by_hand(u.get_cells(), width, height);
            u.tick();
            assert_eq!(expected.as_slice(), u.get_cells());
            assert_eq!(width, u.get_width());
            assert_eq!(height, u.get_height());
            assert_eq!(width * height, u.get_cells().len());
        }
    }
}

#[test]
fn tick_on_the_standard_grid() {
    let mut u = Universe::new();
    let live = |u: &Universe| u.get_cells().iter().filter(|c| **c == Cell::Alive).count();
    assert_eq!(2341, live(&u));
    u.tick();
    assert_eq!(1736, live(&u));
    assert_eq!(
        cells_of(&[0, 0, 1, 0, 1, 0, 0, 0, 0, 0, 1, 0, 1, 0, 1, 0]).as_slice(),
        &u.get_cells()[..16]
    );
    u.tick();
    assert_eq!(1205, live(&u));
    assert_eq!(
        cells_of(&[0, 0, 1, 0, 1, 1, 0, 0, 0, 0, 1, 0, 1, 0, 1, 0]).as_slice(),
        &u.get_cells()[..16]
    );
}

#[test]
fn two_ticks_give_the_generation_after_next() {
    let mut u = Universe::with_size(9, 6);
    let first = next_by_hand(u.get_cells(), 9, 6);
    let second = next_by_hand(&first, 9, 6);
    assert_ne!(first, second);
    u.tick();
    u.tick();
    assert_eq!(second.as_slice(), u.get_cells());
}

#[test]
fn grids_of_one_size_evolve_in_lockstep() {
    let mut a = Universe::with_size(17, 11);
    let mut b = Universe::with_size(17, 11);
    assert_eq!(a.get_cells(), b.get_cells());
    for _ in 0..10 {
        a.tick();
        b.tick();
        assert_eq!(a.get_cells(), b.get_cells());
        assert_eq!(a.render(), b.render());
    }
}
