use arena_core::chance::Coin;
use arena_core::layout::Piece;
use arena_core::level::Chunk;
use rand::rngs::StdRng;
use rand::{Rng, RngCore, SeedableRng};

fn wall(column: usize, row: usize, turned: bool) -> Piece {
    Piece::Wall { column, row, turned }
}

fn floor(column: usize, row: usize) -> Piece {
    Piece::Floor { column, row }
}

#[test]
fn arena_of_twenty_is_open_inside_a_void_ring() {
    let chunk = Chunk::<20, 20>::arena();
    for row in 0..20 {
        for column in 0..20 {
            let inside = row > 0 && row < 19 && column > 0 && column < 19;
            assert_eq!(chunk.grid[row][column], inside, "row {} column {}", row, column);
        }
    }
}

#[test]
fn arena_of_three_has_one_open_cell() {
    let chunk = Chunk::<3, 3>::arena();
    assert_eq!(
        chunk.grid,
        [[false, false, false], [false, true, false], [false, false, false]]
    );
}

#[test]
fn arena_of_five_has_nine_open_cells() {
    let chunk = Chunk::<5, 5>::arena();
    let void = [false; 5];
    let mid = [false, true, true, true, false];
    assert_eq!(chunk.grid, [void, mid, mid, mid, void]);
}

#[test]
fn arenas_too_small_for_an_interior_are_all_void() {
    assert_eq!(Chunk::<1, 1>::arena().grid, [[false]]);
    assert_eq!(Chunk::<2, 2>::arena().grid, [[false, false], [false, false]]);
}

#[test]
fn arena_without_cells_is_empty() {
    let chunk = Chunk::<0, 0>::arena();
    assert_eq!(chunk.grid.len(), 0);
    assert!(chunk.layout().is_empty());
}

#[test]
fn from_cells_reads_row_by_row() {
    let chunk = Chunk::<3, 2>::from_cells(&[true, false, true, false, false, true]).unwrap();
    assert_eq!(chunk.grid, [[true, false, true], [false, false, true]]);
}

#[test]
fn from_cells_takes_exactly_one_value_per_cell() {
    assert!(Chunk::<3, 2>::from_cells(&[true; 5]).is_none());
    assert!(Chunk::<3, 2>::from_cells(&[true; 7]).is_none());
    assert!(Chunk::<3, 2>::from_cells(&[]).is_none());
    assert!(Chunk::<3, 2>::from_cells(&[true; 6]).is_some());
}

#[test]
fn from_cells_of_nothing_is_the_empty_chunk() {
    assert!(Chunk::<0, 0>::from_cells(&[]).is_some());
    assert!(Chunk::<0, 4>::from_cells(&[]).is_some());
    assert!(Chunk::<4, 0>::from_cells(&[]).is_some());
    assert!(Chunk::<0, 4>::from_cells(&[true]).is_none());
}

fn coin(seed: u64) -> Coin {
    Coin::new(StdRng::seed_from_u64(seed))
}

#[test]
fn coin_lands_as_a_one_in_two_draw_of_its_generator() {
    let mut coin = coin(7);
    let mut twin = StdRng::seed_from_u64(7);
    for toss in 0..200 {
        assert_eq!(coin.toss(), twin.gen_ratio(1, 2), "toss {}", toss);
    }
    assert_eq!(coin.into_rng(), twin);
}

#[test]
fn coin_lands_on_both_sides() {
    let mut coin = coin(3);
    let heads = (0..200).filter(|_| coin.toss()).count();
    assert!(heads > 50);
    assert!(heads < 150);
}

#[test]
fn untossed_coin_leaves_its_generator_alone() {
    let rng = StdRng::seed_from_u64(11);
    assert_eq!(Coin::new(rng.clone()).into_rng(), rng);
}

#[test]
fn random_tosses_one_fair_coin_per_cell_row_by_row() {
    let mut coin = coin(0x5eed);
    let mut twin = StdRng::seed_from_u64(0x5eed);
    let chunk = Chunk::<7, 5>::random(&mut coin);
    for row in 0..5 {
        for column in 0..7 {
            assert_eq!(
                chunk.grid[row][column],
                twin.gen_bool(0.5),
                "row {} column {}",
                row,
                column
            );
        }
    }
    assert_eq!(coin.into_rng().next_u64(), twin.next_u64());
}

#[test]
fn random_goes_on_where_the_coin_left_off() {
    let mut coin = coin(5);
    let mut twin = StdRng::seed_from_u64(5);
    let first = coin.toss();
    let chunk = Chunk::<2, 3>::random(&mut coin);
    let last = coin.toss();
    assert_eq!(first, twin.gen_bool(0.5));
    for row in 0..3 {
        for column in 0..2 {
            assert_eq!(chunk.grid[row][column], twin.gen_bool(0.5));
        }
    }
    assert_eq!(last, twin.gen_bool(0.5));
}

#[test]
fn random_gives_both_open_and_void_cells() {
    let chunk = Chunk::<16, 16>::random(&mut coin(1));
    let open = chunk.grid.iter().flatten().filter(|cell| **cell).count();
    assert!(open > 0);
    assert!(open < 256);
}

#[test]
fn random_depends_on_the_generator() {
    let first = Chunk::<16, 16>::random(&mut coin(1));
    let second = Chunk::<16, 16>::random(&mut coin(2));
    let again = Chunk::<16, 16>::random(&mut coin(1));
    assert_ne!(first.grid, second.grid);
    assert_eq!(first.grid, again.grid);
}

#[test]
fn random_chunk_without_cells_tosses_nothing() {
    let rng = StdRng::seed_from_u64(9);
    let mut coin = Coin::new(rng.clone());
    let chunk = Chunk::<0, 3>::random(&mut coin);
    assert_eq!(chunk.grid.len(), 3);
    assert_eq!(coin.into_rng(), rng);
}

#[test]
fn origin_is_the_middle_cell() {
    assert_eq!(Chunk::<20, 20>::origin(), (10, 10));
    assert_eq!(Chunk::<3, 5>::origin(), (1, 2));
    assert_eq!(Chunk::<1, 1>::origin(), (0, 0));
    assert_eq!(Chunk::<0, 0>::origin(), (0, 0));
}

#[test]
fn layout_of_a_single_open_cell_is_its_floor() {
    let chunk = Chunk::<1, 1> { grid: [[true]] };
    assert_eq!(chunk.layout(), vec![floor(0, 0)]);
}

#[test]
fn layout_of_a_single_void_cell_is_empty() {
    let chunk = Chunk::<1, 1> { grid: [[false]] };
    assert_eq!(chunk.layout(), vec![]);
}

#[test]
fn layout_places_walls_before_the_floor_of_a_cell() {
    let chunk = Chunk::<2, 2> { grid: [[true, false], [false, false]] };
    assert_eq!(
        chunk.layout(),
        vec![wall(0, 0, false), wall(0, 0, true), floor(0, 0)]
    );
}

#[test]
fn layout_gives_a_wall_to_the_upper_or_left_cell_of_an_edge() {
    let chunk = Chunk::<2, 2> { grid: [[false, false], [false, true]] };
    assert_eq!(
        chunk.layout(),
        vec![wall(1, 0, true), wall(0, 1, false), floor(1, 1)]
    );
}

#[test]
fn layout_has_no_wall_between_equal_cells_or_at_the_rim() {
    let open = Chunk::<3, 2> { grid: [[true; 3]; 2] };
    assert_eq!(
        open.layout(),
        vec![
            floor(0, 0),
            floor(1, 0),
            floor(2, 0),
            floor(0, 1),
            floor(1, 1),
            floor(2, 1)
        ]
    );
    let void = Chunk::<3, 2> { grid: [[false; 3]; 2] };
    assert_eq!(void.layout(), vec![]);
}

#[test]
fn layout_goes_along_each_row_in_turn() {
    let chunk = Chunk::<3, 2> { grid: [[true, false, true], [false, false, true]] };
    assert_eq!(
        chunk.layout(),
        vec![
            wall(0, 0, false),
            wall(0, 0, true),
            floor(0, 0),
            wall(1, 0, false),
            floor(2, 0),
            wall(1, 1, false),
            floor(2, 1),
        ]
    );
}

#[test]
fn layout_of_the_smallest_arena_with_an_interior() {
    let chunk = Chunk::<3, 3>::arena();
    assert_eq!(
        chunk.layout(),
        vec![
            wall(1, 0, true),
            wall(0, 1, false),
            wall(1, 1, false),
            wall(1, 1, true),
            floor(1, 1),
        ]
    );
}

#[test]
fn layout_of_the_arena_of_twenty_rings_its_floor_with_walls() {
    let chunk = Chunk::<20, 20>::arena();
    let placed = chunk.layout();
    let floors = placed.iter().filter(|piece| matches!(piece, Piece::Floor { .. })).count();
    let walls = placed.iter().filter(|piece| matches!(piece, Piece::Wall { .. })).count();
    assert_eq!(floors, 18 * 18);
    assert_eq!(walls, 4 * 18);
    assert_eq!(placed.len(), 18 * 18 + 4 * 18);
}

#[test]
fn layout_lists_exactly_the_pieces_called_for_and_each_once() {
    let chunk = Chunk::<6, 4>::random(&mut coin(42));
    let placed = chunk.layout();
    for row in 0..4 {
        for column in 0..6 {
            let open = chunk.grid[row][column];
            let beside = column + 1 < 6 && open != chunk.grid[row][column + 1];
            let below = row + 1 < 4 && open != chunk.grid[row + 1][column];
            let count = |piece: Piece| placed.iter().filter(|other| **other == piece).count();
            assert_eq!(count(floor(column, row)), if open { 1 } else { 0 });
            assert_eq!(count(wall(column, row, false)), if beside { 1 } else { 0 });
            assert_eq!(count(wall(column, row, true)), if below { 1 } else { 0 });
        }
    }
    for piece in placed.iter() {
        let (column, row) = match piece {
            Piece::Wall { column, row, .. } => (*column, *row),
            Piece::Floor { column, row } => (*column, *row),
        };
        assert!(column < 6 && row < 4);
    }
}

#[test]
fn layout_places_pieces_row_by_row_column_by_column_walls_first() {
    let chunk = Chunk::<9, 7>::random(&mut coin(2024));
    let key = |piece: &Piece| match piece {
        Piece::Wall { column, row, turned } => (*row, *column, if *turned { 1 } else { 0 }),
        Piece::Floor { column, row } => (*row, *column, 2),
    };
    let placed = chunk.layout();
    assert!(!placed.is_empty());
    for pair in placed.windows(2) {
        assert!(key(&pair[0]) < key(&pair[1]), "{:?} before {:?}", pair[0], pair[1]);
    }
}

#[test]
fn from_cells_gives_back_the_cells_of_a_chunk() {
    let chunk = Chunk::<5, 4>::random(&mut coin(77));
    let cells: Vec<bool> = chunk.grid.iter().flatten().copied().collect();
    let again = Chunk::<5, 4>::from_cells(&cells).unwrap();
    assert_eq!(again.grid, chunk.grid);
}

#[test]
fn walls_of_the_arena_stand_where_ring_and_interior_meet() {
    let chunk = Chunk::<6, 6>::arena();
    let mut expected = Vec::new();
    // above the interior: turned walls at the cells of the first row
    for column in 1..5 {
        expected.push(wall(column, 0, true));
    }
    for row in 1..5 {
        // left of the interior, at the ring cell
        expected.push(wall(0, row, false));
        for column in 1..5 {
            if column == 4 {
                // right of the interior, at the last open cell
                expected.push(wall(column, row, false));
            }
            if row == 4 {
                // below the interior, at the last open cell
                expected.push(wall(column, row, true));
            }
            expected.push(floor(column, row));
        }
    }
    assert_eq!(chunk.layout(), expected);
}
