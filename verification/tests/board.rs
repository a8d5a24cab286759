use game_of_life::board::Board;
use game_of_life::cell::Cell;
use game_of_life::cell::Cell::{Alive, Dead};

#[test]
fn step_all_dead_stays_dead() {
    let mut b = Board::from_cells(3, 3, vec![Dead; 9]);
    b.step();
    assert_eq!(b.cells, vec![Dead; 9]);
}

#[test]
fn step_isolated_center_dies() {
    let cells = vec![
        Dead, Dead, Dead,
        Dead, Alive, Dead,
        Dead, Dead, Dead,
    ];
    let mut b = Board::from_cells(3, 3, cells);
    b.step();
    assert_eq!(b.cells, vec![Dead; 9]);
}

#[test]
fn step_blinker_oscillates() {
    let horizontal = vec![
        Dead, Dead, Dead,
        Alive, Alive, Alive,
        Dead, Dead, Dead,
    ];
    let vertical = vec![
        Dead, Alive, Dead,
        Dead, Alive, Dead,
        Dead, Alive, Dead,
    ];
    let mut b = Board::from_cells(3, 3, horizontal.clone());
    b.step();
    assert_eq!(b.cells, vertical);
    b.step();
    assert_eq!(b.cells, horizontal);
}

#[test]
fn step_block_is_stable() {
    let block = vec![
        Dead, Dead, Dead, Dead,
        Dead, Alive, Alive, Dead,
        Dead, Alive, Alive, Dead,
        Dead, Dead, Dead, Dead,
    ];
    let mut b = Board::from_cells(4, 4, block.clone());
    b.step();
    assert_eq!(b.cells, block);
}

#[test]
fn step_keeps_dimensions_and_count() {
    let mut b = Board::new(5, 4, 50);
    for _ in 0..3 {
        b.step();
        assert_eq!(b.width, 5);
        assert_eq!(b.height, 4);
        assert_eq!(b.cells.len(), 20);
    }
}

#[test]
fn step_deterministic_same_input() {
    let cells = vec![
        Alive, Dead, Alive,
        Dead, Alive, Dead,
        Alive, Dead, Dead,
    ];
    let mut a = Board::from_cells(3, 3, cells.clone());
    let mut b = Board::from_cells(3, 3, cells);
    a.step();
    b.step();
    assert_eq!(a.cells, b.cells);
}

#[test]
fn neighbors_center_of_full_grid_is_eight() {
    let b = Board::from_cells(3, 3, vec![Alive; 9]);
    assert_eq!(b.count_neighbors_alive(4), 8);
}

#[test]
fn neighbors_corners_at_most_three() {
    let b = Board::from_cells(3, 3, vec![Alive; 9]);
    assert_eq!(b.count_neighbors_alive(0), 3);
    assert_eq!(b.count_neighbors_alive(2), 3);
    assert_eq!(b.count_neighbors_alive(6), 3);
    assert_eq!(b.count_neighbors_alive(8), 3);
}

#[test]
fn neighbors_edge_of_full_grid_is_five() {
    let b = Board::from_cells(3, 3, vec![Alive; 9]);
    assert_eq!(b.count_neighbors_alive(1), 5);
    assert_eq!(b.count_neighbors_alive(3), 5);
    assert_eq!(b.count_neighbors_alive(5), 5);
    assert_eq!(b.count_neighbors_alive(7), 5);
}

#[test]
fn neighbors_of_isolated_cell_is_zero() {
    let cells = vec![
        Dead, Dead, Dead,
        Dead, Alive, Dead,
        Dead, Dead, Dead,
    ];
    let b = Board::from_cells(3, 3, cells);
    assert_eq!(b.count_neighbors_alive(4), 0);
    assert_eq!(b.count_neighbors_alive(0), 1);
}

#[test]
fn new_zero_percentage_all_dead() {
    let b = Board::new(6, 7, 0);
    assert_eq!(b.width, 6);
    assert_eq!(b.height, 7);
    assert_eq!(b.cells, vec![Dead; 42]);
}

#[test]
fn new_has_exact_cell_count() {
    let b = Board::new(4, 4, 100);
    assert_eq!(b.cells.len(), 16);
}

#[test]
fn cell_is_alive_and_is_dead() {
    assert!(Alive.is_alive());
    assert!(!Alive.is_dead());
    assert!(Dead.is_dead());
    assert!(!Dead.is_alive());
}

#[test]
fn from_draw_follows_percentage() {
    assert_eq!(Cell::from_draw(0, 1), Alive);
    assert_eq!(Cell::from_draw(0, 0), Dead);
    assert_eq!(Cell::from_draw(99, 100), Alive);
    assert_eq!(Cell::from_draw(100, 100), Dead);
    assert_eq!(Cell::from_draw(49, 50), Alive);
    assert_eq!(Cell::from_draw(50, 50), Dead);
}
