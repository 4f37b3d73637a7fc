use game_of_life::grid::Grid;
use game_of_life::state::GridState;

#[test]
fn dead_grid_has_the_requested_shape() {
    let grid = Grid::dead(4, 2);
    assert_eq!(grid.width(), 4);
    assert_eq!(grid.height(), 2);
    assert_eq!(grid.rows(), &vec![vec![false; 4]; 2]);
}

#[test]
fn from_rows_accepts_a_rectangle() {
    let rows = vec![vec![true, false], vec![false, true], vec![true, true]];
    let grid = Grid::from_rows(2, rows.clone()).expect("a rectangle");
    assert_eq!(grid.width(), 2);
    assert_eq!(grid.height(), 3);
    assert_eq!(grid.rows(), &rows);
    assert_eq!(grid.get(0, 0), Some(true));
    assert_eq!(grid.get(1, 0), Some(false));
    assert_eq!(grid.get(0, 1), Some(false));
    assert_eq!(grid.get(1, 2), Some(true));
}

#[test]
fn from_rows_refuses_ragged_rows() {
    assert!(Grid::from_rows(2, vec![vec![true, false], vec![false]]).is_none());
    assert!(Grid::from_rows(2, vec![vec![true, false, true]]).is_none());
    assert!(Grid::from_rows(3, vec![vec![true, false], vec![false, true]]).is_none());
}

#[test]
fn from_rows_without_rows_keeps_the_width() {
    let grid = Grid::from_rows(5, Vec::new()).expect("no rows to be ragged");
    assert_eq!(grid.width(), 5);
    assert_eq!(grid.height(), 0);
    assert_eq!(grid.get(0, 0), None);
}

#[test]
fn get_is_none_off_the_grid() {
    let grid = Grid::dead(2, 3);
    assert_eq!(grid.get(1, 2), Some(false));
    assert_eq!(grid.get(2, 0), None);
    assert_eq!(grid.get(0, 3), None);
    assert_eq!(grid.get(usize::MAX, usize::MAX), None);
}

#[test]
fn toggle_flips_exactly_one_cell() {
    let mut grid = Grid::dead(3, 2);
    assert!(grid.toggle(2, 1));
    assert_eq!(grid.rows(), &vec![vec![false, false, false], vec![false, false, true]]);
    assert_eq!(grid.width(), 3);
    assert_eq!(grid.height(), 2);
    assert!(grid.toggle(0, 0));
    assert_eq!(grid.rows(), &vec![vec![true, false, false], vec![false, false, true]]);
}

#[test]
fn toggle_off_the_grid_changes_nothing() {
    let mut grid = Grid::dead(3, 2);
    assert!(!grid.toggle(3, 0));
    assert!(!grid.toggle(0, 2));
    assert!(!grid.toggle(usize::MAX, usize::MAX));
    assert_eq!(grid.rows(), &vec![vec![false; 3]; 2]);
}

#[test]
fn new_state_is_empty() {
    let state = GridState::new();
    assert_eq!(state.snapshot().width(), 0);
    assert_eq!(state.snapshot().height(), 0);
    assert!(state.snapshot().rows().is_empty());
}

#[test]
fn resize_then_snapshot_is_all_dead() {
    let mut state = GridState::new();
    state.resize(4, 3);
    let snapshot = state.snapshot();
    assert_eq!(snapshot.width(), 4);
    assert_eq!(snapshot.height(), 3);
    assert_eq!(snapshot.rows().len(), 3);
    for row in snapshot.rows() {
        assert_eq!(row, &vec![false; 4]);
    }
}

#[test]
fn resize_discards_the_pattern() {
    let mut state = GridState::new();
    state.resize(2, 2);
    assert!(state.toggle_cell(1, 1));
    state.resize(2, 2);
    assert_eq!(state.snapshot().rows(), &vec![vec![false; 2]; 2]);
}

#[test]
fn resize_to_nothing_is_fine() {
    let mut state = GridState::new();
    state.resize(3, 3);
    state.resize(0, 0);
    assert_eq!(state.snapshot().width(), 0);
    assert_eq!(state.snapshot().height(), 0);
    state.resize(0, 2);
    assert_eq!(state.snapshot().rows(), &vec![Vec::<bool>::new(); 2]);
    state.resize(6, 0);
    assert_eq!(state.snapshot().width(), 6);
    assert!(state.snapshot().rows().is_empty());
}

#[test]
fn toggle_cell_twice_restores_the_cell() {
    let mut state = GridState::new();
    state.resize(3, 3);
    assert!(state.toggle_cell(0, 2));
    let before: Vec<Vec<bool>> = state.snapshot().rows().clone();
    assert!(state.toggle_cell(1, 1));
    assert_eq!(state.snapshot().get(1, 1), Some(true));
    assert!(state.toggle_cell(1, 1));
    assert_eq!(state.snapshot().get(1, 1), Some(false));
    assert_eq!(state.snapshot().rows(), &before);
}

#[test]
fn toggle_cell_out_of_bounds_signals_no_change() {
    let mut state = GridState::new();
    assert!(!state.toggle_cell(0, 0));
    state.resize(5, 5);
    assert!(!state.toggle_cell(10, 10));
    assert!(!state.toggle_cell(5, 0));
    assert!(!state.toggle_cell(0, 5));
    assert_eq!(state.snapshot().rows(), &vec![vec![false; 5]; 5]);
}

#[test]
fn replace_installs_the_given_grid() {
    let mut state = GridState::new();
    let rows = vec![vec![true, false, true]];
    state.replace(Grid::from_rows(3, rows.clone()).expect("one row"));
    assert_eq!(state.snapshot().rows(), &rows);
    assert_eq!(state.snapshot().width(), 3);
    assert_eq!(state.snapshot().height(), 1);
}
