use game_of_life::grid::Grid;
use game_of_life::sampling::Probability;
use game_of_life::state::random_grid;
use game_of_life::state::GridState;

fn count_alive(grid: &Grid) -> usize {
    grid.rows().iter().map(|row| row.iter().filter(|cell| **cell).count()).sum()
}

#[test]
fn probability_keeps_its_ratio() {
    let p = Probability::new(3, 4).expect("three in four");
    assert_eq!(p.numerator(), 3);
    assert_eq!(p.denominator(), 4);
    let zero = Probability::new(0, 1).expect("never");
    assert_eq!((zero.numerator(), zero.denominator()), (0, 1));
    let one = Probability::new(u32::MAX, u32::MAX).expect("always");
    assert_eq!((one.numerator(), one.denominator()), (u32::MAX, u32::MAX));
}

#[test]
fn probability_refuses_zero_denominator() {
    assert!(Probability::new(0, 0).is_none());
    assert!(Probability::new(1, 0).is_none());
}

#[test]
fn probability_refuses_more_than_one() {
    assert!(Probability::new(2, 1).is_none());
    assert!(Probability::new(101, 100).is_none());
}

#[test]
fn half_is_one_in_two() {
    let half = Probability::half();
    assert_eq!((half.numerator(), half.denominator()), (1, 2));
}

#[test]
fn certain_life_fills_the_grid() {
    let always = Probability::new(7, 7).expect("always");
    let grid = random_grid(6, 4, always);
    assert_eq!(grid.rows(), &vec![vec![true; 6]; 4]);
}

#[test]
fn impossible_life_leaves_the_grid_dead() {
    let never = Probability::new(0, 7).expect("never");
    let grid = random_grid(6, 4, never);
    assert_eq!(grid.rows(), &vec![vec![false; 6]; 4]);
}

#[test]
fn random_grid_has_the_requested_shape() {
    let grid = random_grid(9, 5, Probability::half());
    assert_eq!(grid.width(), 9);
    assert_eq!(grid.height(), 5);
    assert_eq!(grid.rows().len(), 5);
    assert!(grid.rows().iter().all(|row| row.len() == 9));
    let empty = random_grid(0, 0, Probability::half());
    assert_eq!((empty.width(), empty.height()), (0, 0));
    let no_columns = random_grid(0, 3, Probability::half());
    assert_eq!(no_columns.rows(), &vec![Vec::<bool>::new(); 3]);
}

#[test]
fn even_odds_give_both_states() {
    let grid = random_grid(64, 64, Probability::half());
    let alive = count_alive(&grid);
    assert!(alive > 0, "4096 fair coins all came up dead");
    assert!(alive < 64 * 64, "4096 fair coins all came up alive");
}

#[test]
fn odds_shape_the_population() {
    let rare = Probability::new(1, 100).expect("one in a hundred");
    let common = Probability::new(99, 100).expect("ninety-nine in a hundred");
    let sparse = count_alive(&random_grid(100, 100, rare));
    let dense = count_alive(&random_grid(100, 100, common));
    assert!(sparse < 5000, "{} of 10000 alive at odds 1/100", sparse);
    assert!(dense > 5000, "{} of 10000 alive at odds 99/100", dense);
}

#[test]
fn randomize_keeps_the_dimensions() {
    let mut state = GridState::new();
    state.resize(8, 3);
    state.randomize(Probability::half());
    assert_eq!(state.snapshot().width(), 8);
    assert_eq!(state.snapshot().height(), 3);
    assert!(state.snapshot().rows().iter().all(|row| row.len() == 8));
    state.randomize(Probability::new(1, 1).expect("always"));
    assert_eq!(state.snapshot().rows(), &vec![vec![true; 8]; 3]);
    state.randomize(Probability::new(0, 1).expect("never"));
    assert_eq!(state.snapshot().rows(), &vec![vec![false; 8]; 3]);
}
