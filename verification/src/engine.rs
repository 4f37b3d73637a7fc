//! The next-generation rule: neighbor counting and birth or survival.

use vstd::prelude::*;
use crate::grid::Grid;
use crate::grid::GridModel;

verus! {

/// Conway's rule for one cell: a live cell survives with two or three live
/// neighbors, a dead cell is born with exactly three.
pub open spec fn conway_rule(alive: bool, live_neighbors: nat) -> bool {
    live_neighbors == 3 || (alive && live_neighbors == 2)
}

impl GridModel {
    /// What the coordinate `(x, y)` adds to a neighbor count: one for a live
    /// cell, nothing for a dead cell or a coordinate off the grid.
    pub open spec fn occupancy(self, x: int, y: int) -> nat {
        if self.alive(x, y) {
            1
        } else {
            0
        }
    }

    /// Number of live cells among the eight positions adjacent to `(x, y)`.
    pub open spec fn live_neighbors(self, x: int, y: int) -> nat {
        self.occupancy(x - 1, y - 1) + self.occupancy(x, y - 1) + self.occupancy(x + 1, y - 1)
            + self.occupancy(x - 1, y) + self.occupancy(x + 1, y)
            + self.occupancy(x - 1, y + 1) + self.occupancy(x, y + 1) + self.occupancy(x + 1, y + 1)
    }

    /// State of `(x, y)` in the next generation. A coordinate off the grid stays dead.
    pub open spec fn next_cell(self, x: int, y: int) -> bool {
        self.in_bounds(x, y) && conway_rule(self.alive(x, y), self.live_neighbors(x, y))
    }

    /// The next generation: same dimensions, every cell replaced by `next_cell`
    /// computed on this generation.
    pub open spec fn step(self) -> GridModel {
        GridModel {
            width: self.width,
            height: self.height,
            cells: Seq::new(self.height, |y: int| Seq::new(self.width, |x: int| self.next_cell(x, y))),
        }
    }
}

/// One for a position on the grid, nothing for a position off it.
pub open spec fn on_grid(grid: GridModel, x: int, y: int) -> nat {
    if grid.in_bounds(x, y) {
        1
    } else {
        0
    }
}

/// Number of positions adjacent to `(x, y)` that lie on the grid.
pub open spec fn neighbors_on_grid(grid: GridModel, x: int, y: int) -> nat {
    on_grid(grid, x - 1, y - 1) + on_grid(grid, x, y - 1) + on_grid(grid, x + 1, y - 1)
        + on_grid(grid, x - 1, y) + on_grid(grid, x + 1, y)
        + on_grid(grid, x - 1, y + 1) + on_grid(grid, x, y + 1) + on_grid(grid, x + 1, y + 1)
}

/// Only cells of the grid are counted: a position outside
/// `[0, width) x [0, height)` adds nothing to any neighbor count, so a count
/// is at most the number of adjacent positions that lie on the grid, and
/// never more than eight.
pub proof fn lemma_off_grid_neighbors_are_dead(grid: GridModel, x: int, y: int)
    ensures
        forall|i: int, j: int| !grid.in_bounds(i, j) ==> #[trigger] grid.occupancy(i, j) == 0,
        grid.live_neighbors(x, y) <= neighbors_on_grid(grid, x, y) <= 8,
{
}

/// The next generation is a function of the current one: two runs of `step`
/// on grids with the same cells give grids with the same cells.
pub proof fn lemma_step_is_deterministic(a: Grid, b: Grid, next_a: Grid, next_b: Grid)
    requires
        a@ == b@,
        next_a@ == a@.step(),
        next_b@ == b@.step(),
    ensures
        next_a@ == next_b@,
{
}

/// A step keeps the dimensions and yields a rectangular matrix.
pub proof fn lemma_step_keeps_shape(grid: GridModel)
    ensures
        grid.step().wf(),
        grid.step().width == grid.width,
        grid.step().height == grid.height,
{
}

/// The birth and survival table, for every cell `(x, y)` of the grid:
/// with exactly three live neighbors the cell is alive in the next
/// generation whatever it was; a live cell with two or three live neighbors
/// survives; a live cell with any other count dies; a dead cell with a count
/// other than three stays dead.
pub proof fn lemma_birth_and_survival(grid: GridModel, x: int, y: int)
    requires
        grid.in_bounds(x, y),
    ensures
        grid.live_neighbors(x, y) == 3 ==> grid.step().alive(x, y),
        grid.alive(x, y) && (grid.live_neighbors(x, y) == 2 || grid.live_neighbors(x, y) == 3)
            ==> grid.step().alive(x, y),
        grid.alive(x, y) && grid.live_neighbors(x, y) != 2 && grid.live_neighbors(x, y) != 3
            ==> !grid.step().alive(x, y),
        !grid.alive(x, y) && grid.live_neighbors(x, y) != 3 ==> !grid.step().alive(x, y),
{
}

/// Reads the cell at signed coordinates. Negative coordinates and coordinates
/// past the last row or column are dead.
pub fn get_cell(grid: &Grid, x: i128, y: i128) -> (alive: bool)
    ensures
        alive == grid@.alive(x as int, y as int),
{
    if 0 <= x && x < grid.width() as i128 && 0 <= y && y < grid.height() as i128 {
        match grid.get(x as usize, y as usize) {
            Some(cell) => cell,
            None => false,
        }
    } else {
        false
    }
}

/// Counts the live cells among the eight neighbors of `(x, y)`. Neighbors off
/// the grid count as dead; there is no wraparound.
pub fn count_live_neighbors(grid: &Grid, x: usize, y: usize) -> (count: u8)
    ensures
        count == grid@.live_neighbors(x as int, y as int),
        count <= neighbors_on_grid(grid@, x as int, y as int) <= 8,
{
    let xi: i128 = x as i128;
    let yi: i128 = y as i128;
    let mut count: u8 = 0;
    if get_cell(grid, xi - 1, yi - 1) {
        count += 1;
    }
    if get_cell(grid, xi, yi - 1) {
        count += 1;
    }
    if get_cell(grid, xi + 1, yi - 1) {
        count += 1;
    }
    if get_cell(grid, xi - 1, yi) {
        count += 1;
    }
    if get_cell(grid, xi + 1, yi) {
        count += 1;
    }
    if get_cell(grid, xi - 1, yi + 1) {
        count += 1;
    }
    if get_cell(grid, xi, yi + 1) {
        count += 1;
    }
    if get_cell(grid, xi + 1, yi + 1) {
        count += 1;
    }
    count
}

/// State of the cell at `(x, y)` in the next generation, read from `grid`
/// alone. A coordinate off the grid is dead.
pub fn next_cell_state(grid: &Grid, x: usize, y: usize) -> (alive: bool)
    ensures
        alive == grid@.next_cell(x as int, y as int),
{
    let count: u8 = count_live_neighbors(grid, x, y);
    match grid.get(x, y) {
        Some(cell) => (cell && count >= 2 && count <= 3) || count == 3,
        None => false,
    }
}

/// Computes the next generation of `grid` as a new grid of the same
/// dimensions. The input is only read.
pub fn step(grid: &Grid) -> (next: Grid)
    ensures
        next@ == grid@.step(),
{
    let width: usize = grid.width();
    let height: usize = grid.height();
    let mut rows: Vec<Vec<bool>> = Vec::new();
    let mut y: usize = 0;
    while y < height
        invariant
            y <= height,
            width == grid@.width,
            height == grid@.height,
            rows@.len() == y,
            forall|j: int|
                0 <= j < y ==> (#[trigger] rows@[j])@ == Seq::new(
                    width as nat,
                    |x: int| grid@.next_cell(x, j),
                ),
        decreases height - y,
    {
        let mut row: Vec<bool> = Vec::new();
        let mut x: usize = 0;
        while x < width
            invariant
                x <= width,
                row@.len() == x,
                forall|i: int| 0 <= i < x ==> row@[i] == grid@.next_cell(i, y as int),
            decreases width - x,
        {
            row.push(next_cell_state(grid, x, y));
            x += 1;
        }
        assert(row@ =~= Seq::new(width as nat, |x: int| grid@.next_cell(x, y as int)));
        rows.push(row);
        y += 1;
    }
    assert(Grid::model_of(width, rows@).cells =~= grid@.step().cells);
    Grid::assemble(width, rows)
}

} // verus!
