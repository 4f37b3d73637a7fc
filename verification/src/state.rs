//! The current generation and the edits a user can make to it.

use vstd::prelude::*;
use rand::rngs::ThreadRng;
use crate::grid::Grid;
use crate::grid::GridModel;
use crate::grid::lemma_dead_grid;
use crate::grid::lemma_toggle_twice;
use crate::sampling::Probability;
use crate::sampling::sample_cell;

verus! {

impl GridModel {
    /// Whether `self` can come out of a random fill of a `width` by `height`
    /// grid with the given probability of life: the matrix is rectangular
    /// and has those dimensions; where the probability is one every cell is
    /// alive, where it is zero every cell is dead, and otherwise any pattern
    /// is possible.
    pub open spec fn is_random_fill(self, width: nat, height: nat, threshold: Probability) -> bool {
        &&& self.wf()
        &&& self.width == width
        &&& self.height == height
        &&& threshold.is_certain() ==> self == GridModel::uniform(width, height, true)
        &&& threshold.is_impossible() ==> self == GridModel::dead(width, height)
    }
}

/// A snapshot taken right after a resize to `width` by `height` shows
/// exactly `height` rows of `width` cells each, every one of them dead.
pub proof fn lemma_resize_then_snapshot(resized: GridState, snapshot: Grid, width: usize, height: usize)
    requires
        resized@ == GridModel::dead(width as nat, height as nat),
        snapshot@ == resized@,
    ensures
        snapshot@.wf(),
        snapshot@.width == width,
        snapshot@.height == height,
        snapshot@.cells.len() == height,
        forall|y: int| 0 <= y < height ==> (#[trigger] snapshot@.cells[y]).len() == width,
        forall|x: int, y: int| !#[trigger] snapshot@.alive(x, y),
{
    lemma_dead_grid(width as nat, height as nat);
}

/// Two flips of the same cell in a row give back the grid as it was before
/// the first.
pub proof fn lemma_toggle_cell_twice(before: GridState, once: GridState, twice: GridState, x: usize, y: usize)
    requires
        before@.wf(),
        once@ == before@.toggle(x as int, y as int),
        twice@ == once@.toggle(x as int, y as int),
    ensures
        twice@ == before@,
{
    lemma_toggle_twice(before@, x as int, y as int);
}

/// Draws a grid of `height` rows and `width` columns in which each cell is
/// alive with probability `threshold`, independently of the others.
pub fn random_grid(width: usize, height: usize, threshold: Probability) -> (grid: Grid)
    ensures
        grid@.is_random_fill(width as nat, height as nat, threshold),
{
    let mut rng: ThreadRng = rand::thread_rng();
    let mut rows: Vec<Vec<bool>> = Vec::new();
    let mut y: usize = 0;
    while y < height
        invariant
            y <= height,
            rows@.len() == y,
            forall|j: int| 0 <= j < y ==> (#[trigger] rows@[j])@.len() == width,
            threshold.is_certain() ==> forall|j: int|
                0 <= j < y ==> (#[trigger] rows@[j])@ == Seq::new(width as nat, |i: int| true),
            threshold.is_impossible() ==> forall|j: int|
                0 <= j < y ==> (#[trigger] rows@[j])@ == Seq::new(width as nat, |i: int| false),
        decreases height - y,
    {
        let mut row: Vec<bool> = Vec::new();
        let mut x: usize = 0;
        while x < width
            invariant
                x <= width,
                row@.len() == x,
                threshold.is_certain() ==> forall|i: int| 0 <= i < x ==> row@[i],
                threshold.is_impossible() ==> forall|i: int| 0 <= i < x ==> !row@[i],
            decreases width - x,
        {
            row.push(sample_cell(&mut rng, threshold));
            x += 1;
        }
        proof {
            if threshold.is_certain() {
                assert(row@ =~= Seq::new(width as nat, |i: int| true));
            }
            if threshold.is_impossible() {
                assert(row@ =~= Seq::new(width as nat, |i: int| false));
            }
        }
        rows.push(row);
        y += 1;
    }
    proof {
        let model = Grid::model_of(width, rows@);
        if threshold.is_certain() {
            assert(model.cells =~= GridModel::uniform(width as nat, height as nat, true).cells);
        }
        if threshold.is_impossible() {
            assert(model.cells =~= GridModel::dead(width as nat, height as nat).cells);
        }
    }
    Grid::assemble(width, rows)
}

/// Owner of the current generation.
pub struct GridState {
    current: Grid,
}

impl View for GridState {
    type V = GridModel;

    closed spec fn view(&self) -> GridModel {
        self.current@
    }
}

impl GridState {
    /// A state whose grid has no rows and no columns.
    pub fn new() -> (state: GridState)
        ensures
            state@ == GridModel::dead(0, 0),
    {
        GridState { current: Grid::dead(0, 0) }
    }

    /// Replaces the matrix with an all-dead one of `new_height` rows and
    /// `new_width` columns. The previous pattern is lost.
    pub fn resize(&mut self, new_width: usize, new_height: usize)
        ensures
            final(self)@ == GridModel::dead(new_width as nat, new_height as nat),
    {
        self.current = Grid::dead(new_width, new_height);
    }

    /// Replaces the matrix with one of the same dimensions in which each
    /// cell is drawn alive with probability `threshold`, independently.
    pub fn randomize(&mut self, threshold: Probability)
        ensures
            final(self)@.is_random_fill(old(self)@.width, old(self)@.height, threshold),
    {
        let width: usize = self.current.width();
        let height: usize = self.current.height();
        self.current = random_grid(width, height, threshold);
    }

    /// Flips the cell at column `x` of row `y` and reports whether the grid
    /// changed. A coordinate off the grid is ignored.
    pub fn toggle_cell(&mut self, x: usize, y: usize) -> (changed: bool)
        ensures
            changed == old(self)@.in_bounds(x as int, y as int),
            final(self)@ == old(self)@.toggle(x as int, y as int),
    {
        self.current.toggle(x, y)
    }

    /// Puts `next` in place of the current generation.
    pub fn replace(&mut self, next: Grid)
        ensures
            final(self)@ == next@,
    {
        self.current = next;
    }

    /// The current generation, for reading.
    pub fn snapshot(&self) -> (grid: &Grid)
        ensures
            grid@ == self@,
    {
        &self.current
    }
}

} // verus!
