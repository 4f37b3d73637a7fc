//! The cell matrix and its mathematical model.

use vstd::prelude::*;

verus! {

/// Mathematical model of a grid: its dimensions and its rows of cells.
/// Row index is `y`, column index is `x`; `true` is a live cell.
pub struct GridModel {
    pub width: nat,
    pub height: nat,
    pub cells: Seq<Seq<bool>>,
}

impl GridModel {
    /// The matrix is rectangular: `height` rows of `width` cells each.
    pub open spec fn wf(self) -> bool {
        &&& self.cells.len() == self.height
        &&& forall|y: int| 0 <= y < self.height ==> (#[trigger] self.cells[y]).len() == self.width
    }

    /// Whether `(x, y)` names a cell of the grid.
    pub open spec fn in_bounds(self, x: int, y: int) -> bool {
        0 <= x < self.width && 0 <= y < self.height
    }

    /// Whether the cell at `(x, y)` is alive. Every coordinate off the grid is dead.
    pub open spec fn alive(self, x: int, y: int) -> bool {
        self.in_bounds(x, y) && self.cells[y][x]
    }

    /// The grid with the cell at `(x, y)` flipped. A coordinate off the grid
    /// changes nothing.
    pub open spec fn toggle(self, x: int, y: int) -> GridModel {
        if self.in_bounds(x, y) {
            GridModel { cells: self.cells.update(y, self.cells[y].update(x, !self.cells[y][x])), ..self }
        } else {
            self
        }
    }

    /// The grid of the given dimensions in which every cell has the same state.
    pub open spec fn uniform(width: nat, height: nat, alive: bool) -> GridModel {
        GridModel {
            width,
            height,
            cells: Seq::new(height, |y: int| Seq::new(width, |x: int| alive)),
        }
    }

    /// The grid of the given dimensions in which every cell is dead.
    pub open spec fn dead(width: nat, height: nat) -> GridModel {
        Self::uniform(width, height, false)
    }
}

/// An all-dead grid is rectangular, has the dimensions it was asked for, and
/// holds no live cell.
pub proof fn lemma_dead_grid(width: nat, height: nat)
    ensures
        GridModel::dead(width, height).wf(),
        GridModel::dead(width, height).width == width,
        GridModel::dead(width, height).height == height,
        GridModel::dead(width, height).cells.len() == height,
        forall|y: int|
            0 <= y < height ==> (#[trigger] GridModel::dead(width, height).cells[y]).len() == width,
        forall|x: int, y: int| !#[trigger] GridModel::dead(width, height).alive(x, y),
{
}

/// Flipping a cell changes that cell and no other, and keeps the matrix
/// rectangular.
pub proof fn lemma_toggle_flips_one_cell(grid: GridModel, x: int, y: int)
    requires
        grid.wf(),
        grid.in_bounds(x, y),
    ensures
        grid.toggle(x, y).wf(),
        grid.toggle(x, y).width == grid.width,
        grid.toggle(x, y).height == grid.height,
        grid.toggle(x, y).alive(x, y) == !grid.alive(x, y),
        forall|i: int, j: int|
            (i != x || j != y) ==> #[trigger] grid.toggle(x, y).alive(i, j) == grid.alive(i, j),
{
}

/// Flipping the same cell twice gives back the grid one started with.
pub proof fn lemma_toggle_twice(grid: GridModel, x: int, y: int)
    requires
        grid.wf(),
    ensures
        grid.toggle(x, y).toggle(x, y) == grid,
{
    assert(grid.toggle(x, y).toggle(x, y).cells =~~= grid.cells);
}

/// A rectangular matrix of cells.
pub struct Grid {
    width: usize,
    height: usize,
    cells: Vec<Vec<bool>>,
}

impl View for Grid {
    type V = GridModel;

    closed spec fn view(&self) -> GridModel {
        GridModel {
            width: self.width as nat,
            height: self.height as nat,
            cells: Seq::new(self.cells@.len(), |y: int| self.cells@[y]@),
        }
    }
}

impl Grid {
    /// Every grid is rectangular.
    #[verifier::type_invariant]
    pub open spec fn inv(&self) -> bool {
        self@.wf()
    }

    /// An all-dead grid of `height` rows and `width` columns.
    pub fn dead(width: usize, height: usize) -> (grid: Grid)
        ensures
            grid@ == GridModel::dead(width as nat, height as nat),
    {
        let mut cells: Vec<Vec<bool>> = Vec::new();
        let mut y: usize = 0;
        while y < height
            invariant
                y <= height,
                cells@.len() == y,
                forall|j: int| 0 <= j < y ==> (#[trigger] cells@[j])@ == Seq::new(width as nat, |x: int| false),
            decreases height - y,
        {
            let row: Vec<bool> = vec![false; width];
            assert(row@ =~= Seq::new(width as nat, |x: int| false));
            cells.push(row);
            y += 1;
        }
        let grid = Grid { width, height, cells };
        assert(grid@.cells =~= GridModel::dead(width as nat, height as nat).cells);
        grid
    }

    /// The model of a matrix given by its rows and its declared width.
    pub open spec fn model_of(width: usize, rows: Seq<Vec<bool>>) -> GridModel {
        GridModel {
            width: width as nat,
            height: rows.len(),
            cells: Seq::new(rows.len(), |y: int| rows[y]@),
        }
    }

    /// Wraps rows that are already known to be `width` cells long each.
    pub(crate) fn assemble(width: usize, rows: Vec<Vec<bool>>) -> (grid: Grid)
        requires
            Self::model_of(width, rows@).wf(),
        ensures
            grid@ == Self::model_of(width, rows@),
    {
        let height: usize = rows.len();
        Grid { width, height, cells: rows }
    }

    /// Builds a grid from its rows, top row first. Succeeds exactly when every
    /// row is `width` cells long.
    pub fn from_rows(width: usize, rows: Vec<Vec<bool>>) -> (grid: Option<Grid>)
        ensures
            grid is Some <==> Self::model_of(width, rows@).wf(),
            grid matches Some(g) ==> g@ == Self::model_of(width, rows@),
    {
        let ghost model = Self::model_of(width, rows@);
        let height: usize = rows.len();
        let mut y: usize = 0;
        while y < height
            invariant
                y <= height,
                height == rows@.len(),
                model == Self::model_of(width, rows@),
                forall|j: int| 0 <= j < y ==> (#[trigger] model.cells[j]).len() == width,
            decreases height - y,
        {
            if rows[y].len() != width {
                assert(model.cells[y as int].len() != width);
                return None;
            }
            y += 1;
        }
        Some(Self::assemble(width, rows))
    }

    /// The rows of the matrix, top row first.
    pub fn rows(&self) -> (rows: &Vec<Vec<bool>>)
        ensures
            rows@.len() == self@.height,
            forall|y: int| 0 <= y < self@.height ==> (#[trigger] rows@[y])@ == self@.cells[y],
    {
        proof {
            use_type_invariant(self);
        }
        &self.cells
    }

    /// Number of columns.
    pub fn width(&self) -> (width: usize)
        ensures
            width == self@.width,
    {
        self.width
    }

    /// Number of rows.
    pub fn height(&self) -> (height: usize)
        ensures
            height == self@.height,
    {
        self.height
    }

    /// Flips the cell at column `x` of row `y` in place and reports whether a
    /// cell was flipped. A coordinate off the grid leaves the grid as it is.
    pub fn toggle(&mut self, x: usize, y: usize) -> (changed: bool)
        ensures
            changed == old(self)@.in_bounds(x as int, y as int),
            final(self)@ == old(self)@.toggle(x as int, y as int),
    {
        proof {
            use_type_invariant(&*self);
        }
        if y < self.height && x < self.width {
            assert(self@.cells[y as int].len() == self.width);
            // The matrix is moved out while the cell is flipped, so that
            // `self` holds a rectangular matrix at every point.
            let mut taken = Grid { width: 0, height: 0, cells: Vec::new() };
            std::mem::swap(self, &mut taken);
            let Grid { width, height, cells: mut cells } = taken;
            let cell: bool = cells[y][x];
            cells[y][x] = !cell;
            assert(Self::model_of(width, cells@).cells =~~= old(self)@.toggle(x as int, y as int).cells);
            *self = Grid { width, height, cells };
            true
        } else {
            false
        }
    }

    /// The cell at column `x` of row `y`, or `None` where the grid has no such cell.
    pub fn get(&self, x: usize, y: usize) -> (cell: Option<bool>)
        ensures
            cell == (if self@.in_bounds(x as int, y as int) {
                Some(self@.cells[y as int][x as int])
            } else {
                None::<bool>
            }),
    {
        proof {
            use_type_invariant(self);
        }
        if y < self.height && x < self.width {
            assert(self@.cells[y as int].len() == self.width);
            Some(self.cells[y][x])
        } else {
            None
        }
    }
}

} // verus!
