//! The step grid: a fixed-size matrix of boolean "step enabled" flags.

use vstd::arithmetic::div_mod::{
    lemma_fundamental_div_mod, lemma_fundamental_div_mod_converse, lemma_mod_pos_bound,
};
use vstd::prelude::*;

verus! {

/// The mathematical content of a [`Grid`]: its dimensions and its rows of
/// flags, `rows[y][x]` being the flag of the cell in column `x` of row `y`.
pub struct GridModel {
    pub width: nat,
    pub height: nat,
    pub rows: Seq<Seq<bool>>,
}

impl GridModel {
    /// There are `height` rows and each of them has `width` cells.
    pub open spec fn wf(self) -> bool {
        &&& self.rows.len() == self.height
        &&& forall|y: int| 0 <= y < self.height ==> (#[trigger] self.rows[y]).len() == self.width
    }

    /// `(x, y)` names a cell of the grid.
    pub open spec fn in_bounds(self, x: int, y: int) -> bool {
        0 <= x < self.width && 0 <= y < self.height
    }

    /// The flag of cell `(x, y)`; a position outside the grid reads as disabled.
    pub open spec fn get(self, x: int, y: int) -> bool {
        self.in_bounds(x, y) && self.rows[y][x]
    }

    /// The grid with cell `(x, y)` set to `value`; the grid itself where
    /// `(x, y)` lies outside it.
    pub open spec fn set(self, x: int, y: int, value: bool) -> GridModel {
        if self.in_bounds(x, y) {
            GridModel { rows: self.rows.update(y, self.rows[y].update(x, value)), ..self }
        } else {
            self
        }
    }

    /// The grid with cell `(x, y)` inverted.
    pub open spec fn toggle(self, x: int, y: int) -> GridModel {
        self.set(x, y, !self.get(x, y))
    }

    /// The grid of the given dimensions whose cells all hold `value`.
    pub open spec fn uniform(width: nat, height: nat, value: bool) -> GridModel {
        GridModel {
            width,
            height,
            rows: Seq::new(height, |y: int| Seq::new(width, |x: int| value)),
        }
    }

    /// The number of steps of one pass through the grid.
    pub open spec fn step_count(self) -> nat {
        self.width * self.height
    }

    /// The column of step `p` of the row-major traversal: `p mod width`.
    pub open spec fn column_of(self, p: int) -> int {
        p % (self.width as int)
    }

    /// The row of step `p` of the row-major traversal: `p div width`.
    pub open spec fn row_of(self, p: int) -> int {
        p / (self.width as int)
    }

    /// Whether step `p` of the row-major traversal is enabled.
    pub open spec fn step_enabled(self, p: int) -> bool {
        self.get(self.column_of(p), self.row_of(p))
    }

    /// The flags in row-major order, indexed like the playback cursor.
    pub open spec fn flatten(self) -> Seq<bool> {
        Seq::new(self.step_count(), |p: int| self.step_enabled(p))
    }
}

/// Writing a cell keeps the grid's shape, and a read right after the write
/// agrees with it: the written cell reads as the value written, unless it
/// lies outside the grid, where it reads as disabled; every other cell reads
/// as it did before.
pub proof fn lemma_get_after_set(g: GridModel, x: int, y: int, value: bool, i: int, j: int)
    requires
        g.wf(),
    ensures
        g.set(x, y, value).wf(),
        g.set(x, y, value).width == g.width,
        g.set(x, y, value).height == g.height,
        g.in_bounds(x, y) ==> g.set(x, y, value).get(x, y) == value,
        g.set(x, y, value).get(i, j) == if i == x && j == y {
            g.in_bounds(x, y) && value
        } else {
            g.get(i, j)
        },
{
}

/// A uniform grid has the shape it was asked for, and each of its cells
/// reads as the value it was made of; so after a clear every read is
/// `false`, and after a fill every read inside the grid is `true`.
pub proof fn lemma_uniform_get(width: nat, height: nat, value: bool, x: int, y: int)
    ensures
        GridModel::uniform(width, height, value).wf(),
        GridModel::uniform(width, height, value).get(x, y) == (0 <= x < width && 0 <= y < height
            && value),
{
}

/// Toggling the same cell twice gives the grid back as it was.
pub proof fn lemma_toggle_twice(g: GridModel, x: int, y: int)
    requires
        g.wf(),
    ensures
        g.toggle(x, y).toggle(x, y) == g,
{
    if g.in_bounds(x, y) {
        let once = g.toggle(x, y);
        let twice = once.toggle(x, y);
        assert(twice.rows[y] =~= g.rows[y]);
        assert(twice.rows =~= g.rows);
    }
}

/// Step `p` of a pass through the grid is the cell in column `p mod width`
/// of row `p div width`: that cell lies inside the grid, `p` is its
/// row-major index, and the flattened grid holds its flag at index `p`.
pub proof fn lemma_step_to_cell(g: GridModel, p: int)
    requires
        0 <= p < g.step_count(),
    ensures
        g.in_bounds(g.column_of(p), g.row_of(p)),
        g.row_of(p) * g.width + g.column_of(p) == p,
        g.flatten()[p] == g.get(g.column_of(p), g.row_of(p)),
{
    let w = g.width as int;
    let h = g.height as int;
    assert(w > 0) by (nonlinear_arith)
        requires
            0 <= p < w * h,
            0 <= w,
    ;
    lemma_fundamental_div_mod(p, w);
    lemma_mod_pos_bound(p, w);
    assert(p / w < h) by (nonlinear_arith)
        requires
            p == w * (p / w) + p % w,
            0 <= p % w,
            p < w * h,
            w > 0,
    ;
}

/// Cell `(x, y)` of the grid is step `y * width + x` of a pass through it:
/// the row-major traversal visits every cell, and each cell once.
pub proof fn lemma_cell_to_step(g: GridModel, x: int, y: int)
    requires
        g.in_bounds(x, y),
    ensures
        0 <= y * g.width + x < g.step_count(),
        g.column_of(y * g.width + x) == x,
        g.row_of(y * g.width + x) == y,
        g.flatten()[y * g.width + x] == g.get(x, y),
{
    let w = g.width as int;
    let h = g.height as int;
    let p = y * w + x;
    assert(0 <= p < w * h) by (nonlinear_arith)
        requires
            p == y * w + x,
            0 <= x < w,
            0 <= y < h,
    ;
    assert(p == w * y + x) by (nonlinear_arith)
        requires
            p == y * w + x,
    ;
    lemma_fundamental_div_mod_converse(p, w, y, x);
}

/// A `width` by `height` matrix of step flags.
///
/// No operation fails: reading outside the grid yields `false`, writing
/// outside it does nothing.
#[derive(Debug)]
pub struct Grid {
    cells: Vec<Vec<bool>>,
    width: usize,
    height: usize,
}

impl View for Grid {
    type V = GridModel;

    closed spec fn view(&self) -> GridModel {
        GridModel {
            width: self.width as nat,
            height: self.height as nat,
            rows: rows_of(self.cells),
        }
    }
}

/// The rows that a vector of rows holds.
spec fn rows_of(cells: Vec<Vec<bool>>) -> Seq<Seq<bool>> {
    Seq::new(cells@.len(), |y: int| cells@[y]@)
}

/// `cells` holds `height` rows of `width` cells each.
spec fn shaped(cells: Vec<Vec<bool>>, width: usize, height: usize) -> bool {
    &&& cells@.len() == height
    &&& forall|y: int| 0 <= y < height ==> (#[trigger] cells@[y])@.len() == width
}

impl Clone for Grid {
    /// A grid of the same dimensions with the same flags.
    fn clone(&self) -> (copy: Self)
        ensures
            copy@ == self@,
    {
        proof {
            use_type_invariant(self);
        }
        let cells = self.cells.clone();
        proof {
            assert forall|y: int| 0 <= y < self.height implies (#[trigger] cells@[y])@
                == self.cells@[y]@ by {
                assert(cells@[y]@ =~= self.cells@[y]@);
            }
            assert(rows_of(cells) =~~= rows_of(self.cells));
        }
        Grid { cells, width: self.width, height: self.height }
    }
}

impl Grid {
    #[verifier::type_invariant]
    spec fn rectangular(&self) -> bool {
        shaped(self.cells, self.width, self.height)
    }

    /// A grid of the given dimensions with every step enabled.
    pub fn new(width: usize, height: usize) -> (grid: Self)
        ensures
            grid@ == GridModel::uniform(width as nat, height as nat, true),
            grid@.wf(),
    {
        let mut cells: Vec<Vec<bool>> = Vec::new();
        let mut y: usize = 0;
        while y < height
            invariant
                y <= height,
                cells@.len() == y,
                forall|j: int|
                    0 <= j < y ==> (#[trigger] cells@[j])@ == Seq::new(width as nat, |x: int| true),
            decreases height - y,
        {
            let mut row: Vec<bool> = Vec::new();
            let mut x: usize = 0;
            while x < width
                invariant
                    x <= width,
                    row@ == Seq::new(x as nat, |i: int| true),
                decreases width - x,
            {
                row.push(true);
                x += 1;
            }
            cells.push(row);
            y += 1;
        }
        assert(rows_of(cells) =~~= GridModel::uniform(width as nat, height as nat, true).rows);
        Grid { cells, width, height }
    }

    /// The number of columns.
    pub fn width(&self) -> (w: usize)
        ensures
            w == self@.width,
            self@.wf(),
    {
        proof {
            use_type_invariant(self);
        }
        self.width
    }

    /// The number of rows.
    pub fn height(&self) -> (h: usize)
        ensures
            h == self@.height,
            self@.wf(),
    {
        proof {
            use_type_invariant(self);
        }
        self.height
    }

    /// The flag of cell `(x, y)`, or `false` where `(x, y)` lies outside the grid.
    pub fn get(&self, x: usize, y: usize) -> (enabled: bool)
        ensures
            enabled == self@.get(x as int, y as int),
    {
        proof {
            use_type_invariant(self);
        }
        if y < self.height && x < self.width {
            self.cells[y][x]
        } else {
            false
        }
    }

    /// Sets cell `(x, y)` to `value`; does nothing where `(x, y)` lies
    /// outside the grid.
    pub fn set(&mut self, x: usize, y: usize, value: bool)
        ensures
            final(self)@ == old(self)@.set(x as int, y as int, value),
            final(self)@.wf(),
    {
        proof {
            use_type_invariant(&*self);
        }
        if y < self.height && x < self.width {
            let width = self.width;
            let height = self.height;
            let mut cells = self.take_cells();
            cells[y][x] = value;
            assert(rows_of(cells) =~~= old(self)@.rows.update(
                y as int,
                old(self)@.rows[y as int].update(x as int, value),
            ));
            *self = Grid { cells, width, height };
        }
    }

    /// Inverts cell `(x, y)`; does nothing where `(x, y)` lies outside the grid.
    pub fn toggle(&mut self, x: usize, y: usize)
        ensures
            final(self)@ == old(self)@.toggle(x as int, y as int),
            final(self)@.wf(),
    {
        let current = self.get(x, y);
        self.set(x, y, !current);
    }

    /// Disables every step.
    pub fn clear(&mut self)
        ensures
            final(self)@ == GridModel::uniform(old(self)@.width, old(self)@.height, false),
            final(self)@.wf(),
    {
        self.overwrite(false);
    }

    /// Enables every step.
    pub fn fill(&mut self)
        ensures
            final(self)@ == GridModel::uniform(old(self)@.width, old(self)@.height, true),
            final(self)@.wf(),
    {
        self.overwrite(true);
    }

    /// Moves the rows out of the grid and leaves an empty grid behind, for
    /// the caller to edit the rows and build the grid anew.
    fn take_cells(&mut self) -> (cells: Vec<Vec<bool>>)
        ensures
            cells == old(self).cells,
    {
        let mut taken = Grid { cells: Vec::new(), width: 0, height: 0 };
        std::mem::swap(self, &mut taken);
        taken.cells
    }

    /// Sets every cell to `value`.
    fn overwrite(&mut self, value: bool)
        ensures
            final(self)@ == GridModel::uniform(old(self)@.width, old(self)@.height, value),
            final(self)@.wf(),
    {
        proof {
            use_type_invariant(&*self);
        }
        let width = self.width;
        let height = self.height;
        let mut cells = self.take_cells();
        let mut y: usize = 0;
        while y < height
            invariant
                y <= height,
                shaped(cells, width, height),
                forall|j: int, i: int|
                    0 <= j < y && 0 <= i < width ==> (#[trigger] cells@[j]@[i]) == value,
            decreases height - y,
        {
            let mut x: usize = 0;
            while x < width
                invariant
                    y < height,
                    x <= width,
                    shaped(cells, width, height),
                    forall|j: int, i: int|
                        0 <= j < y && 0 <= i < width ==> (#[trigger] cells@[j]@[i]) == value,
                    forall|i: int| 0 <= i < x ==> (#[trigger] cells@[y as int]@[i]) == value,
                decreases width - x,
            {
                cells[y][x] = value;
                x += 1;
            }
            y += 1;
        }
        assert(rows_of(cells) =~~= GridModel::uniform(width as nat, height as nat, value).rows);
        *self = Grid { cells, width, height };
    }
}

} // verus!
