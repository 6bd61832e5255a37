//! The mathematical model of a board: a row-major sequence of cells with its
//! dimensions, its bottom-edge policy and its parity bit. Every contract of
//! the board is stated over this model.

use vstd::prelude::*;

use crate::falling_sand::elements::{fresh_cell, Element, ElementType};

verus! {

/// A board as a mathematical value.
pub struct Grid {
    /// The cells, row by row, top row first.
    pub cells: Seq<Element>,
    pub width: int,
    pub height: int,
    /// Whether the bottom edge is a solid floor (otherwise it is a drain).
    pub is_floor: bool,
    /// The parity bit of the sweep in progress.
    pub parity: bool,
}

/// The cell `cell` marked as handled in a sweep of parity `parity`.
pub open spec fn marked(cell: Element, parity: bool) -> Element {
    Element { update_toggle: parity, ..cell }
}

/// The cell `cell` looking the other way.
pub open spec fn turned(cell: Element) -> Element {
    Element { direction: !cell.direction, ..cell }
}

/// An index, or none, as the model counts it.
pub open spec fn lifted(index: Option<usize>) -> Option<int> {
    match index {
        Some(j) => Some(j as int),
        None => None,
    }
}

/// Row-major index of the position `(x, y)` on a grid `width` cells wide.
pub open spec fn index_at(width: int, x: int, y: int) -> int {
    y * width + x
}

/// The position `(x, y)` of the row-major index `index`.
pub open spec fn coords_at(width: int, index: int) -> (int, int) {
    (index % width, index / width)
}

impl Grid {
    /// The dimensions match the cells, and no cell holds the sentinel.
    pub open spec fn wf(self) -> bool {
        &&& 0 <= self.width
        &&& 0 <= self.height
        &&& self.cells.len() == self.width * self.height
        &&& forall|i: int|
            0 <= i < self.cells.len() ==> (#[trigger] self.cells[i]).element_type
                != ElementType::ScreenEdge
    }

    /// Whether `(x, y)` is a position on the grid.
    pub open spec fn in_bounds(self, x: int, y: int) -> bool {
        0 <= x < self.width && 0 <= y < self.height
    }

    /// The row-major index of the position `(x, y)`.
    pub open spec fn index_of(self, x: int, y: int) -> int {
        index_at(self.width, x, y)
    }

    /// The column of the cell at `index`.
    pub open spec fn column(self, index: int) -> int {
        index % self.width
    }

    /// The row of the cell at `index`.
    pub open spec fn row(self, index: int) -> int {
        index / self.width
    }

    /// The material at `index`.
    pub open spec fn material(self, index: int) -> ElementType {
        self.cells[index].element_type
    }

    /// The index of the cell `(dx, dy)` away from `index`, if that position
    /// is on the grid.
    pub open spec fn relative(self, index: int, dx: int, dy: int) -> Option<int> {
        let x = self.column(index) + dx;
        let y = self.row(index) + dy;
        if self.in_bounds(x, y) {
            Some(self.index_of(x, y))
        } else {
            None
        }
    }

    /// The grid with `cell` written at `index`.
    pub open spec fn set(self, index: int, cell: Element) -> Grid {
        Grid { cells: self.cells.update(index, cell), ..self }
    }

    /// The grid with the cell at `index` marked as handled in this sweep.
    pub open spec fn mark(self, index: int) -> Grid {
        self.set(index, marked(self.cells[index], self.parity))
    }

    /// The grid with the cell at `index` looking the other way.
    pub open spec fn turn(self, index: int) -> Grid {
        self.set(index, turned(self.cells[index]))
    }

    /// The grid with the cell at `index` deleted: a default empty cell,
    /// marked as handled.
    pub open spec fn erase(self, index: int) -> Grid {
        self.set(index, marked(fresh_cell(ElementType::Empty, false), self.parity))
    }

    /// The particle at `from` moves into `to` and is marked as handled; what
    /// was at `to` takes its place, untouched.
    pub open spec fn move_to(self, from: int, to: int) -> Grid {
        Grid {
            cells: self.cells.update(from, self.cells[to]).update(
                to,
                marked(self.cells[from], self.parity),
            ),
            ..self
        }
    }

    /// The cells at `from` and `to` change places and both are marked as
    /// handled.
    pub open spec fn exchange(self, from: int, to: int) -> Grid {
        Grid {
            cells: self.cells.update(from, marked(self.cells[to], self.parity)).update(
                to,
                marked(self.cells[from], self.parity),
            ),
            ..self
        }
    }
}

/// A position on the grid has an index below `width * height`, and that index
/// leads back to the position.
pub proof fn lemma_index_of_position(width: int, height: int, x: int, y: int)
    requires
        0 <= x < width,
        0 <= y < height,
    ensures
        0 <= index_at(width, x, y) < width * height,
        coords_at(width, index_at(width, x, y)) == (x, y),
{
    assert(0 <= y * width + x < width * height) by (nonlinear_arith)
        requires
            0 <= x < width,
            0 <= y < height,
    ;
    vstd::arithmetic::div_mod::lemma_fundamental_div_mod_converse(y * width + x, width, y, x);
}

/// An index below `width * height` has a position on the grid, and that
/// position leads back to the index.
pub proof fn lemma_position_of_index(width: int, height: int, index: int)
    requires
        0 <= width,
        0 <= height,
        0 <= index < width * height,
    ensures
        0 < width,
        0 <= coords_at(width, index).0 < width,
        0 <= coords_at(width, index).1 < height,
        index_at(width, coords_at(width, index).0, coords_at(width, index).1) == index,
{
    assert(width > 0) by (nonlinear_arith)
        requires
            0 <= width,
            0 <= index < width * height,
    ;
    vstd::arithmetic::div_mod::lemma_fundamental_div_mod(index, width);
    vstd::arithmetic::div_mod::lemma_mod_bound(index, width);
    let q = index / width;
    assert(0 <= q < height) by (nonlinear_arith)
        requires
            0 < width,
            0 <= height,
            0 <= index < width * height,
            q == index / width,
    ;
    assert(q * width == width * q) by (nonlinear_arith);
}

/// Every neighbour that `relative` finds is a cell of the grid, at the
/// position asked for.
pub proof fn lemma_neighbours_on_grid(g: Grid, index: int)
    requires
        g.wf(),
        0 <= index < g.cells.len(),
    ensures
        forall|dx: int, dy: int|
            (#[trigger] g.relative(index, dx, dy)) matches Some(j) ==> 0 <= j < g.cells.len()
                && g.column(j) == g.column(index) + dx && g.row(j) == g.row(index) + dy,
{
    lemma_position_of_index(g.width, g.height, index);
    assert forall|dx: int, dy: int| (#[trigger] g.relative(index, dx, dy)) is Some implies 0
        <= g.relative(index, dx, dy).unwrap() < g.cells.len() && g.column(
        g.relative(index, dx, dy).unwrap(),
    ) == g.column(index) + dx && g.row(g.relative(index, dx, dy).unwrap()) == g.row(index)
        + dy by {
        lemma_index_of_position(g.width, g.height, g.column(index) + dx, g.row(index) + dy);
    }
}

/// The cell below a cell has that cell above it, and the other way round.
pub proof fn lemma_above_and_below(g: Grid, upper: int, lower: int)
    requires
        g.wf(),
        0 <= upper < g.cells.len(),
        0 <= lower < g.cells.len(),
    ensures
        g.relative(upper, 0, 1) == Some(lower) <==> g.relative(lower, 0, -1) == Some(upper),
{
    lemma_position_of_index(g.width, g.height, upper);
    lemma_position_of_index(g.width, g.height, lower);
    lemma_neighbours_on_grid(g, upper);
    lemma_neighbours_on_grid(g, lower);
}

} // verus!
