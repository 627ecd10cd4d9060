//! Grid coordinates, and the integer plane they live in.

use crate::direction::Direction;
use vstd::prelude::*;

verus! {

/// A point of the unbounded integer plane.
///
/// Contracts are stated over cells: a step off the edge of the grid is a
/// cell like any other, with a coordinate of `0` or of one more than the
/// grid's width or height.
pub struct Cell {
    pub x: int,
    pub y: int,
}

/// Brings one coordinate back onto `1..=max`: leaving past `max` enters at
/// `1`, leaving below `1` enters at `max`.
pub open spec fn wrap_coord(c: int, max: int) -> int {
    if c > max {
        1
    } else if c < 1 {
        max
    } else {
        c
    }
}

impl Cell {
    /// The cell lies on the grid whose far corner is `max`.
    pub open spec fn within(self, max: Cell) -> bool {
        &&& 1 <= self.x <= max.x
        &&& 1 <= self.y <= max.y
    }

    /// The neighbouring cell in heading `d`; the cell itself for `Still`.
    pub open spec fn step(self, d: Direction) -> Cell {
        Cell { x: self.x + d.dx(), y: self.y + d.dy() }
    }

    /// The cell after wrap-around on the grid whose far corner is `max`.
    pub open spec fn wrap(self, max: Cell) -> Cell {
        Cell { x: wrap_coord(self.x, max.x), y: wrap_coord(self.y, max.y) }
    }
}

/// A grid coordinate. Cells of a grid are numbered from `1`.
#[derive(PartialEq, Eq, Structural, Clone, Copy, Debug)]
pub struct Pos {
    pub x: u32,
    pub y: u32,
}

impl View for Pos {
    type V = Cell;

    open spec fn view(&self) -> Cell {
        Cell { x: self.x as int, y: self.y as int }
    }
}

/// The cells that a sequence of positions stands for, in the same order.
pub open spec fn cells(s: Seq<Pos>) -> Seq<Cell> {
    s.map_values(|p: Pos| p@)
}

/// One step from a cell of the grid, wrapped, is a cell of the grid again.
pub proof fn lemma_step_wrap_within(c: Cell, d: Direction, max: Cell)
    requires
        1 <= max.x,
        1 <= max.y,
        c.within(max),
    ensures
        c.step(d).wrap(max).within(max),
{
}

} // verus!
