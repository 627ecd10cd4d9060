//! The food: one cell of the grid, drawn at random.

use crate::pos::Pos;
use rand::Rng;
use vstd::prelude::*;

verus! {

/// Draws a number from `low..=high` with the thread's generator.
///
/// Calls `rand::thread_rng` and `Rng::gen_range` with the inclusive range.
/// `gen_range` panics on an empty range, which `requires` leaves out, and
/// returns a value of the range it was given. Which one is a matter of
/// chance, so nothing more is claimed. `thread_rng` panics if the system
/// cannot seed the generator, which no argument decides.
#[verifier::external_body]
fn random_between(low: u32, high: u32) -> (r: u32)
    requires
        low <= high,
    ensures
        low <= r <= high,
{
    rand::thread_rng().gen_range(low..=high)
}

/// The food on the grid.
pub struct Food {
    pub pos: Pos,
    /// Far corner of the grid; the near corner is `(1, 1)`.
    pub max: Pos,
}

impl Food {
    /// The grid has at least one cell, and the food lies on it.
    pub open spec fn wf(&self) -> bool {
        &&& 1 <= self.max.x
        &&& 1 <= self.max.y
        &&& self.pos@.within(self.max@)
    }

    /// Food on a cell drawn at random from a grid of `max_x` by `max_y`
    /// cells.
    pub fn randomize(max_x: u32, max_y: u32) -> (f: Food)
        requires
            1 <= max_x,
            1 <= max_y,
        ensures
            f.max == (Pos { x: max_x, y: max_y }),
            f.wf(),
    {
        Food {
            pos: Pos { x: random_between(1, max_x), y: random_between(1, max_y) },
            max: Pos { x: max_x, y: max_y },
        }
    }

    /// Food on a cell drawn at random from a grid of `max_x` by `max_y`
    /// cells.
    pub fn new(max_x: u32, max_y: u32) -> (f: Food)
        requires
            1 <= max_x,
            1 <= max_y,
        ensures
            f.max == (Pos { x: max_x, y: max_y }),
            f.wf(),
    {
        Food::randomize(max_x, max_y)
    }

    /// Moves the food to a cell drawn at random from the same grid. The
    /// new cell may be any cell of the grid: keeping the food off the
    /// snake is the caller's business.
    pub fn eat(&mut self)
        requires
            1 <= old(self).max.x,
            1 <= old(self).max.y,
        ensures
            final(self).max == old(self).max,
            final(self).wf(),
    {
        let new = Food::randomize(self.max.x, self.max.y);
        self.pos = new.pos;
    }
}

} // verus!
