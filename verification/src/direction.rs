//! The five headings a snake can have.

use std::ops::Not;
use vstd::prelude::*;
use vstd::std_specs::ops::NotSpecImpl;

verus! {

/// A heading on the grid. `Still` is the heading of a snake that has not
/// started to move.
#[derive(PartialEq, Eq, Structural, Clone, Copy, Debug)]
pub enum Direction {
    Still,
    Up,
    Left,
    Down,
    Right,
}

impl Direction {
    /// The heading that points the other way; `Still` has no other way.
    pub open spec fn spec_opposite(self) -> Direction {
        match self {
            Direction::Still => Direction::Still,
            Direction::Up => Direction::Down,
            Direction::Down => Direction::Up,
            Direction::Left => Direction::Right,
            Direction::Right => Direction::Left,
        }
    }

    /// Change of the `x` coordinate made by one step in this heading.
    pub open spec fn dx(self) -> int {
        match self {
            Direction::Left => -1,
            Direction::Right => 1,
            _ => 0,
        }
    }

    /// Change of the `y` coordinate made by one step in this heading.
    /// Rows are counted downwards, so `Up` is `-1`.
    pub open spec fn dy(self) -> int {
        match self {
            Direction::Up => -1,
            Direction::Down => 1,
            _ => 0,
        }
    }

    /// The heading that points the other way.
    #[verifier::when_used_as_spec(spec_opposite)]
    pub fn opposite(self) -> (r: Direction)
        ensures
            r == self.spec_opposite(),
    {
        match self {
            Direction::Still => Direction::Still,
            Direction::Left => Direction::Right,
            Direction::Right => Direction::Left,
            Direction::Up => Direction::Down,
            Direction::Down => Direction::Up,
        }
    }
}

impl NotSpecImpl for Direction {
    open spec fn obeys_not_spec() -> bool {
        true
    }

    open spec fn not_req(self) -> bool {
        true
    }

    open spec fn not_spec(self) -> Direction {
        self.spec_opposite()
    }
}

/// `!d` is the opposite of `d`.
impl Not for Direction {
    type Output = Direction;

    fn not(self) -> (r: Direction) {
        self.opposite()
    }
}

/// Turning round twice gives the heading one started with.
pub proof fn lemma_opposite_involutive(d: Direction)
    ensures
        d.spec_opposite().spec_opposite() == d,
{
}

/// Standing still has no opposite but itself, and it is the only heading
/// of which that is true.
pub proof fn lemma_opposite_fixed_point(d: Direction)
    ensures
        Direction::Still.spec_opposite() == Direction::Still,
        d.spec_opposite() == d <==> d == Direction::Still,
{
}

/// A step and the step back cancel.
pub proof fn lemma_opposite_undoes_step(d: Direction)
    ensures
        d.spec_opposite().dx() == -d.dx(),
        d.spec_opposite().dy() == -d.dy(),
{
}

} // verus!
