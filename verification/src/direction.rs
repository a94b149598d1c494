//! Four-way facing of the snake, with the unit displacement of each
//! direction and the inverse relation used to reject illegal reversals.

use vstd::prelude::*;

verus! {

/// One of the four directions the snake can face.
#[derive(Clone, Copy, Debug, PartialEq, Eq, Structural)]
pub enum Direction {
    Up,
    Down,
    Left,
    Right,
}

impl Direction {
    /// Horizontal component of the unit displacement of this direction.
    pub open spec fn dx(self) -> int {
        match self {
            Direction::Left => -1,
            Direction::Right => 1,
            _ => 0,
        }
    }

    /// Vertical component of the unit displacement of this direction.
    pub open spec fn dy(self) -> int {
        match self {
            Direction::Up => 1,
            Direction::Down => -1,
            _ => 0,
        }
    }

    /// The opposite direction: the one whose displacement cancels this one's.
    pub open spec fn inverse_spec(self) -> Direction {
        match self {
            Direction::Up => Direction::Down,
            Direction::Down => Direction::Up,
            Direction::Left => Direction::Right,
            Direction::Right => Direction::Left,
        }
    }

    /// Unit displacement of this direction on the grid.
    pub fn offset(&self) -> (r: (i32, i32))
        ensures
            r.0 as int == self.dx(),
            r.1 as int == self.dy(),
    {
        match self {
            Direction::Up => (0, 1),
            Direction::Down => (0, -1),
            Direction::Left => (-1, 0),
            Direction::Right => (1, 0),
        }
    }

    /// The opposite direction.
    pub fn inverse(&self) -> (r: Direction)
        ensures
            r == self.inverse_spec(),
    {
        match self {
            Direction::Up => Direction::Down,
            Direction::Down => Direction::Up,
            Direction::Left => Direction::Right,
            Direction::Right => Direction::Left,
        }
    }
}

/// Taking the inverse of a direction twice gives the direction back:
/// the inverse relation is an involution pairing up with down and
/// left with right.
pub proof fn lemma_inverse_involution(d: Direction)
    ensures
        d.inverse_spec().inverse_spec() == d,
{
}

/// A direction is never its own inverse: the displacement of the inverse
/// is the negation of the direction's own, and neither is zero.
pub proof fn lemma_inverse_is_never_self(d: Direction)
    ensures
        d.inverse_spec() != d,
        d.inverse_spec().dx() == -d.dx(),
        d.inverse_spec().dy() == -d.dy(),
{
}

} // verus!
