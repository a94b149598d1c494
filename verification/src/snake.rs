//! The snake entity: head position, current and buffered facing, and the
//! ordered history of trailing segment cells, together with input
//! buffering and the projection of the history onto render space.

use vstd::prelude::*;

use crate::direction::Direction;
use crate::grid::GridPos;
use crate::grid::GRID_CELLS;
use crate::grid::in_bounds;
use crate::grid::translation_x;
use crate::grid::translation_y;

verus! {

/// Number of trailing segments the snake starts with.
pub const INITIAL_SEGMENTS: usize = 4;

/// The cell, off the board, where segments are parked until the head has
/// vacated enough cells to give each of them a recorded position.
pub open spec fn parked_cell() -> GridPos {
    GridPos { x: -5 as i32, y: -5 as i32 }
}

/// The snake: its head cell, the direction applied on the most recent
/// tick, the buffered direction for the next tick, and the history of
/// cells its body occupies.
///
/// `segments` is a queue ordered oldest first: the back holds the cell the
/// head vacated most recently, the front the one it vacated longest ago
/// (the tip of the tail). Its length is the number of trailing body
/// segments and never exceeds the number of cells on the board.
pub struct Snake {
    pub facing: Direction,
    pub pending_facing: Direction,
    pub head: GridPos,
    pub segments: Vec<GridPos>,
}

impl Snake {
    /// Well-formedness: the head is on the board, the buffered direction
    /// is never the reverse of the current facing (so a tick can never
    /// turn the snake back on itself), and the body cannot outgrow the
    /// board.
    pub open spec fn wf(self) -> bool {
        &&& in_bounds(self.head)
        &&& self.pending_facing != self.facing.inverse_spec()
        &&& self.segments@.len() <= GRID_CELLS as int
    }

    /// A new snake at the centre of the board, facing right, with its
    /// initial segments parked off the board.
    pub fn new() -> (r: Snake)
        ensures
            r.wf(),
            r.facing == Direction::Right,
            r.pending_facing == Direction::Right,
            r.head == (GridPos { x: 20, y: 11 }),
            r.segments@.len() == INITIAL_SEGMENTS as int,
            forall|i: int| 0 <= i < r.segments@.len() ==> r.segments@[i] == parked_cell(),
    {
        let mut segments: Vec<GridPos> = Vec::new();
        let mut i: usize = 0;
        while i < INITIAL_SEGMENTS
            invariant
                i <= INITIAL_SEGMENTS,
                segments@.len() == i as int,
                forall|j: int| 0 <= j < segments@.len() ==> segments@[j] == parked_cell(),
            decreases INITIAL_SEGMENTS - i,
        {
            segments.push(GridPos { x: -5, y: -5 });
            i = i + 1;
        }
        Snake {
            facing: Direction::Right,
            pending_facing: Direction::Right,
            head: GridPos { x: 20, y: 11 },
            segments,
        }
    }

    /// Buffer a direction change for the next tick. The candidate is
    /// accepted only if it is not the reverse of the current facing;
    /// an illegal reversal leaves the buffer unchanged. Nothing else
    /// of the snake is touched.
    pub fn buffer_input(&mut self, d: Direction)
        requires
            old(self).wf(),
        ensures
            final(self).wf(),
            final(self).facing == old(self).facing,
            final(self).head == old(self).head,
            final(self).segments == old(self).segments,
            final(self).pending_facing == if d == old(self).facing.inverse_spec() {
                old(self).pending_facing
            } else {
                d
            },
            final(self).pending_facing != final(self).facing.inverse_spec(),
    {
        let rejected = self.facing.inverse();
        if !(d == rejected) {
            self.pending_facing = d;
        }
    }

    /// Render-space positions of the trailing segments, in history order:
    /// entry `i` is the pixel offset of the cell `segments[i]`. Rendering
    /// is a read-only projection of the history; segments are not
    /// simulated on their own.
    pub fn render_positions(&self) -> (r: Vec<(i64, i64)>)
        ensures
            r@.len() == self.segments@.len(),
            forall|i: int| 0 <= i < r@.len() ==> r@[i].0 as int == translation_x(
                self.segments@[i].x as int,
            ) && r@[i].1 as int == translation_y(self.segments@[i].y as int),
    {
        let mut r: Vec<(i64, i64)> = Vec::new();
        let mut i: usize = 0;
        while i < self.segments.len()
            invariant
                i <= self.segments@.len(),
                r@.len() == i as int,
                forall|j: int| 0 <= j < r@.len() ==> r@[j].0 as int == translation_x(
                    self.segments@[j].x as int,
                ) && r@[j].1 as int == translation_y(self.segments@[j].y as int),
            decreases self.segments@.len() - i,
        {
            let t = self.segments[i].to_translation();
            r.push(t);
            i = i + 1;
        }
        r
    }

    /// Whether the head currently occupies the same cell as some trailing
    /// segment.
    pub fn head_hits_body(&self) -> (r: bool)
        ensures
            r == self.segments@.contains(self.head),
    {
        let mut i: usize = 0;
        while i < self.segments.len()
            invariant
                i <= self.segments@.len(),
                forall|j: int| 0 <= j < i as int ==> self.segments@[j] != self.head,
            decreases self.segments@.len() - i,
        {
            if self.segments[i] == self.head {
                assert(self.segments@.contains(self.head));
                return true;
            }
            i = i + 1;
        }
        false
    }
}

/// The direction chosen from one input poll, given which directional keys
/// were newly pressed this poll. Candidates are examined in the fixed
/// order up, left, right, down, and the last pressed candidate in that
/// order wins; no key pressed yields no candidate.
pub fn select_direction(up: bool, left: bool, right: bool, down: bool) -> (r: Option<Direction>)
    ensures
        r == if down {
            Some(Direction::Down)
        } else if right {
            Some(Direction::Right)
        } else if left {
            Some(Direction::Left)
        } else if up {
            Some(Direction::Up)
        } else {
            None::<Direction>
        },
{
    let mut r: Option<Direction> = None;
    if up {
        r = Some(Direction::Up);
    }
    if left {
        r = Some(Direction::Left);
    }
    if right {
        r = Some(Direction::Right);
    }
    if down {
        r = Some(Direction::Down);
    }
    r
}

} // verus!
