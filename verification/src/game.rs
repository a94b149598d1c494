//! The per-tick simulation: advance the head, shift the segment history,
//! detect food consumption and self-collision, and respawn food on an
//! unoccupied cell.

use vstd::prelude::*;

use rand::Rng;

use crate::direction::Direction;
use crate::direction::lemma_inverse_is_never_self;
use crate::grid::GridPos;
use crate::grid::GRID_W;
use crate::grid::GRID_H;
use crate::grid::GRID_CELLS;
use crate::grid::in_bounds;
use crate::snake::Snake;

verus! {

/// Whether the game is still running. The transition to `GameOver` is
/// one-way: once there, no further simulation step changes anything.
#[derive(Clone, Copy, Debug, PartialEq, Eq, Structural)]
pub enum GameState {
    InGame,
    GameOver,
}

/// How many random samples food placement takes before it falls back to
/// scanning the board for a free cell.
pub const MAX_PLACEMENT_TRIES: usize = 1000;

/// Whether the cell `c` is occupied by the snake: by its head or by any
/// trailing segment.
pub open spec fn occupies(head: GridPos, segments: Seq<GridPos>, c: GridPos) -> bool {
    c == head || segments.contains(c)
}

/// Whether the snake covers the whole board: no cell in bounds is free.
pub open spec fn board_full(head: GridPos, segments: Seq<GridPos>) -> bool {
    forall|c: GridPos| in_bounds(c) ==> #[trigger] occupies(head, segments, c)
}

/// The segment history after one tick in which the head vacated a cell:
/// the vacated cell joins the back; unless the snake grew this tick, the
/// oldest cell leaves the front, which is what makes the tail follow.
pub open spec fn shifted_segments(segments: Seq<GridPos>, vacated: GridPos, grew: bool) -> Seq<
    GridPos,
> {
    if grew {
        segments.push(vacated)
    } else {
        segments.push(vacated).remove(0)
    }
}

/// Relies on rand::Rng::random_range on the range `0..n`: the sample lies
/// in the range, which is non-empty because `n` is positive.
#[verifier::external_body]
fn random_below(n: u32) -> (r: u32)
    requires
        n > 0,
    ensures
        r < n,
{
    rand::rng().random_range(0..n)
}

/// Whether the cell `c` is free of the snake: not the head and not on any
/// trailing segment.
fn cell_free(c: GridPos, head: GridPos, segments: &Vec<GridPos>) -> (r: bool)
    ensures
        r == !occupies(head, segments@, c),
{
    if c == head {
        return false;
    }
    let mut i: usize = 0;
    while i < segments.len()
        invariant
            i <= segments@.len(),
            c != head,
            forall|j: int| 0 <= j < i as int ==> segments@[j] != c,
        decreases segments@.len() - i,
    {
        if segments[i] == c {
            assert(segments@.contains(c));
            return false;
        }
        i = i + 1;
    }
    true
}

/// Choose a cell for new food: uniformly random samples over the board,
/// rejected while they hit the head or a segment, with a bounded number
/// of tries; after that, a scan of the whole board. Returns no cell
/// exactly when every cell on the board is occupied, so a full board is
/// reported rather than retried forever.
pub fn place_food(head: GridPos, segments: &Vec<GridPos>) -> (r: Option<GridPos>)
    ensures
        match r {
            Some(f) => in_bounds(f) && !occupies(head, segments@, f),
            None => board_full(head, segments@),
        },
{
    let mut tries: usize = 0;
    while tries < MAX_PLACEMENT_TRIES
        invariant
            tries <= MAX_PLACEMENT_TRIES,
        decreases MAX_PLACEMENT_TRIES - tries,
    {
        let x = random_below(GRID_W as u32);
        let y = random_below(GRID_H as u32);
        let c = GridPos { x: x as i32, y: y as i32 };
        if cell_free(c, head, segments) {
            return Some(c);
        }
        tries = tries + 1;
    }
    let mut x: i32 = 0;
    while x < GRID_W
        invariant
            0 <= x <= GRID_W,
            forall|c: GridPos|
                in_bounds(c) && c.x < x ==> #[trigger] occupies(head, segments@, c),
        decreases GRID_W - x,
    {
        let mut y: i32 = 0;
        while y < GRID_H
            invariant
                0 <= x < GRID_W,
                0 <= y <= GRID_H,
                forall|c: GridPos|
                    in_bounds(c) && c.x < x ==> #[trigger] occupies(head, segments@, c),
                forall|c: GridPos|
                    in_bounds(c) && c.x == x && c.y < y ==> #[trigger] occupies(
                        head,
                        segments@,
                        c,
                    ),
            decreases GRID_H - y,
        {
            let c = GridPos { x, y };
            if cell_free(c, head, segments) {
                return Some(c);
            }
            y = y + 1;
        }
        x = x + 1;
    }
    None
}

/// The whole game: the snake, the at-most-one outstanding food, and
/// whether the run has ended.
pub struct Game {
    pub snake: Snake,
    pub food: Option<GridPos>,
    pub state: GameState,
}

impl Game {
    /// Well-formedness: the snake is well formed, and outstanding food
    /// sits on the board, on a cell free of the snake, while the body
    /// still has room to grow by the one segment that eating it brings.
    pub open spec fn wf(self) -> bool {
        &&& self.snake.wf()
        &&& match self.food {
            Some(f) => {
                &&& in_bounds(f)
                &&& f != self.snake.head
                &&& !self.snake.segments@.contains(f)
                &&& self.snake.segments@.len() < GRID_CELLS as int
            },
            None => true,
        }
    }

    /// The cell the head moves into on the next tick, one unit from the
    /// current head in the buffered direction.
    pub open spec fn target(self) -> GridPos {
        GridPos {
            x: (self.snake.head.x + self.snake.pending_facing.dx()) as i32,
            y: (self.snake.head.y + self.snake.pending_facing.dy()) as i32,
        }
    }

    /// Whether the next tick's move eats the outstanding food.
    pub open spec fn eats(self) -> bool {
        self.food == Some(self.target())
    }

    /// A fresh game: a new snake, no food yet (the first tick places it),
    /// and the run underway.
    pub fn new() -> (r: Game)
        ensures
            r.wf(),
            r.state == GameState::InGame,
            r.food is None,
            r.snake.facing == Direction::Right,
            r.snake.pending_facing == Direction::Right,
            r.snake.head == (GridPos { x: 20, y: 11 }),
            r.snake.segments@.len() == crate::snake::INITIAL_SEGMENTS as int,
            forall|i: int|
                0 <= i < r.snake.segments@.len() ==> r.snake.segments@[i]
                    == crate::snake::parked_cell(),
    {
        Game { snake: Snake::new(), food: None, state: GameState::InGame }
    }

    /// One simulation tick, run only while the game is in progress: the
    /// buffered direction becomes the facing, the head advances one cell,
    /// the vacated cell joins the segment history whose oldest cell
    /// leaves unless food was eaten this tick, self-collision and a move
    /// off the board end the run, and missing food is respawned on a
    /// free cell (a board with no free cell ends the run instead).
    pub fn step(&mut self)
        requires
            old(self).wf(),
        ensures
            final(self).wf(),
            final(self).snake.segments@.len() >= old(self).snake.segments@.len(),
            old(self).state == GameState::GameOver ==> *final(self) == *old(self),
            final(self).state == GameState::InGame ==> !final(self).snake.segments@.contains(
                final(self).snake.head,
            ),
            old(self).state == GameState::InGame && !in_bounds(old(self).target())
                ==> final(self).state == GameState::GameOver
                    && final(self).snake == old(self).snake
                    && final(self).food == old(self).food,
            old(self).state == GameState::InGame && in_bounds(old(self).target()) ==> ({
                let t = old(self).target();
                let ate = old(self).eats();
                let segs = shifted_segments(old(self).snake.segments@, old(self).snake.head, ate);
                let needs_spawn = ate || old(self).food is None;
                &&& final(self).snake.head == t
                &&& final(self).snake.facing == old(self).snake.pending_facing
                &&& final(self).snake.pending_facing == old(self).snake.pending_facing
                &&& final(self).snake.segments@ == segs
                &&& final(self).snake.segments@.len() == old(self).snake.segments@.len() + (
                if ate {
                    1int
                } else {
                    0int
                })
                &&& (!needs_spawn ==> final(self).food == old(self).food)
                &&& (needs_spawn ==> (match final(self).food {
                    Some(f) => in_bounds(f) && !occupies(t, segs, f),
                    None => segs.len() >= GRID_CELLS as int || board_full(t, segs),
                }))
                &&& final(self).state == (if segs.contains(t)
                    || (needs_spawn && final(self).food is None) {
                    GameState::GameOver
                } else {
                    GameState::InGame
                })
            }),
    {
        if self.state == GameState::GameOver {
            return;
        }
        let d = self.snake.pending_facing;
        let (dx, dy) = d.offset();
        let nx = self.snake.head.x + dx;
        let ny = self.snake.head.y + dy;
        if !(0 <= nx && nx < GRID_W && 0 <= ny && ny < GRID_H) {
            self.state = GameState::GameOver;
            return;
        }
        let new_head = GridPos { x: nx, y: ny };
        self.snake.facing = d;
        proof {
            lemma_inverse_is_never_self(d);
        }
        let ate = match self.food {
            Some(f) => f == new_head,
            None => false,
        };
        let vacated = self.snake.head;
        self.snake.segments.push(vacated);
        self.snake.head = new_head;
        if !ate {
            let _ = self.snake.segments.remove(0);
        } else {
            self.food = None;
        }
        if self.snake.head_hits_body() {
            self.state = GameState::GameOver;
        }
        if self.food.is_none() {
            if self.snake.segments.len() < GRID_CELLS {
                match place_food(self.snake.head, &self.snake.segments) {
                    Some(f) => {
                        self.food = Some(f);
                    },
                    None => {
                        self.state = GameState::GameOver;
                    },
                }
            } else {
                self.state = GameState::GameOver;
            }
        }
    }
}

/// The head's coordinates after `n` ticks in which the facing stays `d`,
/// each tick displacing the head by the unit vector of `d`.
pub open spec fn advanced_xy(x: int, y: int, d: Direction, n: nat) -> (int, int)
    decreases n,
{
    if n == 0 {
        (x, y)
    } else {
        let prev = advanced_xy(x, y, d, (n - 1) as nat);
        (prev.0 + d.dx(), prev.1 + d.dy())
    }
}

/// Law: with constant facing `d`, and no tick cut short by food or a
/// collision, the head's position after `n` ticks is the initial
/// position displaced by `n` times the unit vector of `d`.
pub proof fn lemma_straight_line(x: int, y: int, d: Direction, n: nat)
    ensures
        advanced_xy(x, y, d, n).0 == x + n * d.dx(),
        advanced_xy(x, y, d, n).1 == y + n * d.dy(),
    decreases n,
{
    if n > 0 {
        lemma_straight_line(x, y, d, (n - 1) as nat);
        assert(n * d.dx() == (n - 1) * d.dx() + d.dx()) by (nonlinear_arith);
        assert(n * d.dy() == (n - 1) * d.dy() + d.dy()) by (nonlinear_arith);
    }
}

/// Law: while the head is on the board, the cell a tick moves it into is
/// exactly one unit from the current head in the buffered direction, so
/// each completed tick realises one step of `advanced_xy`.
pub proof fn lemma_target_is_unit_step(g: Game)
    requires
        in_bounds(g.snake.head),
    ensures
        g.target().x as int == g.snake.head.x + g.snake.pending_facing.dx(),
        g.target().y as int == g.snake.head.y + g.snake.pending_facing.dy(),
{
}

} // verus!
