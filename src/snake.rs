use vstd::prelude::*;
use rand::Rng;
use std::collections::VecDeque;
use crate::geometry::{Direction, Error, Grid, Point};

verus! {

/// Whether the game is still running.
#[derive(Debug, Clone, Copy, PartialEq, Eq, Structural)]
pub enum Status {
    Alive,
    Dead,
    /// The snake fills every playable cell: no food can be placed.
    Won,
}

/// What one tick did.
#[derive(Debug, Clone, Copy, PartialEq, Eq, Structural)]
pub enum Outcome {
    Continued,
    AteFood,
    Died,
    Won,
}

/// The game as a mathematical value. The body is head first.
pub ghost struct SnakeState {
    pub body: Seq<Point>,
    pub direction: Direction,
    pub grid: Grid,
    pub food: Point,
    pub score: nat,
    pub status: Status,
}

/// The cell at integer coordinates that are known to be on the field.
pub open spec fn cell(c: (int, int)) -> Point {
    Point(c.0 as u16, c.1 as u16)
}

/// The body a new game starts with: four cells along the first playable
/// row, head first.
pub open spec fn initial_body(grid: Grid) -> Seq<Point> {
    let i = grid.inset;
    seq![
        Point((i + 3) as u16, i),
        Point((i + 2) as u16, i),
        Point((i + 1) as u16, i),
        Point(i, i),
    ]
}

impl SnakeState {
    /// The coordinates the head would move to on the next tick.
    pub open spec fn candidate(self) -> (int, int) {
        (self.body[0].0 + self.direction.offset().0, self.body[0].1 + self.direction.offset().1)
    }

    /// A playable cell that the body does not cover exists.
    pub open spec fn has_free_cell(self) -> bool {
        exists|p: Point| self.grid.holds(p) && !self.body.contains(p)
    }

    /// The invariant of every game state the engine can reach.
    pub open spec fn inv(self) -> bool {
        &&& self.body.len() >= 1
        &&& self.body.no_duplicates()
        &&& forall|i: int| 0 <= i < self.body.len() ==> self.grid.holds(#[trigger] self.body[i])
        &&& self.score < self.body.len()
        &&& self.grid.holds(self.food)
        &&& self.status == Status::Alive ==> !self.body.contains(self.food)
    }

    /// The state after a turn request: a reversal, or any request once the
    /// game is over, changes nothing.
    pub open spec fn turned(self, d: Direction) -> SnakeState {
        if self.status == Status::Alive && d != self.direction.opposite() {
            SnakeState { direction: d, ..self }
        } else {
            self
        }
    }

    /// `t` and `o` are a possible state and report after one tick from `self`.
    /// Only where food is placed is there a choice: any free cell.
    pub open spec fn stepped(self, t: SnakeState, o: Outcome) -> bool {
        let c = self.candidate();
        if self.status == Status::Dead {
            t == self && o == Outcome::Died
        } else if self.status == Status::Won {
            t == self && o == Outcome::Won
        } else if !self.grid.holds_xy(c.0, c.1) || self.body.contains(cell(c)) {
            t == SnakeState { status: Status::Dead, ..self } && o == Outcome::Died
        } else if cell(c) == self.food {
            let grown = SnakeState {
                body: seq![cell(c)] + self.body,
                score: self.score + 1,
                ..self
            };
            if grown.has_free_cell() {
                &&& o == Outcome::AteFood
                &&& t == SnakeState { food: t.food, ..grown }
                &&& t.grid.holds(t.food)
                &&& !t.body.contains(t.food)
            } else {
                &&& o == Outcome::Won
                &&& t == SnakeState { status: Status::Won, ..grown }
            }
        } else {
            &&& o == Outcome::Continued
            &&& t == SnakeState { body: seq![cell(c)] + self.body.drop_last(), ..self }
        }
    }
}

/// Relies on rand's `thread_rng().gen_range(0..n)`: an index below `n`,
/// drawn at random. It panics on an empty range, hence `n > 0`.
#[verifier::external_body]
fn random_index(n: usize) -> (r: usize)
    requires
        n > 0,
    ensures
        r < n,
{
    rand::thread_rng().gen_range(0..n)
}

/// The game engine: the snake's body, its direction, the field, the food and
/// the score.
pub struct Snake {
    body: VecDeque<Point>,
    direction: Direction,
    grid: Grid,
    food: Point,
    score: usize,
    status: Status,
}

impl View for Snake {
    type V = SnakeState;

    closed spec fn view(&self) -> SnakeState {
        SnakeState {
            body: self.body@,
            direction: self.direction,
            grid: self.grid,
            food: self.food,
            score: self.score as nat,
            status: self.status,
        }
    }
}

impl Snake {
    pub open spec fn wf(&self) -> bool {
        self@.inv()
    }

    /// The body covers `point`.
    pub fn contains(&self, point: &Point) -> (r: bool)
        ensures
            r == self@.body.contains(*point),
    {
        let n = self.body.len();
        let mut i: usize = 0;
        while i < n
            invariant
                n == self.body@.len(),
                0 <= i <= n,
                forall|k: int| 0 <= k < i ==> self.body@[k] != *point,
            decreases n - i,
        {
            if self.body[i] == *point {
                return true;
            }
            i = i + 1;
        }
        false
    }

    /// The cell the head moves to on the next tick, or `OutOfBounds` where
    /// that leaves the field.
    pub fn next(&self) -> (r: Result<Point, Error>)
        requires
            self.wf(),
        ensures
            r is Ok <==> self@.grid.holds_xy(self@.candidate().0, self@.candidate().1),
            r matches Ok(p) ==> p == cell(self@.candidate()),
            r matches Err(e) ==> e == Error::OutOfBounds,
    {
        let head = self.body[0];
        let (offset_x, offset_y) = self.direction.get_offset();
        Point::new(head.0 as i32 + offset_x, head.1 as i32 + offset_y, &self.grid)
    }

    /// Steer towards `direction`, unless that is a reversal or the game is over.
    pub fn turn(&mut self, direction: Direction)
        requires
            old(self).wf(),
        ensures
            final(self)@ == old(self)@.turned(direction),
            final(self).wf(),
    {
        if self.status == Status::Alive && self.direction.get_opposite() != direction {
            self.direction = direction;
        }
    }

    /// Every playable cell that the body does not cover, row by row.
    pub fn free_cells(&self) -> (r: Vec<Point>)
        ensures
            forall|p: Point| r@.contains(p) <==> (self@.grid.holds(p) && !self@.body.contains(p)),
    {
        let mut r: Vec<Point> = Vec::new();
        let mut y: u16 = self.grid.inset;
        while y < self.grid.height
            invariant
                self.grid.inset <= y,
                forall|p: Point|
                    r@.contains(p) <==> (self.grid.holds(p) && !self@.body.contains(p) && p.1 < y),
            decreases self.grid.height - y,
        {
            let mut x: u16 = self.grid.inset;
            while x < self.grid.width
                invariant
                    self.grid.inset <= y < self.grid.height,
                    self.grid.inset <= x,
                    forall|p: Point|
                        r@.contains(p) <==> (self.grid.holds(p) && !self@.body.contains(p) && (p.1
                            < y || (p.1 == y && p.0 < x))),
                decreases self.grid.width - x,
            {
                let p = Point(x, y);
                let ghost before = r@;
                if !self.contains(&p) {
                    r.push(p);
                }
                proof {
                    assert forall|q: Point|
                        r@.contains(q) <==> (self.grid.holds(q) && !self@.body.contains(q) && (q.1
                            < y || (q.1 == y && q.0 <= x))) by {
                        if !self@.body.contains(p) {
                            assert(r@ == before.push(p));
                            if r@.contains(q) && q != p {
                                let k = choose|k: int| 0 <= k < r@.len() && r@[k] == q;
                                assert(before[k] == q);
                            }
                            if before.contains(q) {
                                let k = choose|k: int| 0 <= k < before.len() && before[k] == q;
                                assert(r@[k] == q);
                            }
                            assert(r@[before.len() as int] == p);
                        }
                    }
                }
                x = x + 1;
            }
            y = y + 1;
        }
        r
    }

    /// Place the food on a free cell drawn at random. Returns false, changing
    /// nothing, where the body covers every playable cell.
    pub fn gen_food(&mut self) -> (r: bool)
        ensures
            r == old(self)@.has_free_cell(),
            r ==> final(self)@ == (SnakeState { food: final(self)@.food, ..old(self)@ }),
            r ==> final(self)@.grid.holds(final(self)@.food),
            r ==> !final(self)@.body.contains(final(self)@.food),
            !r ==> final(self)@ == old(self)@,
    {
        let free = self.free_cells();
        if free.len() == 0 {
            proof {
                assert forall|p: Point| !(self.grid.holds(p) && !self@.body.contains(p)) by {
                    if self.grid.holds(p) && !self@.body.contains(p) {
                        assert(free@.contains(p));
                    }
                }
            }
            return false;
        }
        let i = random_index(free.len());
        self.food = free[i];
        proof {
            assert(free@.contains(free@[i as int]));
        }
        true
    }

    /// Advance the game by one tick. Once the game is over this changes
    /// nothing and reports how it ended.
    pub fn step(&mut self) -> (r: Outcome)
        requires
            old(self).wf(),
        ensures
            final(self).wf(),
            old(self)@.stepped(final(self)@, r),
    {
        let ghost s0 = self@;
        let r = if self.status == Status::Dead {
            Outcome::Died
        } else if self.status == Status::Won {
            Outcome::Won
        } else {
            match self.next() {
                Err(_) => {
                    self.status = Status::Dead;
                    Outcome::Died
                },
                Ok(next) => {
                    if self.contains(&next) {
                        self.status = Status::Dead;
                        Outcome::Died
                    } else if next == self.food {
                        self.body.push_front(next);
                        // the grown body's length is a usize, so the score below it fits too
                        let _ = self.body.len();
                        self.score = self.score + 1;
                        if self.gen_food() {
                            Outcome::AteFood
                        } else {
                            self.status = Status::Won;
                            Outcome::Won
                        }
                    } else {
                        self.body.pop_back();
                        self.body.push_front(next);
                        Outcome::Continued
                    }
                },
            }
        };
        proof {
            lemma_step_keeps_body_distinct(s0, self@, r);
        }
        r
    }

    /// A new game on `grid`: a body of four cells along the first playable
    /// row, head at the right end, heading South, food on a random free cell.
    /// `None` where the field is too small for that body and a row below it.
    pub fn new(grid: Grid) -> (r: Option<Snake>)
        ensures
            r is Some <==> grid.width >= grid.inset + 4 && grid.height >= grid.inset + 2,
            r matches Some(s) ==> {
                &&& s.wf()
                &&& s@.body == initial_body(grid)
                &&& s@.direction == Direction::South
                &&& s@.grid == grid
                &&& s@.score == 0
                &&& s@.status == Status::Alive
            },
    {
        if grid.width < 4 || grid.width - 4 < grid.inset || grid.height < 2 || grid.height - 2
            < grid.inset {
            return None;
        }
        let i = grid.inset;
        let mut body: VecDeque<Point> = VecDeque::new();
        body.push_back(Point(i + 3, i));
        body.push_back(Point(i + 2, i));
        body.push_back(Point(i + 1, i));
        body.push_back(Point(i, i));
        let mut snake = Snake {
            body,
            direction: Direction::South,
            grid,
            food: Point(i, i + 1),
            score: 0,
            status: Status::Alive,
        };
        proof {
            assert(snake@.body == initial_body(grid));
            assert(!snake@.body.contains(Point(i, (i + 1) as u16))) by {
                if snake@.body.contains(Point(i, (i + 1) as u16)) {
                    let k = choose|k: int|
                        0 <= k < snake@.body.len() && snake@.body[k] == Point(i, (i + 1) as u16);
                    assert(snake@.body[k].1 == i);
                }
            }
            assert(snake@.grid.holds(Point(i, (i + 1) as u16)));
        }
        snake.gen_food();
        Some(snake)
    }

    /// A game in the given position: `body` head first, score 0. `None` where
    /// the position breaks the invariant (an empty body, a cell off the
    /// field or covered twice, food off the field or under the body).
    pub fn with_state(grid: Grid, body: VecDeque<Point>, direction: Direction, food: Point) -> (r:
        Option<Snake>)
        ensures
            r is Some <==> (SnakeState {
                body: body@,
                direction,
                grid,
                food,
                score: 0,
                status: Status::Alive,
            }).inv(),
            r matches Some(s) ==> s@ == (SnakeState {
                body: body@,
                direction,
                grid,
                food,
                score: 0,
                status: Status::Alive,
            }),
    {
        let n = body.len();
        if n == 0 || !grid.is_in_bounds(food.0 as i32, food.1 as i32) {
            return None;
        }
        let mut i: usize = 0;
        while i < n
            invariant
                n == body@.len(),
                0 <= i <= n,
                forall|k: int| 0 <= k < i ==> grid.holds(#[trigger] body@[k]),
                forall|a: int, b: int| 0 <= a < b < i ==> body@[a] != body@[b],
                forall|k: int| 0 <= k < i ==> body@[k] != food,
            decreases n - i,
        {
            let p = body[i];
            if !grid.is_in_bounds(p.0 as i32, p.1 as i32) || p == food {
                return None;
            }
            let mut j: usize = 0;
            while j < i
                invariant
                    n == body@.len(),
                    0 <= j <= i < n,
                    p == body@[i as int],
                    forall|a: int| 0 <= a < j ==> body@[a] != p,
                decreases i - j,
            {
                if body[j] == p {
                    return None;
                }
                j = j + 1;
            }
            i = i + 1;
        }
        Some(Snake { body, direction, grid, food, score: 0, status: Status::Alive })
    }
    /// The body, head first.
    pub fn body(&self) -> (r: &VecDeque<Point>)
        ensures
            r@ == self@.body,
    {
        &self.body
    }

    pub fn direction(&self) -> (r: Direction)
        ensures
            r == self@.direction,
    {
        self.direction
    }

    pub fn grid(&self) -> (r: Grid)
        ensures
            r == self@.grid,
    {
        self.grid
    }

    pub fn food(&self) -> (r: Point)
        ensures
            r == self@.food,
    {
        self.food
    }

    pub fn score(&self) -> (r: usize)
        ensures
            r == self@.score,
    {
        self.score
    }

    pub fn status(&self) -> (r: Status)
        ensures
            r == self@.status,
    {
        self.status
    }

    pub fn is_alive(&self) -> (r: bool)
        ensures
            r == (self@.status == Status::Alive),
    {
        self.status == Status::Alive
    }
}

/// Every tick keeps the invariant; in particular the body of a live snake
/// never holds the same cell twice.
pub proof fn lemma_step_keeps_body_distinct(s: SnakeState, t: SnakeState, o: Outcome)
    requires
        s.inv(),
        s.stepped(t, o),
    ensures
        t.inv(),
        t.status == Status::Alive ==> t.body.no_duplicates(),
{
    let c = s.candidate();
    if s.status == Status::Alive && s.grid.holds_xy(c.0, c.1) && !s.body.contains(cell(c)) {
        let head = seq![cell(c)];
        let rest = if cell(c) == s.food { s.body } else { s.body.drop_last() };
        assert(t.body == head + rest);
        assert forall|i: int, j: int| 0 <= i < j < t.body.len() implies t.body[i] != t.body[j] by {
            if i == 0 {
                assert(rest.contains(t.body[j]));
            } else {
                assert(t.body[i] == s.body[i - 1]);
                assert(t.body[j] == s.body[j - 1]);
            }
        }
        assert forall|i: int| 0 <= i < t.body.len() implies t.grid.holds(#[trigger] t.body[i]) by {
            if i > 0 {
                assert(t.body[i] == s.body[i - 1]);
            }
        }
        if cell(c) != s.food {
            if t.body.contains(t.food) {
                let k = choose|k: int| 0 <= k < t.body.len() && t.body[k] == t.food;
                assert(k > 0);
                assert(s.body[k - 1] == s.food);
            }
        }
    }
}

/// A turn keeps the invariant.
pub proof fn lemma_turn_keeps_invariant(s: SnakeState, d: Direction)
    requires
        s.inv(),
    ensures
        s.turned(d).inv(),
{
}

/// On a tick that the snake survives, the new head lies one unit offset of
/// the current direction away from the old head, and the direction stays.
pub proof fn lemma_step_moves_head_one_cell(s: SnakeState, t: SnakeState, o: Outcome)
    requires
        s.inv(),
        s.stepped(t, o),
        o == Outcome::Continued || o == Outcome::AteFood,
    ensures
        t.body[0].0 == s.body[0].0 + s.direction.offset().0,
        t.body[0].1 == s.body[0].1 + s.direction.offset().1,
        t.direction == s.direction,
{
}

/// A turn followed at once by a turn the other way keeps the first turn: the
/// second one is a reversal and is rejected.
pub proof fn lemma_reversal_rejected(s: SnakeState, d: Direction)
    requires
        s.status == Status::Alive,
        d != s.direction.opposite(),
    ensures
        s.turned(d).turned(d.opposite()).direction == d,
{
}

/// Eating grows the body and the score by exactly one; any other tick of a
/// live snake that survives leaves both as they were.
pub proof fn lemma_eating_grows_by_one(s: SnakeState, t: SnakeState, o: Outcome)
    requires
        s.inv(),
        s.status == Status::Alive,
        s.stepped(t, o),
    ensures
        o == Outcome::AteFood || o == Outcome::Won ==> t.body.len() == s.body.len() + 1
            && t.score == s.score + 1,
        o == Outcome::Continued ==> t.body.len() == s.body.len() && t.score == s.score,
{
}

} // verus!
