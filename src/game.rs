//! The game state and its per-tick transition.
use std::collections::VecDeque;

use rand::Rng;
use vstd::prelude::*;

use crate::geometry::{advance, even_column, retreat, Point};

verus! {

/// A heading of the snake.
#[derive(Clone, Copy, Debug, PartialEq, Eq, Structural)]
pub enum Direction {
    Up,
    Down,
    Left,
    Right,
}

impl Direction {
    /// The reverse heading.
    pub open spec fn reverse(self) -> Direction {
        match self {
            Direction::Up => Direction::Down,
            Direction::Down => Direction::Up,
            Direction::Left => Direction::Right,
            Direction::Right => Direction::Left,
        }
    }

    /// The reverse heading: up and down, left and right swap.
    pub fn opposite(&self) -> (r: Direction)
        ensures
            r == self.reverse(),
    {
        match self {
            Direction::Up => Direction::Down,
            Direction::Down => Direction::Up,
            Direction::Left => Direction::Right,
            Direction::Right => Direction::Left,
        }
    }
}

/// A fruit on the board and the reward it carries.
#[derive(Clone, Copy, Debug, PartialEq, Eq, Structural)]
pub struct Fruit {
    pub location: Point,
    pub points: u16,
}

impl Fruit {
    /// What holds of every fruit drawn for a board of `columns` by `rows`:
    /// an even column rounded from one below `columns`, a row below `rows`,
    /// and a reward from 1 to 3.
    pub open spec fn drawn_for(self, columns: int, rows: int) -> bool {
        &&& exists|c: int| 0 <= c < columns && self.location.x == even_column(c)
        &&& self.location.y < rows
        &&& 1 <= self.points <= 3
    }
}

/// The snake: its cells from head to tail, and how many more ticks its tail
/// stays in place.
pub struct Snake {
    body: VecDeque<Point>,
    growing: u16,
}

impl Snake {
    /// The cells, head first.
    pub closed spec fn cells(&self) -> Seq<Point> {
        self.body@
    }

    /// The number of upcoming ticks on which the tail is not cut.
    pub closed spec fn growth(&self) -> u16 {
        self.growing
    }

    /// A snake always has a head.
    pub open spec fn wf(&self) -> bool {
        self.cells().len() >= 1
    }

    /// A snake of the given cells, head first, or `None` for no cells.
    pub fn from_points(points: &Vec<Point>, growing: u16) -> (r: Option<Snake>)
        ensures
            r is Some <==> points@.len() >= 1,
            r matches Some(s) ==> s.cells() == points@ && s.growth() == growing && s.wf(),
    {
        if points.len() == 0 {
            return None;
        }
        let mut body: VecDeque<Point> = VecDeque::new();
        let mut i: usize = 0;
        while i < points.len()
            invariant
                i <= points@.len(),
                body@ == points@.subrange(0, i as int),
            decreases points@.len() - i,
        {
            body.push_back(points[i]);
            i += 1;
            assert(body@ =~= points@.subrange(0, i as int));
        }
        assert(body@ =~= points@);
        Some(Snake { body, growing })
    }

    /// All cells, head first.
    pub fn get_full_body(&self) -> (r: Vec<Point>)
        ensures
            r@ == self.cells(),
    {
        let mut out: Vec<Point> = Vec::new();
        let mut i: usize = 0;
        while i < self.body.len()
            invariant
                i <= self.body@.len(),
                out@ == self.body@.subrange(0, i as int),
            decreases self.body@.len() - i,
        {
            out.push(self.body[i]);
            i += 1;
            assert(out@ =~= self.body@.subrange(0, i as int));
        }
        assert(out@ =~= self.body@);
        out
    }

    /// All cells but the head, head to tail.
    pub fn get_body(&self) -> (r: Vec<Point>)
        requires
            self.wf(),
        ensures
            r@ == self.cells().drop_first(),
    {
        let mut out: Vec<Point> = Vec::new();
        let mut i: usize = 1;
        while i < self.body.len()
            invariant
                1 <= i <= self.body@.len(),
                out@ == self.body@.subrange(1, i as int),
            decreases self.body@.len() - i,
        {
            out.push(self.body[i]);
            i += 1;
            assert(out@ =~= self.body@.subrange(1, i as int));
        }
        assert(out@ =~= self.body@.drop_first());
        out
    }

    /// The head cell.
    pub fn get_head(&self) -> (r: &Point)
        requires
            self.wf(),
        ensures
            *r == self.cells()[0],
    {
        &self.body[0]
    }

    /// Drops the last cell, unless it is the only one.
    fn cut_tail(&mut self)
        ensures
            final(self).cells() == (if old(self).cells().len() > 1 {
                old(self).cells().drop_last()
            } else {
                old(self).cells()
            }),
            final(self).growth() == old(self).growth(),
    {
        if self.body.len() > 1 {
            self.body.pop_back();
        }
    }

    /// Puts `head` in front of the other cells.
    fn add_head(&mut self, head: Point)
        ensures
            final(self).cells() == seq![head] + old(self).cells(),
            final(self).growth() == old(self).growth(),
    {
        self.body.push_front(head);
    }

    /// Whether the tail stays in place on the next tick.
    pub fn is_growing(&self) -> (r: bool)
        ensures
            r == (self.growth() > 0),
    {
        self.growing > 0
    }
}

/// `p` moved one step in direction `d` on a board of the given size:
/// one row vertically, a stride of two columns horizontally, wrapping.
pub open spec fn moved(p: Point, d: Direction, size: Point) -> Point {
    match d {
        Direction::Up => Point { x: p.x, y: retreat(p.y as int, size.y as int, 1) as u16 },
        Direction::Down => Point { x: p.x, y: advance(p.y as int, size.y as int, 1) as u16 },
        Direction::Left => Point { x: retreat(p.x as int, size.x as int, 2) as u16, y: p.y },
        Direction::Right => Point { x: advance(p.x as int, size.x as int, 2) as u16, y: p.y },
    }
}

/// `score` raised by `points`, held at the largest `u64`.
pub open spec fn raised(score: u64, points: u16) -> u64 {
    if score + points > u64::MAX {
        u64::MAX
    } else {
        (score + points) as u64
    }
}

/// The state of a game as a mathematical value.
pub struct GameView {
    pub body: Seq<Point>,
    pub growing: u16,
    pub direction: Direction,
    pub fruit: Fruit,
    pub size: Point,
    pub alive: bool,
    pub score: u64,
}

impl GameView {
    pub open spec fn head(self) -> Point {
        self.body[0]
    }

    /// A head on the board (its column may sit on the right edge of a board
    /// two columns wide), and room for a stride in each direction.
    pub open spec fn wf(self) -> bool {
        &&& self.body.len() >= 1
        &&& self.size.x >= 2
        &&& self.size.y >= 1
        &&& self.head().x <= self.size.x
        &&& self.head().y < self.size.y
    }

    /// Where the head goes on the next tick.
    pub open spec fn next_head(self) -> Point {
        moved(self.head(), self.direction, self.size)
    }

    /// The next head lands on a cell of the current body.
    pub open spec fn hits_itself(self) -> bool {
        self.body.contains(self.next_head())
    }

    /// The next head lands on the fruit.
    pub open spec fn eats(self) -> bool {
        self.next_head() == self.fruit.location
    }

    /// One tick, with `fresh` as the fruit that replaces an eaten one: move the
    /// head, die on hitting the body, eat (take `fresh`, grow by its reward and
    /// score it), then cut the tail unless growing. A dead game stays as it is.
    pub open spec fn step(self, fresh: Fruit) -> GameView {
        if !self.alive {
            self
        } else {
            let grown = seq![self.next_head()] + self.body;
            let growing = if self.eats() { fresh.points } else { self.growing };
            GameView {
                body: if growing > 0 { grown } else { grown.drop_last() },
                growing: if growing > 0 { (growing - 1) as u16 } else { 0 },
                direction: self.direction,
                fruit: if self.eats() { fresh } else { self.fruit },
                size: self.size,
                alive: !self.hits_itself(),
                score: if self.eats() { raised(self.score, fresh.points) } else { self.score },
            }
        }
    }
}

/// A game: the snake, its heading, the fruit, the board size, whether the
/// snake lives, and the score.
pub struct Game {
    pub snake: Snake,
    direction: Direction,
    fruit: Fruit,
    pub size: Point,
    alive: bool,
    pub score: u64,
}

impl View for Game {
    type V = GameView;

    closed spec fn view(&self) -> GameView {
        GameView {
            body: self.snake.cells(),
            growing: self.snake.growth(),
            direction: self.direction,
            fruit: self.fruit,
            size: self.size,
            alive: self.alive,
            score: self.score,
        }
    }
}

impl Game {
    /// A game on a board of `columns` by `rows`: a one-cell snake in the middle
    /// heading right and growing for two ticks, a random fruit, score 0.
    pub fn new(columns: u16, rows: u16) -> (r: Game)
        requires
            columns >= 1,
            rows >= 1,
        ensures
            r@.body == seq![Point { x: even_column((columns / 2) as int) as u16, y: (rows / 2) as u16 }],
            r@.growing == 2,
            r@.direction == Direction::Right,
            r@.fruit.drawn_for(columns as int, rows as int),
            r@.size == (Point { x: even_column(columns as int) as u16, y: rows }),
            r@.alive,
            r@.score == 0,
            r@.wf(),
    {
        let middle = Point::new(columns / 2, rows / 2);
        let mut body: VecDeque<Point> = VecDeque::new();
        body.push_back(middle);
        assert(body@ =~= seq![middle]);
        Game {
            snake: Snake { body, growing: 2 },
            direction: Direction::Right,
            fruit: Game::generate_fruit(columns, rows),
            size: Point { x: Point::round_to_multiple_of_two(columns), y: rows },
            alive: true,
            score: 0,
        }
    }

    /// A live game from the given parts, with score 0; `None` unless the board
    /// is at least two columns by one row and the snake's head lies on it.
    pub fn from_parts(snake: Snake, direction: Direction, fruit: Fruit, size: Point) -> (r:
        Option<Game>)
        requires
            snake.wf(),
        ensures
            r is Some <==> (size.x >= 2 && size.y >= 1 && snake.cells()[0].x <= size.x
                && snake.cells()[0].y < size.y),
            r matches Some(g) ==> (g@ == GameView {
                body: snake.cells(),
                growing: snake.growth(),
                direction,
                fruit,
                size,
                alive: true,
                score: 0,
            }) && g@.wf(),
    {
        let head = *snake.get_head();
        if size.x < 2 || size.y < 1 || head.x > size.x || head.y >= size.y {
            return None;
        }
        Some(Game { snake, direction, fruit, size, alive: true, score: 0 })
    }

    /// A fruit at a random even column below `columns` and row below `rows`,
    /// worth a random reward from 1 to 3.
    pub fn generate_fruit(columns: u16, rows: u16) -> (r: Fruit)
        requires
            columns >= 1,
            rows >= 1,
        ensures
            r.drawn_for(columns as int, rows as int),
    {
        let x = random_in(0, columns);
        let y = random_in(0, rows);
        let points = random_in(1, 4);
        Fruit { location: Point::new(x, y), points }
    }

    /// Where the head goes on the next tick.
    fn next_head(&self) -> (r: Point)
        requires
            self@.wf(),
        ensures
            r == self@.next_head(),
    {
        let head = self.snake.get_head();
        match self.direction {
            Direction::Up => head.up(self.size.y),
            Direction::Down => head.down(self.size.y),
            Direction::Left => head.left(self.size.x),
            Direction::Right => head.right(self.size.x),
        }
    }

    /// Puts the next head in front of the body.
    fn step_snake(&mut self)
        requires
            old(self)@.wf(),
        ensures
            final(self)@ == (GameView { body: seq![old(self)@.next_head()] + old(self)@.body, ..old(self)@ }),
    {
        let new_head = self.next_head();
        self.snake.add_head(new_head);
    }

    /// Kills the snake when its head lies on another of its cells.
    fn check_self_hit(&mut self)
        requires
            old(self).snake.wf(),
        ensures
            final(self)@ == (GameView {
                alive: old(self)@.alive && !old(self)@.body.drop_first().contains(old(self)@.head()),
                ..old(self)@
            }),
    {
        let head = *self.snake.get_head();
        let body = &self.snake.body;
        let mut intersect = false;
        let mut i: usize = 1;
        while i < body.len()
            invariant
                1 <= i <= body@.len(),
                head == body@[0],
                intersect == exists|j: int| 1 <= j < i && body@[j] == head,
            decreases body@.len() - i,
        {
            if body[i] == head {
                intersect = true;
            }
            i += 1;
        }
        proof {
            let rest = body@.drop_first();
            if intersect {
                let j = choose|j: int| 1 <= j < body@.len() && body@[j] == head;
                assert(rest[j - 1] == head);
            }
            if rest.contains(head) {
                let k = choose|k: int| 0 <= k < rest.len() && rest[k] == head;
                assert(body@[k + 1] == head);
            }
        }
        if intersect {
            self.alive = false;
        }
    }

    /// Eats the fruit when the head lies on it: `fresh` takes its place, and
    /// the snake grows by, and the score rises by, the reward of `fresh`.
    fn check_fruit(&mut self, fresh: Fruit)
        requires
            old(self).snake.wf(),
        ensures
            final(self)@ == (if old(self)@.head() == old(self)@.fruit.location {
                GameView {
                    fruit: fresh,
                    growing: fresh.points,
                    score: raised(old(self)@.score, fresh.points),
                    ..old(self)@
                }
            } else {
                old(self)@
            }),
    {
        if self.fruit.location == *self.snake.get_head() {
            self.fruit = fresh;
            self.snake.growing = fresh.points;
            self.score = if self.score <= u64::MAX - fresh.points as u64 {
                self.score + fresh.points as u64
            } else {
                u64::MAX
            };
        }
    }

    /// Counts a growing tick down, or else cuts the tail.
    fn check_growing(&mut self)
        ensures
            final(self)@ == (if old(self)@.growing > 0 {
                GameView { growing: (old(self)@.growing - 1) as u16, ..old(self)@ }
            } else {
                GameView {
                    body: if old(self)@.body.len() > 1 {
                        old(self)@.body.drop_last()
                    } else {
                        old(self)@.body
                    },
                    ..old(self)@
                }
            }),
    {
        if self.snake.growing > 0 {
            self.snake.growing = self.snake.growing - 1;
        } else {
            self.snake.cut_tail();
        }
    }

    /// One tick in which `fresh` replaces the fruit if the snake eats it.
    /// A dead game is left as it is.
    pub fn step_game_with_fruit(&mut self, fresh: Fruit)
        requires
            old(self)@.wf(),
        ensures
            final(self)@ == old(self)@.step(fresh),
            final(self)@.wf(),
    {
        if !self.alive {
            return;
        }
        let ghost g = self@;
        proof {
            lemma_next_head_on_board(g);
        }
        self.step_snake();
        proof {
            assert(self@.body.drop_first() =~= g.body);
        }
        self.check_self_hit();
        self.check_fruit(fresh);
        self.check_growing();
        proof {
            let grown = seq![g.next_head()] + g.body;
            assert(grown.drop_last() =~= grown.subrange(0, grown.len() - 1));
            assert(self@.body.len() >= 1);
            assert(self@.body[0] == g.next_head());
            assert(self@ =~= g.step(fresh));
        }
    }

    /// One tick: move the head, die on hitting the body, eat a fruit and draw
    /// a new one, then cut the tail unless growing. A dead game is left as it is.
    pub fn step_game(&mut self)
        requires
            old(self)@.wf(),
        ensures
            final(self)@ == old(self)@.step(final(self)@.fruit),
            old(self)@.alive && old(self)@.eats() ==> final(self)@.fruit.drawn_for(
                old(self)@.size.x as int,
                old(self)@.size.y as int,
            ),
            final(self)@.wf(),
    {
        let fresh = if self.alive && self.next_head() == self.fruit.location {
            Game::generate_fruit(self.size.x, self.size.y)
        } else {
            self.fruit
        };
        self.step_game_with_fruit(fresh);
    }

    /// The current fruit.
    pub fn get_fruit(&self) -> (r: &Fruit)
        ensures
            *r == self@.fruit,
    {
        &self.fruit
    }

    /// The current heading.
    pub fn get_direction(&self) -> (r: Direction)
        ensures
            r == self@.direction,
    {
        self.direction
    }

    /// Whether the snake is alive.
    pub fn is_alive(&self) -> (r: bool)
        ensures
            r == self@.alive,
    {
        self.alive
    }

    /// Sets whether the snake is alive.
    pub fn set_alive(&mut self, alive: bool)
        ensures
            final(self)@ == (GameView { alive, ..old(self)@ }),
    {
        self.alive = alive;
    }

    /// Takes `dir` as the heading unless it reverses the current one; says
    /// whether it was taken.
    pub fn set_direction(&mut self, dir: Direction) -> (r: bool)
        ensures
            r == (dir != old(self)@.direction.reverse()),
            final(self)@ == (if r {
                GameView { direction: dir, ..old(self)@ }
            } else {
                old(self)@
            }),
    {
        if self.direction.opposite() != dir {
            self.direction = dir;
            return true;
        }
        false
    }
}

/// On a well-formed board the next head stays on it: its row is below the
/// height, and its column is below the width whenever the current one is.
pub proof fn lemma_next_head_on_board(g: GameView)
    requires
        g.wf(),
    ensures
        g.next_head().x <= g.size.x,
        g.head().x < g.size.x ==> g.next_head().x < g.size.x,
        g.next_head().y < g.size.y,
{
    let h = g.head();
    let (w, t) = (g.size.x as int, g.size.y as int);
    match g.direction {
        Direction::Up => assert(0 <= retreat(h.y as int, t, 1) < t),
        Direction::Down => assert(0 <= advance(h.y as int, t, 1) < t),
        Direction::Left => assert(0 <= retreat(h.x as int, w, 2) < w),
        Direction::Right => assert(0 <= advance(h.x as int, w, 2) < w),
    }
}

/// Relies on rand::Rng::gen_range on rand::thread_rng: a value drawn from
/// `lo..hi`; it panics on an empty range, so `lo < hi` is required.
#[verifier::external_body]
fn random_in(lo: u16, hi: u16) -> (r: u16)
    requires
        lo < hi,
    ensures
        lo <= r < hi,
{
    rand::thread_rng().gen_range(lo..hi)
}

} // verus!
