//! The snake: its body on the grid and the rules of one tick.

use crate::direction::{lemma_opposite_undoes_step, Direction};
use crate::pos::{cells, lemma_step_wrap_within, wrap_coord, Cell, Pos};
use crate::screen::{loss_orders, Draw, Step};
use vstd::prelude::*;

verus! {

/// How a tick ended.
///
/// Both losses carry the score, which is the length of the tail when the
/// snake ran into itself.
#[derive(PartialEq, Eq, Structural, Clone, Copy, Debug)]
pub enum Outcome {
    /// The snake moved and is intact.
    Continue,
    /// The snake ran into its tail after wrap-around, or with no grace left.
    LostNormal(usize),
    /// The snake ran into its tail before wrap-around and spent its grace.
    LostFatal(usize),
}

/// How a request for a heading is taken.
#[derive(PartialEq, Eq, Structural, Clone, Copy, Debug)]
pub enum Steering {
    /// The request is committed at once, whatever it asks for.
    Immediate,
    /// The request waits for the next tick, and the reverse of the
    /// committed heading is dropped.
    Buffered,
}

/// What a `Snake` stands for: cells of the integer plane in place of
/// machine coordinates, and a sequence in place of a vector.
#[verifier::ext_equal]
pub struct SnakeModel {
    pub head: Cell,
    /// Front is the cell the head left last, back is the oldest segment.
    pub tail: Seq<Cell>,
    /// The heading committed by the last tick.
    pub dir: Direction,
    /// The heading that the next tick will commit.
    pub next_dir: Direction,
    /// Far corner of the grid; the near corner is `(1, 1)`.
    pub max: Cell,
    /// Whether the next collision before wrap-around takes the fatal path.
    pub grace: bool,
}

impl SnakeModel {
    /// The grid has at least one cell, and head and tail lie on it.
    pub open spec fn wf(self) -> bool {
        &&& 1 <= self.max.x
        &&& 1 <= self.max.y
        &&& self.head.within(self.max)
        &&& forall|i: int| 0 <= i < self.tail.len() ==> (#[trigger] self.tail[i]).within(self.max)
    }

    /// The pending heading is not the reverse of the committed one. A
    /// snake at rest has no reverse to speak of.
    pub open spec fn steady(self) -> bool {
        self.dir == Direction::Still || self.next_dir != self.dir.spec_opposite()
    }

    /// The player's score: one point for each segment of the tail.
    pub open spec fn score(self) -> nat {
        self.tail.len()
    }

    /// The snake covers `c` with its head or with a segment of its tail.
    pub open spec fn occupies(self, c: Cell) -> bool {
        self.head == c || self.tail.contains(c)
    }

    /// A new snake on a grid with far corner `max`: in the near corner,
    /// without a tail, at rest, with its grace.
    pub open spec fn start(max: Cell) -> SnakeModel {
        SnakeModel {
            head: Cell { x: 1, y: 1 },
            tail: Seq::empty(),
            dir: Direction::Still,
            next_dir: Direction::Still,
            max,
            grace: true,
        }
    }

    /// The snake after the player asked for heading `d`. The request is
    /// dropped if `d` is the reverse of the committed heading, and
    /// otherwise waits in `next_dir` for the next tick.
    pub open spec fn aim(self, d: Direction) -> SnakeModel {
        if d != self.dir.spec_opposite() {
            SnakeModel { next_dir: d, ..self }
        } else {
            self
        }
    }

    /// The snake after the player turned it to heading `d` at once: `d` is
    /// committed, whatever the committed heading was.
    pub open spec fn turn(self, d: Direction) -> SnakeModel {
        SnakeModel { dir: d, next_dir: d, ..self }
    }

    /// The snake after a request for heading `d`, taken as `how` says.
    pub open spec fn steer(self, d: Direction, how: Steering) -> SnakeModel {
        match how {
            Steering::Immediate => self.turn(d),
            Steering::Buffered => self.aim(d),
        }
    }

    /// The snake after it has eaten: the tail has one more segment, a copy
    /// of the head at its front.
    pub open spec fn eat(self) -> SnakeModel {
        SnakeModel { tail: self.tail.insert(0, self.head), ..self }
    }

    /// The tail after a tick: an empty tail stays empty, any other loses
    /// its oldest segment and gains the cell the head is leaving.
    pub open spec fn shifted(self) -> Seq<Cell> {
        if self.tail.len() == 0 {
            self.tail
        } else {
            self.tail.drop_last().insert(0, self.head)
        }
    }

    /// The cell one step ahead of the head in the pending heading, before
    /// wrap-around. It may lie just off the grid.
    pub open spec fn reach(self) -> Cell {
        self.head.step(self.next_dir)
    }

    /// The cell one step ahead of the head after wrap-around.
    pub open spec fn landing(self) -> Cell {
        self.reach().wrap(self.max)
    }

    /// The tick takes the fatal path: the step, before wrap-around, ends on
    /// the shifted tail while the snake has its grace.
    pub open spec fn stumbles(self) -> bool {
        self.grace && self.shifted().contains(self.reach())
    }

    /// The tick takes the normal loss path: the fatal path is not taken and
    /// the step, after wrap-around, ends on the shifted tail.
    pub open spec fn bites(self) -> bool {
        !self.stumbles() && self.shifted().contains(self.landing())
    }

    /// The snake after one tick.
    ///
    /// The pending heading is committed and the tail shifts in every case.
    /// On the fatal path the head stays where it was and the grace is
    /// spent. On every other path the head moves to `landing` and the
    /// grace is there again for the next tick.
    pub open spec fn tick(self) -> SnakeModel {
        if self.stumbles() {
            SnakeModel { tail: self.shifted(), dir: self.next_dir, grace: false, ..self }
        } else {
            SnakeModel {
                head: self.landing(),
                tail: self.shifted(),
                dir: self.next_dir,
                grace: true,
                ..self
            }
        }
    }

    /// How the tick ends.
    pub open spec fn outcome(self) -> Outcome {
        if self.stumbles() {
            Outcome::LostFatal(self.tail.len() as usize)
        } else if self.bites() {
            Outcome::LostNormal(self.tail.len() as usize)
        } else {
            Outcome::Continue
        }
    }
}

/// One thing that can happen to a snake.
pub enum Move {
    /// The player asks for a heading.
    Aim(Direction),
    /// The player turns the snake at once.
    Turn(Direction),
    /// The snake eats.
    Eat,
    /// A tick of the simulation runs.
    Tick,
}

impl SnakeModel {
    /// The snake after `m` has happened to it.
    pub open spec fn apply(self, m: Move) -> SnakeModel {
        match m {
            Move::Aim(d) => self.aim(d),
            Move::Turn(d) => self.turn(d),
            Move::Eat => self.eat(),
            Move::Tick => self.tick(),
        }
    }

    /// The snake after all of `moves` have happened to it, first to last.
    pub open spec fn play(self, moves: Seq<Move>) -> SnakeModel
        decreases moves.len(),
    {
        if moves.len() == 0 {
            self
        } else {
            self.play(moves.drop_last()).apply(moves.last())
        }
    }
}

/// How often the snake eats in the course of `moves`.
pub open spec fn meals(moves: Seq<Move>) -> nat
    decreases moves.len(),
{
    if moves.len() == 0 {
        0
    } else {
        meals(moves.drop_last()) + if moves.last() is Eat {
            1nat
        } else {
            0nat
        }
    }
}

/// The snake of the game.
pub struct Snake {
    pub head: Pos,
    /// Front is the cell the head left last, back is the oldest segment.
    pub tail: Vec<Pos>,
    /// The heading committed by the last tick.
    pub dir: Direction,
    /// The heading that the next tick will commit.
    pub next_dir: Direction,
    /// Far corner of the grid; the near corner is `(1, 1)`.
    pub max: Pos,
    /// Whether the next collision before wrap-around takes the fatal path.
    pub grace: bool,
}

impl View for Snake {
    type V = SnakeModel;

    open spec fn view(&self) -> SnakeModel {
        SnakeModel {
            head: self.head@,
            tail: cells(self.tail@),
            dir: self.dir,
            next_dir: self.next_dir,
            max: self.max@,
            grace: self.grace,
        }
    }
}

/// Whether one of `tail` stands for the cell `(x, y)`.
fn covers(tail: &Vec<Pos>, x: i64, y: i64) -> (found: bool)
    ensures
        found == cells(tail@).contains(Cell { x: x as int, y: y as int }),
{
    let ghost c = Cell { x: x as int, y: y as int };
    let mut i: usize = 0;
    while i < tail.len()
        invariant
            i <= tail.len(),
            c == (Cell { x: x as int, y: y as int }),
            forall|j: int| 0 <= j < i ==> cells(tail@)[j] != c,
        decreases tail.len() - i,
    {
        let p = tail[i];
        if p.x as i64 == x && p.y as i64 == y {
            assert(cells(tail@)[i as int] == c);
            return true;
        }
        i += 1;
    }
    false
}

/// One coordinate after a step of `delta`, which is `-1`, `0` or `1`.
fn shift_coord(c: u32, delta: i64) -> (r: i64)
    requires
        -1 <= delta <= 1,
    ensures
        r == c + delta,
{
    c as i64 + delta
}

/// One coordinate brought back onto `1..=max`.
fn wrap_onto(c: i64, max: u32) -> (r: u32)
    ensures
        r == wrap_coord(c as int, max as int),
{
    if c > max as i64 {
        1
    } else if c < 1 {
        max
    } else {
        c as u32
    }
}

impl Snake {
    /// A new snake on a grid of `max_x` by `max_y` cells: in the near
    /// corner, without a tail, at rest.
    pub fn new(max_x: u32, max_y: u32) -> (s: Snake)
        ensures
            s@ == SnakeModel::start(Cell { x: max_x as int, y: max_y as int }),
            s.tail@.len() == 0,
            s@.steady(),
            s@.wf() <==> 1 <= max_x && 1 <= max_y,
    {
        let s = Snake {
            head: Pos { x: 1, y: 1 },
            tail: Vec::new(),
            dir: Direction::Still,
            next_dir: Direction::Still,
            max: Pos { x: max_x, y: max_y },
            grace: true,
        };
        assert(s@.tail =~= Seq::<Cell>::empty());
        s
    }

    /// Runs one tick of the simulation and says how it ended.
    ///
    /// The steps, in order: commit the pending heading; shift the tail;
    /// move the head one cell; if the head is now on the tail and the
    /// snake has its grace, spend the grace, take the step back and report
    /// the fatal loss; otherwise wrap the head round the edges of the
    /// grid, and report the normal loss if it is on the tail now.
    pub fn update(&mut self) -> (o: Outcome)
        ensures
            final(self)@ == old(self)@.tick(),
            o == old(self)@.outcome(),
            old(self)@.wf() ==> final(self)@.wf(),
    {
        let ghost before = self@;
        self.dir = self.next_dir;
        if !self.tail.is_empty() {
            self.tail.pop();
            self.tail.insert(0, self.head);
        }
        assert(cells(self.tail@) =~= before.shifted());

        let (dx, dy): (i64, i64) = match self.dir {
            Direction::Up => (0, -1),
            Direction::Left => (-1, 0),
            Direction::Down => (0, 1),
            Direction::Right => (1, 0),
            Direction::Still => (0, 0),
        };
        let x = shift_coord(self.head.x, dx);
        let y = shift_coord(self.head.y, dy);
        assert(Cell { x: x as int, y: y as int } == before.reach());

        if covers(&self.tail, x, y) && self.grace {
            self.grace = false;
            return Outcome::LostFatal(self.tail.len());
        }
        self.grace = true;

        self.head = Pos { x: wrap_onto(x, self.max.x), y: wrap_onto(y, self.max.y) };
        assert(self.head@ == before.landing());

        if covers(&self.tail, self.head.x as i64, self.head.y as i64) {
            return Outcome::LostNormal(self.tail.len());
        }
        Outcome::Continue
    }

    /// Asks for heading `dir`. The request takes effect at the next tick,
    /// unless `dir` is the reverse of the committed heading: then it is
    /// dropped.
    pub fn aim(&mut self, dir: Direction)
        ensures
            final(self)@ == old(self)@.aim(dir),
            final(self).tail == old(self).tail,
    {
        if dir != self.dir.opposite() {
            self.next_dir = dir;
        }
    }

    /// Turns the snake to heading `dir` at once. Nothing guards against a
    /// reversal: a snake that is turned round may run into its tail at the
    /// next tick.
    pub fn turn(&mut self, dir: Direction)
        ensures
            final(self)@ == old(self)@.turn(dir),
            final(self).tail == old(self).tail,
    {
        self.dir = dir;
        self.next_dir = dir;
    }

    /// Takes a request for heading `dir` as `how` says: `turn` for
    /// immediate steering, `aim` for buffered steering.
    pub fn steer(&mut self, dir: Direction, how: Steering)
        ensures
            final(self)@ == old(self)@.steer(dir, how),
            final(self).tail == old(self).tail,
    {
        match how {
            Steering::Immediate => self.turn(dir),
            Steering::Buffered => self.aim(dir),
        }
    }

    /// Grows the tail by one segment, a copy of the head at its front.
    pub fn eat(&mut self)
        ensures
            final(self)@ == old(self)@.eat(),
    {
        self.tail.insert(0, self.head);
        assert(cells(self.tail@) =~= old(self)@.tail.insert(0, old(self)@.head));
    }

    /// What is left to do after a normal loss: wipe the screen, put the
    /// cursor in its corner, report the final score, and leave the process
    /// with status 0.
    pub fn lose(&self) -> (step: Step)
        ensures
            step matches Step::Exit(status, orders) && status == 0 && orders@ == loss_orders(
                self@.score() as usize,
            ),
    {
        let mut orders: Vec<Draw> = Vec::new();
        orders.push(Draw::Clear);
        orders.push(Draw::Home);
        orders.push(Draw::GameOver(self.tail.len()));
        assert(orders@ =~= loss_orders(self.tail.len()));
        Step::Exit(0, orders)
    }

    /// The player's score.
    pub fn score(&self) -> (n: usize)
        ensures
            n == self@.score(),
    {
        self.tail.len()
    }

    /// Whether the snake covers `p` with its head or its tail.
    pub fn occupies(&self, p: Pos) -> (b: bool)
        ensures
            b == self@.occupies(p@),
    {
        p == self.head || covers(&self.tail, p.x as i64, p.y as i64)
    }
}

/// A tick leaves the score as it is.
pub proof fn lemma_tick_keeps_score(s: SnakeModel)
    ensures
        s.tick().score() == s.score(),
{
}

/// A loss reports the score that the snake has before and after the tick.
pub proof fn lemma_loss_reports_score(s: SnakeModel, n: usize)
    requires
        s.tail.len() <= usize::MAX,
        s.outcome() == Outcome::LostNormal(n) || s.outcome() == Outcome::LostFatal(n),
    ensures
        n == s.score(),
        n == s.tick().score(),
{
}

/// A snake on its grid is on its grid after a tick, however the tick ends.
pub proof fn lemma_tick_stays_on_grid(s: SnakeModel)
    requires
        s.wf(),
    ensures
        s.tick().wf(),
        s.tick().max == s.max,
{
    let t = s.tick();
    lemma_step_wrap_within(s.head, s.next_dir, s.max);
    assert forall|i: int| 0 <= i < t.tail.len() implies (#[trigger] t.tail[i]).within(t.max) by {
        if i > 0 {
            assert(t.tail[i] == s.tail[i - 1]);
        }
    }
}

/// On the fatal path the head ends where it began: the step back, one
/// cell in the reverse of the committed heading, undoes the step.
pub proof fn lemma_fatal_path_restores_head(s: SnakeModel)
    requires
        s.stumbles(),
    ensures
        s.reach().step(s.next_dir.spec_opposite()) == s.head,
        s.tick().head == s.head,
        !s.tick().grace,
        s.outcome() == Outcome::LostFatal(s.tail.len() as usize),
{
    lemma_opposite_undoes_step(s.next_dir);
}

/// Whatever happens to a snake on its grid, and in whatever order, it
/// stays on its grid, and its score has grown by the number of its meals:
/// the length of the tail is the score at every point of a game.
pub proof fn lemma_play_keeps_grid_and_score(s: SnakeModel, moves: Seq<Move>)
    requires
        s.wf(),
    ensures
        s.play(moves).wf(),
        s.play(moves).max == s.max,
        s.play(moves).score() == s.score() + meals(moves),
    decreases moves.len(),
{
    if moves.len() > 0 {
        let before = s.play(moves.drop_last());
        lemma_play_keeps_grid_and_score(s, moves.drop_last());
        match moves.last() {
            Move::Aim(d) => {},
            Move::Turn(d) => {},
            Move::Eat => {
                lemma_eat_grows_by_one(before);
            },
            Move::Tick => {
                lemma_tick_stays_on_grid(before);
                lemma_tick_keeps_score(before);
            },
        }
    }
}

/// Under buffered steering nothing turns a moving snake round on the spot:
/// as long as the player only asks, and never turns the snake at once, the
/// next tick does not commit the reverse of the heading committed before
/// it.
pub proof fn lemma_play_never_reverses(s: SnakeModel, moves: Seq<Move>)
    requires
        s.steady(),
        forall|i: int| 0 <= i < moves.len() ==> !(#[trigger] moves[i] is Turn),
    ensures
        s.play(moves).steady(),
        s.play(moves).dir != Direction::Still ==> s.play(moves).tick().dir != s.play(
            moves,
        ).dir.spec_opposite(),
    decreases moves.len(),
{
    if moves.len() > 0 {
        assert(!(moves[moves.len() - 1] is Turn));
        lemma_play_never_reverses(s, moves.drop_last());
    }
}

/// Turned at once, a snake heads where it was told, reversal or not, and
/// the tick that follows moves it there; its body, its grid and its grace
/// are as before.
pub proof fn lemma_turn_is_committed_at_once(s: SnakeModel, d: Direction)
    ensures
        s.turn(d).dir == d,
        s.turn(d).tick().dir == d,
        s.turn(d).head == s.head,
        s.turn(d).tail == s.tail,
        s.turn(d).max == s.max,
        s.turn(d).grace == s.grace,
        s.turn(d).reach() == s.head.step(d),
{
}

/// Asking a moving snake to reverse changes nothing.
pub proof fn lemma_reversal_is_dropped(s: SnakeModel, d: Direction)
    requires
        s.dir != Direction::Still,
        d == s.dir.spec_opposite(),
    ensures
        s.aim(d) == s,
{
}

/// A request never changes the committed heading, the body or the grid.
/// One that is not a reversal is committed by the next tick, and by no
/// step before it.
pub proof fn lemma_aim_waits_for_tick(s: SnakeModel, d: Direction)
    ensures
        s.aim(d).dir == s.dir,
        s.aim(d).head == s.head,
        s.aim(d).tail == s.tail,
        s.aim(d).max == s.max,
        s.aim(d).grace == s.grace,
        d != s.dir.spec_opposite() ==> s.aim(d).tick().dir == d,
        d == s.dir.spec_opposite() ==> s.aim(d).tick().dir == s.next_dir,
{
}

/// Eating makes the snake one segment longer, at once and for good: the
/// tick that follows takes nothing back.
pub proof fn lemma_eat_grows_by_one(s: SnakeModel)
    ensures
        s.eat().score() == s.score() + 1,
        s.eat().tick().score() == s.score() + 1,
        s.wf() ==> s.eat().wf(),
{
    let e = s.eat();
    assert forall|i: int| 0 <= i < e.tail.len() && s.wf() implies (#[trigger] e.tail[i]).within(
        e.max,
    ) by {
        if i > 0 {
            assert(e.tail[i] == s.tail[i - 1]);
        }
    }
}

} // verus!
