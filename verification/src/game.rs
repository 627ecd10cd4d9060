//! One turn of the game loop: keys in, drawing and exit orders out.
//!
//! The caller owns the keyboard, the screen and the process. Each turn it
//! hands the keys that are down to `Game::step` and carries out what comes
//! back.

use crate::direction::Direction;
use crate::food::Food;
use crate::pos::{Cell, Pos};
use crate::screen::{
    fatal_orders, loss_orders, on_screen, Draw, Step, FATAL_COLOR, FOOD_COLOR, FRAME_COLOR,
    HEAD_COLOR, TAIL_COLOR,
};
use crate::snake::{
    lemma_eat_grows_by_one, lemma_tick_keeps_score, Outcome, Snake, SnakeModel, Steering,
};
use crate::timer::{polled, Timer};
use vstd::prelude::*;

verus! {

/// How often `relocate` draws a cell at random before it looks for a free
/// cell row by row.
pub const DRAWS: u32 = 64;

/// A key of the keyboard, as far as the game tells keys apart.
#[derive(PartialEq, Eq, Structural, Clone, Copy, Debug)]
pub enum Key {
    W,
    A,
    S,
    D,
    Up,
    Left,
    Down,
    Right,
    Q,
    Escape,
    /// Any key that the game does not use.
    Other,
}

/// What a key asks for.
#[derive(PartialEq, Eq, Structural, Clone, Copy, Debug)]
pub enum Command {
    /// Head for the given direction from the next tick on.
    Aim(Direction),
    /// Leave the game.
    Quit,
    /// Nothing.
    Ignore,
}

impl Key {
    /// The arrow keys and `W`, `A`, `S`, `D` steer, `Q` and `Escape` quit.
    pub open spec fn spec_command(self) -> Command {
        match self {
            Key::W | Key::Up => Command::Aim(Direction::Up),
            Key::A | Key::Left => Command::Aim(Direction::Left),
            Key::S | Key::Down => Command::Aim(Direction::Down),
            Key::D | Key::Right => Command::Aim(Direction::Right),
            Key::Q | Key::Escape => Command::Quit,
            Key::Other => Command::Ignore,
        }
    }

    /// What the key asks for.
    #[verifier::when_used_as_spec(spec_command)]
    pub fn command(self) -> (c: Command)
        ensures
            c == self.spec_command(),
    {
        match self {
            Key::W | Key::Up => Command::Aim(Direction::Up),
            Key::A | Key::Left => Command::Aim(Direction::Left),
            Key::S | Key::Down => Command::Aim(Direction::Down),
            Key::D | Key::Right => Command::Aim(Direction::Right),
            Key::Q | Key::Escape => Command::Quit,
            Key::Other => Command::Ignore,
        }
    }
}

/// The snake after the keys of one turn, taken in order and as `how` says,
/// and whether one of them was a quit key. Keys behind the first quit key
/// are not looked at.
pub open spec fn steered(s: SnakeModel, keys: Seq<Key>, how: Steering) -> (SnakeModel, bool)
    decreases keys.len(),
{
    if keys.len() == 0 {
        (s, false)
    } else {
        match keys[0].spec_command() {
            Command::Quit => (s, true),
            Command::Aim(d) => steered(s.steer(d, how), keys.drop_first(), how),
            Command::Ignore => steered(s, keys.drop_first(), how),
        }
    }
}

/// Every cell of the grid with far corner `max` is covered by the snake.
pub open spec fn grid_full(s: SnakeModel, max: Cell) -> bool {
    forall|c: Cell| c.within(max) ==> s.occupies(c)
}

/// The orders that draw the tail, front first.
pub open spec fn body_orders(tail: Seq<Cell>) -> Seq<Draw> {
    tail.map_values(|c: Cell| Draw::Pixel('#', on_screen(c).0, on_screen(c).1))
}

/// The orders that draw one frame: the border, the score, the food, the
/// tail, the head; then the cursor goes below and the frame is sent.
pub open spec fn frame_orders(s: SnakeModel, food: Cell) -> Seq<Draw> {
    seq![
        Draw::Color(FRAME_COLOR),
        Draw::Rect('+', 1, 1, (s.max.x + 2) as u64, (s.max.y + 2) as u64),
        Draw::Score(s.tail.len() as usize, 1, (s.max.y + 3) as u64),
        Draw::Color(FOOD_COLOR),
        Draw::Pixel('@', on_screen(food).0, on_screen(food).1),
        Draw::Color(TAIL_COLOR),
    ] + body_orders(s.tail) + seq![
        Draw::Color(HEAD_COLOR),
        Draw::Pixel('O', on_screen(s.head).0, on_screen(s.head).1),
        Draw::Bottom,
        Draw::Flush,
    ]
}

/// The first cell of the grid, row by row from the near corner, that the
/// snake does not cover.
fn first_free(snake: &Snake, max: Pos) -> (found: Option<Pos>)
    ensures
        found matches Some(p) ==> p@.within(max@) && !snake@.occupies(p@),
        found is None ==> grid_full(snake@, max@),
{
    let mut y: u64 = 1;
    while y <= max.y as u64
        invariant
            1 <= y <= max.y + 1,
            forall|c: Cell| c.within(max@) && c.y < y ==> snake@.occupies(c),
        decreases max.y + 1 - y,
    {
        let mut x: u64 = 1;
        while x <= max.x as u64
            invariant
                1 <= x <= max.x + 1,
                1 <= y <= max.y,
                forall|c: Cell| c.within(max@) && c.y < y ==> snake@.occupies(c),
                forall|c: Cell| c.within(max@) && c.y == y && c.x < x ==> snake@.occupies(c),
            decreases max.x + 1 - x,
        {
            let p = Pos { x: x as u32, y: y as u32 };
            if !snake.occupies(p) {
                return Some(p);
            }
            assert forall|c: Cell| c.within(max@) && c.y == y && c.x < x + 1 implies snake@.occupies(
                c,
            ) by {
                if c.x == x {
                    assert(c == p@);
                }
            }
            x += 1;
        }
        y += 1;
    }
    None
}

/// Takes the food off the snake.
///
/// Food that the snake does not cover stays where it is. Other food is
/// moved to a cell of its grid drawn at random, again and again until the
/// snake does not cover the cell. After `DRAWS` draws without luck the
/// food goes to the first free cell of the grid, row by row from the near
/// corner, so that the search ends even on a board with a single free cell.
/// On a board without a free cell the food stays where it was, and the
/// answer is `false`.
pub fn relocate(food: &mut Food, snake: &Snake) -> (clear: bool)
    ensures
        final(food).max == old(food).max,
        clear <==> !snake@.occupies(final(food).pos@),
        clear <==> !snake@.occupies(old(food).pos@) || !grid_full(snake@, old(food).max@),
        !snake@.occupies(old(food).pos@) ==> final(food).pos == old(food).pos,
        snake@.occupies(old(food).pos@) && clear ==> final(food).pos@.within(old(food).max@),
        !clear ==> final(food).pos == old(food).pos,
{
    let start = food.pos;
    if !snake.occupies(start) {
        return true;
    }
    if food.max.x == 0 || food.max.y == 0 {
        return false;
    }
    let mut drawn: u32 = 0;
    while drawn < DRAWS
        invariant
            food.max == old(food).max,
            1 <= food.max.x,
            1 <= food.max.y,
            start == old(food).pos,
            snake@.occupies(start@),
        decreases DRAWS - drawn,
    {
        food.eat();
        if !snake.occupies(food.pos) {
            return true;
        }
        drawn += 1;
    }
    match first_free(snake, food.max) {
        Some(p) => {
            food.pos = p;
            true
        },
        None => {
            food.pos = start;
            false
        },
    }
}

/// What `Game` stands for.
#[verifier::ext_equal]
pub struct GameModel {
    pub snake: SnakeModel,
    pub food: Food,
    pub timer: Timer,
    pub steering: Steering,
}

impl GameModel {
    /// Snake and food lie on one grid.
    pub open spec fn wf(self) -> bool {
        &&& self.snake.wf()
        &&& self.food.wf()
        &&& self.food.max@ == self.snake.max
    }
}

/// The state of a game: the snake, the food and the timer of the ticks.
pub struct Game {
    pub snake: Snake,
    pub food: Food,
    pub timer: Timer,
    /// How the keys steer the snake.
    pub steering: Steering,
}

impl View for Game {
    type V = GameModel;

    open spec fn view(&self) -> GameModel {
        GameModel {
            snake: self.snake@,
            food: self.food,
            timer: self.timer,
            steering: self.steering,
        }
    }
}

/// What a tick makes of a game: `after` and `step` are a state and an
/// answer that a tick may give in the state `before`.
///
/// The snake moves as `SnakeModel::tick` says. If that ends the game, the
/// food stays and the answer is the exit: status 0 and the final score
/// after a normal loss, status 1 and the red block after a fatal one.
/// Otherwise a snake that has moved onto the food eats, which is the one
/// way its score grows, and the food goes to a cell that the grown snake
/// does not cover; it stays where it is only if there is no such cell.
/// The answer is then the frame of the new state.
pub open spec fn ticked(before: GameModel, after: GameModel, step: Step) -> bool {
    let moved = before.snake.tick();
    &&& after.timer == before.timer
    &&& after.steering == before.steering
    &&& after.food.max == before.food.max
    &&& match before.snake.outcome() {
        Outcome::LostNormal(score) => {
            &&& after.snake == moved
            &&& after.food == before.food
            &&& step matches Step::Exit(status, orders)
            &&& status == 0
            &&& orders@ == loss_orders(score)
        },
        Outcome::LostFatal(score) => {
            &&& after.snake == moved
            &&& after.food == before.food
            &&& step matches Step::Exit(status, orders)
            &&& status == 1
            &&& orders@ == fatal_orders(before.snake.max)
        },
        Outcome::Continue => {
            &&& step matches Step::Frame(orders)
            &&& orders@ == frame_orders(after.snake, after.food.pos@)
            &&& if moved.head == before.food.pos@ {
                &&& after.snake == moved.eat()
                &&& if grid_full(after.snake, after.food.max@) {
                    after.food == before.food
                } else {
                    &&& after.food.pos@.within(after.food.max@)
                    &&& !after.snake.occupies(after.food.pos@)
                }
            } else {
                &&& after.snake == moved
                &&& after.food == before.food
            }
        },
    }
}

/// What a turn makes of a game: `after` and `step` are a state and an
/// answer that a turn with the keys `keys` down may give in the state
/// `before`.
///
/// The keys steer the snake as `steered` says. With a quit key among them
/// nothing else happens, and the answer is the exit with status 0 and no
/// orders. Without one the timer is polled. If no tick is due the answer
/// is `Idle`, and but for the timer the game is as the keys left it. If a
/// tick is due, state and answer are those of the tick.
pub open spec fn stepped(before: GameModel, keys: Seq<Key>, after: GameModel, step: Step) -> bool {
    let aimed = GameModel { snake: steered(before.snake, keys, before.steering).0, ..before };
    if steered(before.snake, keys, before.steering).1 {
        &&& after == aimed
        &&& step matches Step::Exit(status, orders)
        &&& status == 0
        &&& orders@.len() == 0
    } else {
        &&& polled(before.timer, after.timer, !(step is Idle))
        &&& if step is Idle {
            after == GameModel { timer: after.timer, ..aimed }
        } else {
            ticked(GameModel { timer: after.timer, ..aimed }, after, step)
        }
    }
}

impl Game {
    /// A new game on a grid of `max_x` by `max_y` cells, with a tick every
    /// `interval` nanoseconds and keys that steer as `steering` says: the
    /// snake in the near corner, the food on a cell drawn at random.
    pub fn new(max_x: u32, max_y: u32, interval: u128, steering: Steering) -> (g: Game)
        requires
            1 <= max_x,
            1 <= max_y,
        ensures
            g@.wf(),
            g@.snake == SnakeModel::start(Cell { x: max_x as int, y: max_y as int }),
            g@.food.max == (Pos { x: max_x, y: max_y }),
            g@.timer.duration == interval,
            g@.timer.loopable,
            g@.timer.complete <==> interval == 0,
            g@.steering == steering,
    {
        Game {
            snake: Snake::new(max_x, max_y),
            food: Food::new(max_x, max_y),
            timer: Timer::new(interval, true),
            steering,
        }
    }

    /// Hands the keys that are down to the snake, in order, and says
    /// whether one of them was a quit key. Keys behind the first quit key
    /// are not looked at.
    pub fn steer(&mut self, keys: &Vec<Key>) -> (quit: bool)
        ensures
            final(self)@ == (GameModel {
                snake: steered(old(self)@.snake, keys@, old(self).steering).0,
                ..old(self)@
            }),
            quit == steered(old(self)@.snake, keys@, old(self).steering).1,
            final(self).snake.tail == old(self).snake.tail,
    {
        let mut i: usize = 0;
        assert(keys@.subrange(0, keys@.len() as int) =~= keys@);
        while i < keys.len()
            invariant
                i <= keys.len(),
                self.snake.tail == old(self).snake.tail,
                self.food == old(self).food,
                self.timer == old(self).timer,
                self.steering == old(self).steering,
                steered(old(self)@.snake, keys@, self.steering) == steered(
                    self@.snake,
                    keys@.subrange(i as int, keys@.len() as int),
                    self.steering,
                ),
            decreases keys.len() - i,
        {
            let ghost rest = keys@.subrange(i as int, keys@.len() as int);
            assert(rest[0] == keys@[i as int]);
            assert(rest.drop_first() =~= keys@.subrange(i + 1, keys@.len() as int));
            match keys[i].command() {
                Command::Quit => {
                    return true;
                },
                Command::Aim(d) => {
                    self.snake.steer(d, self.steering);
                },
                Command::Ignore => {},
            }
            i += 1;
        }
        false
    }

    /// The orders that draw the game as it stands.
    pub fn frame(&self) -> (orders: Vec<Draw>)
        ensures
            orders@ == frame_orders(self@.snake, self@.food.pos@),
    {
        let max = self.snake.max;
        let mut orders: Vec<Draw> = Vec::new();
        orders.push(Draw::Color(FRAME_COLOR));
        orders.push(Draw::Rect('+', 1, 1, max.x as u64 + 2, max.y as u64 + 2));
        orders.push(Draw::Score(self.snake.tail.len(), 1, max.y as u64 + 3));
        orders.push(Draw::Color(FOOD_COLOR));
        orders.push(Draw::Pixel('@', self.food.pos.x as u64 + 1, self.food.pos.y as u64 + 1));
        orders.push(Draw::Color(TAIL_COLOR));
        let ghost lead = orders@;
        let ghost tail = self@.snake.tail;
        let mut i: usize = 0;
        while i < self.snake.tail.len()
            invariant
                i <= self.snake.tail.len(),
                tail == self@.snake.tail,
                orders@ == lead + body_orders(tail.subrange(0, i as int)),
            decreases self.snake.tail.len() - i,
        {
            let p = self.snake.tail[i];
            assert(tail[i as int] == p@);
            orders.push(Draw::Pixel('#', p.x as u64 + 1, p.y as u64 + 1));
            assert(orders@ =~= lead + body_orders(tail.subrange(0, i + 1)));
            i += 1;
        }
        assert(tail.subrange(0, i as int) =~= tail);
        orders.push(Draw::Color(HEAD_COLOR));
        orders.push(Draw::Pixel('O', self.snake.head.x as u64 + 1, self.snake.head.y as u64 + 1));
        orders.push(Draw::Bottom);
        orders.push(Draw::Flush);
        assert(orders@ =~= frame_orders(self@.snake, self@.food.pos@));
        orders
    }

    /// Runs one tick: the snake moves, eats if it has come onto the food,
    /// and the game is drawn or ends.
    pub fn tick(&mut self) -> (step: Step)
        ensures
            ticked(old(self)@, final(self)@, step),
            old(self)@.wf() ==> final(self)@.wf(),
    {
        let max = self.snake.max;
        match self.snake.update() {
            Outcome::LostNormal(_) => self.snake.lose(),
            Outcome::LostFatal(_) => {
                let mut orders: Vec<Draw> = Vec::new();
                orders.push(Draw::Color(FATAL_COLOR));
                orders.push(
                    Draw::Rect(
                        '!',
                        max.x as u64 + 2,
                        max.y as u64 + 2,
                        max.x as u64 + 4,
                        max.y as u64 + 4,
                    ),
                );
                assert(orders@ =~= fatal_orders(max@));
                Step::Exit(1, orders)
            },
            Outcome::Continue => {
                if self.snake.head == self.food.pos {
                    self.snake.eat();
                    proof {
                        lemma_eat_grows_by_one(old(self)@.snake.tick());
                    }
                    relocate(&mut self.food, &self.snake);
                }
                Step::Frame(self.frame())
            },
        }
    }

    /// Runs one turn of the game loop.
    ///
    /// The keys that are down steer the snake. A quit key ends the game
    /// with status 0 and without a word. Otherwise the timer is asked
    /// whether a tick is due, and if it is, the tick runs. Whether it is
    /// due depends on the clock: the contract says what holds either way.
    pub fn step(&mut self, keys: &Vec<Key>) -> (step: Step)
        ensures
            stepped(old(self)@, keys@, final(self)@, step),
            old(self)@.wf() ==> final(self)@.wf(),
    {
        proof {
            lemma_steered_keeps_grid(old(self)@.snake, keys@, old(self).steering);
        }
        if self.steer(keys) {
            return Step::Exit(0, Vec::new());
        }
        if self.timer.poll() {
            self.tick()
        } else {
            Step::Idle
        }
    }
}

/// A tick adds one to the score if the snake has moved onto the food and
/// is intact, and nothing in every other case.
pub proof fn lemma_tick_scores_once(before: GameModel, after: GameModel, step: Step)
    requires
        ticked(before, after, step),
    ensures
        after.snake.score() == before.snake.score() + (if before.snake.outcome()
            == Outcome::Continue && before.snake.tick().head == before.food.pos@ {
            1nat
        } else {
            0nat
        }),
{
    lemma_tick_keeps_score(before.snake);
    lemma_eat_grows_by_one(before.snake.tick());
}

/// Food that is not under the snake before a tick is not under it after
/// the tick either, if the snake is intact, unless the snake has eaten and
/// now covers the whole grid.
pub proof fn lemma_tick_keeps_food_free(before: GameModel, after: GameModel, step: Step)
    requires
        ticked(before, after, step),
        before.snake.outcome() == Outcome::Continue,
        !before.snake.occupies(before.food.pos@),
    ensures
        !after.snake.occupies(after.food.pos@) || grid_full(after.snake, after.food.max@),
{
    let moved = before.snake.tick();
    let food = before.food.pos@;
    if moved.tail.contains(food) {
        let i = choose|i: int| 0 <= i < moved.tail.len() && moved.tail[i] == food;
        if i > 0 {
            assert(before.snake.tail[i - 1] == food);
        }
    }
}

/// Keys change neither the body of the snake nor its grid.
pub proof fn lemma_steered_keeps_grid(s: SnakeModel, keys: Seq<Key>, how: Steering)
    ensures
        steered(s, keys, how).0.head == s.head,
        steered(s, keys, how).0.tail == s.tail,
        steered(s, keys, how).0.max == s.max,
        steered(s, keys, how).0.grace == s.grace,
        how == Steering::Buffered ==> steered(s, keys, how).0.dir == s.dir,
        s.wf() ==> steered(s, keys, how).0.wf(),
    decreases keys.len(),
{
    if keys.len() > 0 {
        match keys[0].spec_command() {
            Command::Quit => {},
            Command::Aim(d) => {
                lemma_steered_keeps_grid(s.steer(d, how), keys.drop_first(), how);
            },
            Command::Ignore => {
                lemma_steered_keeps_grid(s, keys.drop_first(), how);
            },
        }
    }
}

} // verus!
