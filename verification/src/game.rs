//! The game: a snake, five apples, a score, and what one tick does to them.

use crate::apple::Apple;
use crate::direction::Direction;
use crate::snake::Snake;
use vstd::prelude::*;

verus! {

/// How many apples lie on the grid at any time.
pub const APPLE_COUNT: usize = 5;

/// What the player did during one tick's wait for a key.
#[derive(Clone, Copy, Debug, PartialEq, Eq, Structural)]
pub enum Key {
    Quit,
    MoveUp,
    MoveDown,
    MoveLeft,
    MoveRight,
    Other,
}

/// Why a game is over.
#[derive(Clone, Copy, Debug, PartialEq, Eq, Structural)]
pub enum EndReason {
    QuitRequested,
    BoundaryExit,
}

/// Whether the game goes on after a tick.
#[derive(Clone, Copy, Debug, PartialEq, Eq, Structural)]
pub enum Status {
    Running,
    Ended(EndReason),
}

impl Key {
    /// The heading that the key asks for, if it asks for one.
    pub open spec fn heading_spec(self) -> Option<Direction> {
        match self {
            Key::MoveUp => Some(Direction::Up),
            Key::MoveDown => Some(Direction::Down),
            Key::MoveLeft => Some(Direction::Left),
            Key::MoveRight => Some(Direction::Right),
            Key::Quit | Key::Other => None,
        }
    }

    /// The heading that the key asks for: one for each direction key, none
    /// for any other key.
    #[verifier::when_used_as_spec(heading_spec)]
    pub fn heading(self) -> (heading: Option<Direction>)
        ensures
            heading == self.heading_spec(),
    {
        match self {
            Key::MoveUp => Some(Direction::Up),
            Key::MoveDown => Some(Direction::Down),
            Key::MoveLeft => Some(Direction::Left),
            Key::MoveRight => Some(Direction::Right),
            _ => None,
        }
    }
}

/// The snake after the tick's input has been applied to its heading: a
/// direction key turns it, anything else leaves it as it is.
pub open spec fn steered(snake: Snake, input: Option<Key>) -> Snake {
    match input {
        Some(key) => match key.heading() {
            Some(direction) => snake.turned(direction),
            None => snake,
        },
        None => snake,
    }
}

/// Whether the snake stands on the apple's cell.
pub open spec fn collides_spec(snake: Snake, apple: Apple) -> bool {
    snake.position() == apple.position()
}

/// Whether the snake stands on the apple's cell.
#[verifier::when_used_as_spec(collides_spec)]
pub fn collides(snake: Snake, apple: Apple) -> (hit: bool)
    ensures
        hit == collides_spec(snake, apple),
{
    snake.x == apple.x && snake.y == apple.y
}

/// The test that picks the apples under the snake.
pub open spec fn under(snake: Snake) -> spec_fn(Apple) -> bool {
    |apple: Apple| collides(snake, apple)
}

/// How many of the apples lie under the snake.
pub open spec fn hit_count(apples: Seq<Apple>, snake: Snake) -> nat {
    apples.filter(under(snake)).len()
}

/// The whole state of one session. `width` and `height` are the grid's size
/// and never change.
#[derive(Clone, Copy, Debug, PartialEq, Eq)]
pub struct Game {
    pub snake: Snake,
    pub apples: [Apple; APPLE_COUNT],
    pub score: u64,
    pub width: u16,
    pub height: u16,
}

impl Game {
    /// The state that every tick keeps once it holds: the grid has a cell,
    /// the snake is within the grid's inclusive limits, and every apple lies
    /// on the grid.
    pub open spec fn wf(self) -> bool {
        &&& self.width > 0
        &&& self.height > 0
        &&& self.snake.within(self.width, self.height)
        &&& forall|i: int|
            0 <= i < APPLE_COUNT ==> (#[trigger] self.apples[i]).in_bounds(self.width, self.height)
    }

    /// What a tick with this input reports: a quit ends the game before
    /// anything moves; otherwise the game runs on exactly if the steered snake
    /// can step.
    pub open spec fn status_after(self, input: Option<Key>) -> Status {
        if input == Some(Key::Quit) {
            Status::Ended(EndReason::QuitRequested)
        } else if steered(self.snake, input).can_advance(self.width, self.height) {
            Status::Running
        } else {
            Status::Ended(EndReason::BoundaryExit)
        }
    }

    /// The game after the tick's input and step, before any apple is looked at.
    pub open spec fn moved(self, input: Option<Key>) -> Game {
        if input == Some(Key::Quit) {
            self
        } else if steered(self.snake, input).can_advance(self.width, self.height) {
            Game { snake: steered(self.snake, input).advanced(), ..self }
        } else {
            Game { snake: steered(self.snake, input), ..self }
        }
    }

    /// The first half of a tick: applies the input to the heading and takes
    /// the step. On a quit nothing changes; at the boundary the heading may
    /// have changed but the position has not.
    pub fn advance(&mut self, input: Option<Key>) -> (status: Status)
        ensures
            status == old(self).status_after(input),
            *final(self) == old(self).moved(input),
            old(self).wf() ==> final(self).wf(),
    {
        if let Some(key) = input {
            if let Key::Quit = key {
                return Status::Ended(EndReason::QuitRequested);
            }
            if let Some(direction) = key.heading() {
                self.snake.set_direction(direction);
            }
        }
        if self.snake.move_snake(self.width, self.height) {
            Status::Running
        } else {
            Status::Ended(EndReason::BoundaryExit)
        }
    }

    /// Whether `self` is a state that collecting may leave behind when it
    /// starts from `before`: the score has grown by one for each apple that
    /// lay under the snake, each of those apples lies on some cell of the
    /// grid, and nothing else has changed.
    pub open spec fn harvest_of(self, before: Game) -> bool {
        &&& self.snake == before.snake
        &&& self.width == before.width
        &&& self.height == before.height
        &&& self.score == before.score + hit_count(before.apples@, before.snake)
        &&& forall|i: int|
            0 <= i < APPLE_COUNT ==> if collides(before.snake, #[trigger] before.apples[i]) {
                self.apples[i].in_bounds(before.width, before.height)
            } else {
                self.apples[i] == before.apples[i]
            }
    }

    /// How many apples a tick with this input collects: those under the
    /// snake's new cell if it steps, none if the game ends instead.
    pub open spec fn pending_hits(self, input: Option<Key>) -> nat {
        if self.status_after(input) == Status::Running {
            hit_count(self.apples@, self.moved(input).snake)
        } else {
            0
        }
    }

    /// A new session on a grid of `width` columns and `height` rows: the
    /// snake at its start, no score, and five apples placed at random.
    pub fn new(width: u16, height: u16) -> (game: Game)
        requires
            width > 0,
            height > 0,
        ensures
            game.snake == Snake::start(),
            game.score == 0,
            game.width == width,
            game.height == height,
            game.wf(),
    {
        let apples = [
            Apple::new_random(width, height),
            Apple::new_random(width, height),
            Apple::new_random(width, height),
            Apple::new_random(width, height),
            Apple::new_random(width, height),
        ];
        Game { snake: Snake::new(), apples, score: 0, width, height }
    }

    /// Counts one collected apple and puts `fresh` in the place of apple
    /// number `index`.
    pub fn respawn(&mut self, index: usize, fresh: Apple)
        requires
            index < APPLE_COUNT,
            old(self).score < u64::MAX,
        ensures
            final(self).score == old(self).score + 1,
            final(self).apples@ == old(self).apples@.update(index as int, fresh),
            final(self).snake == old(self).snake,
            final(self).width == old(self).width,
            final(self).height == old(self).height,
            old(self).wf() && fresh.in_bounds(old(self).width, old(self).height)
                ==> final(self).wf(),
    {
        self.score += 1;
        self.apples[index] = fresh;
    }

    /// Collects every apple under the snake: each one adds 1 to the score and
    /// is replaced by an apple on a random cell of the grid. Apples elsewhere
    /// stay where they are.
    pub fn harvest(&mut self)
        requires
            old(self).width > 0,
            old(self).height > 0,
            old(self).score + hit_count(old(self).apples@, old(self).snake) <= u64::MAX,
        ensures
            final(self).harvest_of(*old(self)),
            old(self).score <= final(self).score <= old(self).score + APPLE_COUNT,
            (forall|i: int|
                0 <= i < APPLE_COUNT ==> !collides(old(self).snake, #[trigger] old(self).apples[i]))
                ==> *final(self) == *old(self),
            old(self).wf() ==> final(self).wf(),
    {
        let mut i: usize = 0;
        while i < APPLE_COUNT
            invariant
                i <= APPLE_COUNT,
                self.snake == old(self).snake,
                self.width == old(self).width,
                self.height == old(self).height,
                self.width > 0,
                self.height > 0,
                old(self).score + hit_count(old(self).apples@, old(self).snake) <= u64::MAX,
                self.score == old(self).score + hit_count(
                    old(self).apples@.take(i as int),
                    old(self).snake,
                ),
                forall|j: int|
                    0 <= j < i ==> if collides(old(self).snake, #[trigger] old(self).apples[j]) {
                        self.apples[j].in_bounds(self.width, self.height)
                    } else {
                        self.apples[j] == old(self).apples[j]
                    },
                forall|j: int|
                    i <= j < APPLE_COUNT ==> self.apples[j] == #[trigger] old(self).apples[j],
            decreases APPLE_COUNT - i,
        {
            proof {
                lemma_hit_count_step(old(self).apples@, old(self).snake, i as int);
                lemma_hit_count_prefix(old(self).apples@, old(self).snake, i + 1);
            }
            if collides(self.snake, self.apples[i]) {
                let fresh = Apple::new_random(self.width, self.height);
                self.respawn(i, fresh);
            }
            i += 1;
        }
        proof {
            assert(old(self).apples@.take(APPLE_COUNT as int) =~= old(self).apples@);
            lemma_no_hit(old(self).apples@, old(self).snake);
            if hit_count(old(self).apples@, old(self).snake) == 0 {
                assert(self.apples =~= old(self).apples);
            }
            if old(self).wf() {
                assert forall|i: int| 0 <= i < APPLE_COUNT implies (#[trigger] self.apples[i])
                    .in_bounds(self.width, self.height) by {
                    assert(old(self).apples[i].in_bounds(self.width, self.height));
                }
            }
        }
    }

    /// One tick: the input is applied, the snake steps, and if the game runs
    /// on, the apples under the snake's new cell are collected. A quit ends
    /// the game with nothing changed; a refused step ends it with nothing
    /// collected.
    pub fn tick(&mut self, input: Option<Key>) -> (status: Status)
        requires
            old(self).width > 0,
            old(self).height > 0,
            old(self).score + old(self).pending_hits(input) <= u64::MAX,
        ensures
            status == old(self).status_after(input),
            status == Status::Running ==> final(self).harvest_of(old(self).moved(input)),
            status != Status::Running ==> *final(self) == old(self).moved(input),
            input == Some(Key::Quit) ==> *final(self) == *old(self),
            old(self).score <= final(self).score <= old(self).score + APPLE_COUNT,
            (forall|i: int|
                0 <= i < APPLE_COUNT ==> !collides(
                    old(self).moved(input).snake,
                    #[trigger] old(self).apples[i],
                )) ==> *final(self) == old(self).moved(input),
            old(self).wf() ==> final(self).wf(),
    {
        let status = self.advance(input);
        if let Status::Running = status {
            self.harvest();
        }
        status
    }
}

/// Looking at one apple more raises the count by one exactly if that apple
/// lies under the snake.
pub proof fn lemma_hit_count_step(apples: Seq<Apple>, snake: Snake, n: int)
    requires
        0 <= n < apples.len(),
    ensures
        hit_count(apples.take(n + 1), snake) == hit_count(apples.take(n), snake) + if collides(
            snake,
            apples[n],
        ) {
            1nat
        } else {
            0nat
        },
{
    reveal(Seq::filter);
    assert(apples.take(n + 1).drop_last() =~= apples.take(n));
}

/// The apples under the snake among the first `n` are no more than `n`, and
/// no more than those among all.
pub proof fn lemma_hit_count_prefix(apples: Seq<Apple>, snake: Snake, n: int)
    requires
        0 <= n <= apples.len(),
    ensures
        hit_count(apples.take(n), snake) <= n,
        hit_count(apples.take(n), snake) <= hit_count(apples, snake),
        hit_count(apples, snake) <= apples.len(),
{
    apples.take(n).lemma_filter_len(under(snake));
    apples.lemma_filter_len(under(snake));
    assert(apples =~= apples.take(n) + apples.skip(n));
    Seq::filter_distributes_over_add(apples.take(n), apples.skip(n), under(snake));
}

/// No apple is counted exactly if no apple lies under the snake.
pub proof fn lemma_no_hit(apples: Seq<Apple>, snake: Snake)
    ensures
        hit_count(apples, snake) == 0 <==> forall|i: int|
            0 <= i < apples.len() ==> !collides(snake, #[trigger] apples[i]),
    decreases apples.len(),
{
    reveal(Seq::filter);
    if apples.len() > 0 {
        lemma_no_hit(apples.drop_last(), snake);
        if hit_count(apples, snake) == 0 {
            assert forall|i: int| 0 <= i < apples.len() implies !collides(
                snake,
                #[trigger] apples[i],
            ) by {
                if i < apples.len() - 1 {
                    assert(apples.drop_last()[i] == apples[i]);
                }
            }
        } else if !collides(snake, apples.last()) {
            let i = choose|i: int|
                0 <= i < apples.len() - 1 && collides(snake, #[trigger] apples.drop_last()[i]);
            assert(apples[i] == apples.drop_last()[i]);
        }
    }
}

} // verus!
