//! The snake: one cell on the grid and a heading.

use crate::direction::Direction;
use std::time::Duration;
use vstd::prelude::*;

verus! {

/// The `Duration` that `Duration::from_millis` makes of a number of milliseconds.
pub uninterp spec fn duration_of_millis(millis: u64) -> Duration;

/// `Duration::from_millis` of the standard library: the result is determined
/// by the number of milliseconds handed in and by nothing else.
pub assume_specification[ Duration::from_millis ](millis: u64) -> (d: Duration)
    ensures
        d == duration_of_millis(millis),
;

/// The player's one-cell snake. `x` is the column and `y` the row; row 0 is
/// the top of the grid.
#[derive(Clone, Copy, Debug, PartialEq, Eq, Structural)]
pub struct Snake {
    pub x: u16,
    pub y: u16,
    pub direction: Direction,
}

impl Snake {
    /// The snake as every game begins: top left corner, heading right.
    pub open spec fn start() -> Snake {
        Snake { x: 0, y: 0, direction: Direction::Right }
    }

    /// (column, row) as mathematical integers.
    pub open spec fn position(self) -> (int, int) {
        (self.x as int, self.y as int)
    }

    /// Whether one step along the heading is allowed on a grid with these
    /// limits. The far limits are inclusive: column `max_width` and row
    /// `max_height` can be entered, and are left only backwards.
    pub open spec fn can_advance(self, max_width: u16, max_height: u16) -> bool {
        match self.direction {
            Direction::Up => self.y > 0,
            Direction::Down => self.y < max_height,
            Direction::Left => self.x > 0,
            Direction::Right => self.x < max_width,
        }
    }

    /// The snake one step further along its heading.
    pub open spec fn advanced(self) -> Snake {
        Snake {
            x: (self.x + self.direction.delta().0) as u16,
            y: (self.y + self.direction.delta().1) as u16,
            direction: self.direction,
        }
    }

    /// The same snake with another heading.
    pub open spec fn turned(self, direction: Direction) -> Snake {
        Snake { x: self.x, y: self.y, direction }
    }

    /// Whether the snake stands on a column up to `max_width` and a row up to
    /// `max_height`, both inclusive.
    pub open spec fn within(self, max_width: u16, max_height: u16) -> bool {
        self.x <= max_width && self.y <= max_height
    }

    /// A snake on the top left cell, heading right.
    pub fn new() -> (snake: Snake)
        ensures
            snake == Snake::start(),
    {
        Snake { x: 0, y: 0, direction: Direction::Right }
    }

    /// Overwrites the heading. Any heading may follow any other, the opposite
    /// one included.
    pub fn set_direction(&mut self, direction: Direction)
        ensures
            *final(self) == old(self).turned(direction),
    {
        self.direction = direction;
    }

    /// Takes one step along the heading if the grid allows it, and says
    /// whether it did. A refused step changes nothing.
    pub fn move_snake(&mut self, max_width: u16, max_height: u16) -> (moved: bool)
        ensures
            moved == old(self).can_advance(max_width, max_height),
            moved ==> *final(self) == old(self).advanced(),
            moved ==> final(self).position() == (
                old(self).x + old(self).direction.delta().0,
                old(self).y + old(self).direction.delta().1,
            ),
            !moved ==> *final(self) == *old(self),
            final(self).direction == old(self).direction,
            old(self).within(max_width, max_height) ==> final(self).within(max_width, max_height),
    {
        match self.direction {
            Direction::Up => {
                if self.y > 0 {
                    self.y -= 1;
                } else {
                    return false;
                }
            },
            Direction::Down => {
                if self.y < max_height {
                    self.y += 1;
                } else {
                    return false;
                }
            },
            Direction::Left => {
                if self.x > 0 {
                    self.x -= 1;
                } else {
                    return false;
                }
            },
            Direction::Right => {
                if self.x < max_width {
                    self.x += 1;
                } else {
                    return false;
                }
            },
        }
        true
    }

    /// The character that shows the snake: the arrow of its heading.
    pub fn get_char(&self) -> (c: char)
        ensures
            c == self.direction.glyph(),
    {
        self.direction.glyph()
    }

    /// How long the game waits for a key, and again after drawing, while the
    /// snake has this heading: 75 ms when it is vertical, 50 ms otherwise.
    pub fn get_wait_time(&self) -> (wait: Duration)
        ensures
            wait == duration_of_millis(self.direction.wait_millis()),
            wait == duration_of_millis(
                if self.direction == Direction::Up || self.direction == Direction::Down {
                    75
                } else {
                    50
                },
            ),
    {
        Duration::from_millis(self.direction.wait_millis())
    }
}

/// A snake heading up on the top row cannot step, whatever the grid's limits;
/// on any lower row it can.
pub proof fn lemma_up_needs_row_above(snake: Snake, max_width: u16, max_height: u16)
    requires
        snake.direction == Direction::Up,
    ensures
        snake.can_advance(max_width, max_height) <==> snake.y > 0,
        snake.y > 0 ==> snake.advanced().position() == (snake.x as int, snake.y - 1),
{
}

/// A snake heading right steps exactly while its column is below `max_width`,
/// and the step takes it one column further on the same row.
pub proof fn lemma_right_needs_column_below_limit(snake: Snake, max_width: u16, max_height: u16)
    requires
        snake.direction == Direction::Right,
    ensures
        snake.can_advance(max_width, max_height) <==> snake.x < max_width,
        snake.x < max_width ==> snake.advanced().position() == (snake.x + 1, snake.y as int),
{
}

/// A step that the grid allows leaves a snake that was within the limits
/// within them.
pub proof fn lemma_advance_stays_within(snake: Snake, max_width: u16, max_height: u16)
    requires
        snake.within(max_width, max_height),
        snake.can_advance(max_width, max_height),
    ensures
        snake.advanced().within(max_width, max_height),
        snake.advanced().direction == snake.direction,
{
}

} // verus!
