//! What a frame shows: one styled glyph for the snake and one for each apple.

use crate::apple::Apple;
use crate::game::{Game, APPLE_COUNT};
use crate::snake::Snake;
use vstd::prelude::*;

verus! {

/// The character drawn for an apple.
pub const APPLE_GLYPH: char = '@';

/// The colours that the game draws with. `Reset` is the terminal's default.
#[derive(Clone, Copy, Debug, PartialEq, Eq, Structural)]
pub enum Color {
    DarkGreen,
    Red,
    Reset,
}

/// One glyph to put on the screen, with its cell and style.
#[derive(Clone, Copy, Debug, PartialEq, Eq, Structural)]
pub struct Paint {
    pub row: u16,
    pub col: u16,
    pub symbol: char,
    pub foreground: Color,
    pub background: Color,
    pub bold: bool,
}

/// The snake's glyph: the arrow of its heading on its cell, bold dark green.
pub open spec fn snake_paint_spec(snake: Snake) -> Paint {
    Paint {
        row: snake.y,
        col: snake.x,
        symbol: snake.direction.glyph(),
        foreground: Color::DarkGreen,
        background: Color::Reset,
        bold: true,
    }
}

/// An apple's glyph: `@` on its cell, bold red.
pub open spec fn apple_paint_spec(apple: Apple) -> Paint {
    Paint {
        row: apple.y,
        col: apple.x,
        symbol: APPLE_GLYPH,
        foreground: Color::Red,
        background: Color::Reset,
        bold: true,
    }
}

/// How the snake is drawn.
#[verifier::when_used_as_spec(snake_paint_spec)]
pub fn snake_paint(snake: Snake) -> (paint: Paint)
    ensures
        paint == snake_paint_spec(snake),
{
    Paint {
        row: snake.y,
        col: snake.x,
        symbol: snake.get_char(),
        foreground: Color::DarkGreen,
        background: Color::Reset,
        bold: true,
    }
}

/// How an apple is drawn.
#[verifier::when_used_as_spec(apple_paint_spec)]
pub fn apple_paint(apple: Apple) -> (paint: Paint)
    ensures
        paint == apple_paint_spec(apple),
{
    Paint {
        row: apple.y,
        col: apple.x,
        symbol: APPLE_GLYPH,
        foreground: Color::Red,
        background: Color::Reset,
        bold: true,
    }
}

impl Game {
    /// The glyphs of one frame in drawing order: the snake, then the apples
    /// in their order.
    pub open spec fn frame_spec(self) -> Seq<Paint> {
        seq![snake_paint(self.snake)] + self.apples@.map_values(|apple: Apple| apple_paint(apple))
    }

    /// What to draw on a cleared screen to show this state.
    pub fn frame(&self) -> (paints: Vec<Paint>)
        ensures
            paints@ == self.frame_spec(),
    {
        let mut paints: Vec<Paint> = Vec::new();
        paints.push(snake_paint(self.snake));
        let mut i: usize = 0;
        while i < APPLE_COUNT
            invariant
                i <= APPLE_COUNT,
                paints@.len() == i + 1,
                paints@[0] == snake_paint(self.snake),
                forall|j: int|
                    0 <= j < i ==> paints@[j + 1] == apple_paint(#[trigger] self.apples[j]),
            decreases APPLE_COUNT - i,
        {
            paints.push(apple_paint(self.apples[i]));
            i += 1;
        }
        assert(paints@ =~= self.frame_spec());
        paints
    }
}

} // verus!
