//! The four headings, with the glyph, the tick length and the grid delta of each.

use vstd::prelude::*;

verus! {

/// The direction in which the snake travels.
#[derive(Clone, Copy, Debug, PartialEq, Eq, Structural)]
pub enum Direction {
    Up,
    Down,
    Left,
    Right,
}

impl Direction {
    /// The character drawn for a snake with this heading.
    pub open spec fn glyph_spec(self) -> char {
        match self {
            Direction::Up => '^',
            Direction::Down => 'v',
            Direction::Left => '<',
            Direction::Right => '>',
        }
    }

    /// Milliseconds of one wait with this heading. Terminal cells are taller
    /// than wide, so a vertical step is given more time than a horizontal one.
    pub open spec fn wait_millis_spec(self) -> u64 {
        match self {
            Direction::Up | Direction::Down => 75,
            Direction::Left | Direction::Right => 50,
        }
    }

    /// Change of (column, row) made by one step. Rows grow downwards.
    pub open spec fn delta(self) -> (int, int) {
        match self {
            Direction::Up => (0, -1),
            Direction::Down => (0, 1),
            Direction::Left => (-1, 0),
            Direction::Right => (1, 0),
        }
    }

    /// The heading that a glyph stands for, if it stands for one.
    pub open spec fn of_glyph(c: char) -> Option<Direction> {
        if c == '^' {
            Some(Direction::Up)
        } else if c == 'v' {
            Some(Direction::Down)
        } else if c == '<' {
            Some(Direction::Left)
        } else if c == '>' {
            Some(Direction::Right)
        } else {
            None
        }
    }

    /// The character drawn for a snake with this heading: `^`, `v`, `<` or `>`.
    #[verifier::when_used_as_spec(glyph_spec)]
    pub fn glyph(self) -> (c: char)
        ensures
            c == self.glyph_spec(),
    {
        match self {
            Direction::Up => '^',
            Direction::Down => 'v',
            Direction::Left => '<',
            Direction::Right => '>',
        }
    }

    /// Milliseconds of one wait with this heading: 75 when vertical, 50 when
    /// horizontal.
    #[verifier::when_used_as_spec(wait_millis_spec)]
    pub fn wait_millis(self) -> (ms: u64)
        ensures
            ms == self.wait_millis_spec(),
            ms == 75 <==> (self == Direction::Up || self == Direction::Down),
            ms == 50 <==> (self == Direction::Left || self == Direction::Right),
    {
        match self {
            Direction::Up | Direction::Down => 75,
            _ => 50,
        }
    }
}

/// Glyphs and headings correspond one to one: every heading has one of the
/// four glyphs, `of_glyph` undoes `glyph`, and each of the four glyphs is the
/// glyph of the heading that `of_glyph` gives for it.
pub proof fn lemma_glyph_bijection(d: Direction, e: Direction, c: char)
    ensures
        d.glyph() == '^' || d.glyph() == 'v' || d.glyph() == '<' || d.glyph() == '>',
        Direction::of_glyph(d.glyph()) == Some(d),
        d.glyph() == e.glyph() ==> d == e,
        (c == '^' || c == 'v' || c == '<' || c == '>') <==> Direction::of_glyph(c).is_some(),
        Direction::of_glyph(c) matches Some(h) ==> h.glyph() == c,
{
}

} // verus!
