//! Apples: the cells that the snake collects.

use rand::Rng;
use vstd::prelude::*;

verus! {

/// A whole number drawn from `0..bound` by `rand::Rng::gen_range` on the
/// generator that `rand::thread_rng` hands out. `gen_range` panics on an empty
/// range, so `bound` must be positive; for a range that starts at 0 it returns
/// a number below the range's end. Which one is left open: two calls may differ.
/// `thread_rng` panics if the system cannot seed its generator; no argument
/// avoids that.
#[verifier::external_body]
fn random_below(bound: u16) -> (n: u16)
    requires
        bound > 0,
    ensures
        n < bound,
{
    let mut rng = rand::thread_rng();
    rng.gen_range(0..bound)
}

/// An apple on column `x` and row `y`.
#[derive(Clone, Copy, Debug, PartialEq, Eq, Structural)]
pub struct Apple {
    pub x: u16,
    pub y: u16,
}

impl Apple {
    /// (column, row) as mathematical integers.
    pub open spec fn position(self) -> (int, int) {
        (self.x as int, self.y as int)
    }

    /// Whether the apple lies on a grid of `width` columns and `height` rows.
    pub open spec fn in_bounds(self, width: u16, height: u16) -> bool {
        self.x < width && self.y < height
    }

    /// An apple on a cell of the grid chosen at random, column and row drawn
    /// independently. The grid must have a cell to choose.
    pub fn new_random(width: u16, height: u16) -> (apple: Apple)
        requires
            width > 0,
            height > 0,
        ensures
            apple.in_bounds(width, height),
    {
        let x: u16 = random_below(width);
        let y: u16 = random_below(height);
        Apple { x, y }
    }
}

} // verus!
