//! Generic helpers that work for any element type.

use vstd::prelude::*;

verus! {

/// Hands its argument back unchanged.
pub fn identity<T>(arg: T) -> (out: T)
    ensures
        out == arg,
{
    arg
}

/// A pair of coordinates whose two axes may have different types.
#[derive(Debug)]
pub struct Point<T, U> {
    pub x: T,
    pub y: U,
}

impl<T, U> Point<T, U> {
    /// Replaces both coordinates.
    pub fn change(&mut self, x: T, y: U)
        ensures
            final(self).x == x,
            final(self).y == y,
    {
        self.x = x;
        self.y = y;
    }
}

} // verus!
