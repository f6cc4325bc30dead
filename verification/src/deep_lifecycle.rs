//! Changing and reading through mutable borrows.

use vstd::prelude::*;

verus! {

/// A point on the integer grid that can be moved.
#[derive(Debug)]
pub struct Point {
    pub x: i32,
    pub y: i32,
}

impl Point {
    /// Moves the point to `(x, y)`.
    pub fn move_to(&mut self, x: i32, y: i32)
        ensures
            final(self).x == x,
            final(self).y == y,
    {
        self.x = x;
        self.y = y;
    }
}

/// The number of strings in `strings`, which is left untouched.
pub fn read_length(strings: &mut Vec<String>) -> (n: usize)
    ensures
        n == old(strings)@.len(),
        *final(strings) == *old(strings),
{
    strings.len()
}

} // verus!
