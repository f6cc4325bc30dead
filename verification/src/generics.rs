//! A point whose two coordinates share one type.

use vstd::prelude::*;

verus! {

/// A point in the plane.
#[derive(Debug)]
pub struct Point<T> {
    pub x: T,
    pub y: T,
}

impl<T> Point<T> {
    /// Borrows the first coordinate.
    pub fn x(&self) -> (r: &T)
        ensures
            *r == self.x,
    {
        &self.x
    }
}

/// A point whose two coordinates may differ in type.
pub struct Point1<T, U> {
    pub x: T,
    pub y: U,
}

impl<T, U> Point1<T, U> {
    /// A point with the first coordinate of `self` and the second of `other`.
    pub fn mixup<V, W>(self, other: Point1<V, W>) -> (mixed: Point1<T, W>)
        ensures
            mixed.x == self.x,
            mixed.y == other.y,
    {
        Point1 { x: self.x, y: other.y }
    }
}

} // verus!
