//! Rectangles with whole-number sides.

use vstd::prelude::*;

verus! {

/// A rectangle, given by its two sides.
#[derive(Debug)]
pub struct Rectangle {
    pub width: u32,
    pub height: u32,
}

impl Rectangle {
    /// The area as a mathematical integer.
    pub open spec fn spec_area(&self) -> int {
        self.width * self.height
    }

    /// Whether `self` is strictly wider and strictly taller than `other`.
    pub open spec fn spec_can_hold(&self, other: &Rectangle) -> bool {
        self.width > other.width && self.height > other.height
    }

    /// The area, for rectangles whose area fits in a `u32`.
    pub fn area(&self) -> (a: u32)
        requires
            self.spec_area() <= u32::MAX,
        ensures
            a == self.spec_area(),
    {
        self.width * self.height
    }

    /// Whether the rectangle has any width at all.
    pub fn width(&self) -> (positive: bool)
        ensures
            positive == (self.width > 0),
    {
        self.width > 0
    }

    /// Whether `other` fits inside `self` with room to spare on both sides.
    pub fn can_hold(&self, other: &Rectangle) -> (fits: bool)
        ensures
            fits == self.spec_can_hold(other),
    {
        self.width > other.width && self.height > other.height
    }
}

/// A rectangle whose sides can be read but not changed.
pub struct Rectangle1 {
    width: u32,
    height: u32,
}

impl View for Rectangle1 {
    type V = (u32, u32);

    /// The width and the height, in that order.
    closed spec fn view(&self) -> (u32, u32) {
        (self.width, self.height)
    }
}

impl Rectangle1 {
    /// The rectangle with the given sides.
    pub fn new(width: u32, height: u32) -> (r: Self)
        ensures
            r@ == (width, height),
    {
        Rectangle1 { width, height }
    }

    /// The width.
    pub fn width(&self) -> (w: u32)
        ensures
            w == self@.0,
    {
        return self.width;
    }

    /// The height.
    pub fn height(&self) -> (h: u32)
        ensures
            h == self@.1,
    {
        return self.height;
    }
}

/// Nothing holds itself, and holding runs one way only.
pub proof fn lemma_can_hold_is_strict(a: Rectangle, b: Rectangle)
    ensures
        !a.spec_can_hold(&a),
        a.spec_can_hold(&b) ==> !b.spec_can_hold(&a),
{
}

/// Holding passes along: what holds a holder holds what it holds.
pub proof fn lemma_can_hold_is_transitive(a: Rectangle, b: Rectangle, c: Rectangle)
    requires
        a.spec_can_hold(&b),
        b.spec_can_hold(&c),
    ensures
        a.spec_can_hold(&c),
{
}

} // verus!
