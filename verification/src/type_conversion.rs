//! Turning one record into another with the same contents.

use vstd::prelude::*;

verus! {

pub struct Foo {
    pub x: u32,
    pub y: u16,
}

pub struct Bar {
    pub a: u32,
    pub b: u16,
}

/// Reads a `Foo` as a `Bar`: the first field goes to `a`, the second to `b`.
pub fn reinterpret(foo: Foo) -> (bar: Bar)
    ensures
        bar.a == foo.x,
        bar.b == foo.y,
{
    let Foo { x, y } = foo;
    Bar { a: x, b: y }
}

} // verus!
