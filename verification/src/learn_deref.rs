//! A box of one's own, and a person record.

use vstd::prelude::*;
use std::ops::Deref;

verus! {

/// A wrapper around a single value that can be read through `*`.
pub struct MyBox<T>(pub T);

impl<T> MyBox<T> {
    /// Wraps `x`.
    pub fn new(x: T) -> (b: MyBox<T>)
        ensures
            b.0 == x,
    {
        MyBox(x)
    }
}

impl<T> Deref for MyBox<T> {
    type Target = T;

    /// Borrows the wrapped value.
    fn deref(&self) -> (r: &T)
        ensures
            *r == self.0,
    {
        &self.0
    }
}

/// A person with a name and an age.
#[derive(Debug)]
pub struct Person {
    pub name: String,
    pub age: u8,
}

impl Person {
    /// The person called `name`, aged `age`.
    pub fn new(name: String, age: u8) -> (p: Person)
        ensures
            p.name == name,
            p.age == age,
    {
        Person { name, age }
    }
}

} // verus!
