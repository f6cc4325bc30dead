//! Books that count as equal when their ISBNs agree, and pairs.

use vstd::prelude::*;
use vstd::std_specs::cmp::PartialEqSpec;
use vstd::std_specs::cmp::PartialEqSpecImpl;

verus! {

/// How a book is bound.
pub enum BookFormat {
    Paperback,
    Hardback,
    Ebook,
}

/// A book. Two books with one ISBN are the same book, whatever their formats.
pub struct Book {
    pub isbn: i32,
    pub format: BookFormat,
}

impl PartialEqSpecImpl for Book {
    open spec fn obeys_eq_spec() -> bool {
        true
    }

    /// Equality looks at the ISBN and at nothing else.
    open spec fn eq_spec(&self, other: &Book) -> bool {
        self.isbn == other.isbn
    }
}

impl PartialEq for Book {
    fn eq(&self, other: &Book) -> (same: bool) {
        self.isbn == other.isbn
    }
}

impl Eq for Book {

}

/// Equality of books is an equivalence: every book equals itself, equality does not depend on
/// the order of the two books, and books equal to a third are equal to each other.
pub proof fn lemma_book_eq_is_equivalence(a: Book, b: Book, c: Book)
    ensures
        PartialEqSpec::eq_spec(&a, &a),
        PartialEqSpec::eq_spec(&a, &b) == PartialEqSpec::eq_spec(&b, &a),
        PartialEqSpec::eq_spec(&a, &b) && PartialEqSpec::eq_spec(&b, &c) ==> PartialEqSpec::eq_spec(
            &a,
            &c,
        ),
{
}

/// Two members of one type.
pub struct Pair<T> {
    pub x: T,
    pub y: T,
}

impl<T> Pair<T> {
    /// The pair of `x` and `y`, in that order.
    pub fn new(x: T, y: T) -> (p: Self)
        ensures
            p.x == x,
            p.y == y,
    {
        Self { x, y }
    }
}

} // verus!
