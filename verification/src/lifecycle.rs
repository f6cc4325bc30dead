//! Choosing between two borrowed strings.

use vstd::prelude::*;
use vstd::string::*;

verus! {

/// The length of `s` in bytes of UTF-8, as `str::len` reports it.
pub open spec fn byte_len(s: &str) -> usize {
    s.spec_bytes().len() as usize
}

/// The one of `x` and `y` that takes more bytes; `y` when they take equally many.
pub fn longest<'a>(x: &'a str, y: &'a str) -> (r: &'a str)
    ensures
        byte_len(x) > byte_len(y) ==> r == x,
        byte_len(x) <= byte_len(y) ==> r == y,
{
    if x.len() > y.len() {
        x
    } else {
        y
    }
}

} // verus!
