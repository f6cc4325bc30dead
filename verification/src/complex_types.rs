//! A file stand-in: a name and two operations that always succeed.

use vstd::prelude::*;
use vstd::string::*;

verus! {

/// A file is known by its name alone.
pub type File = String;

/// Opens `f`. Always succeeds and leaves the name as it was.
pub fn open(f: &mut File) -> (ok: bool)
    ensures
        ok,
        *final(f) == *old(f),
{
    true
}

/// Closes `f`. Always succeeds and leaves the name as it was.
pub fn close(f: &mut File) -> (ok: bool)
    ensures
        ok,
        *final(f) == *old(f),
{
    true
}

/// Opens and closes the file named `f1.txt`.
pub fn complex_types() {
    let mut f1: File = String::from_str("f1.txt");
    open(&mut f1);
    close(&mut f1);
}

} // verus!
