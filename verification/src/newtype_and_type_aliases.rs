//! A distance in metres as a type of its own, and a list of words that writes itself out.

use vstd::prelude::*;
use vstd::string::*;
use vstd::std_specs::ops::AddSpecImpl;
use std::ops::Add;

verus! {

/// A distance in whole metres.
pub struct Meters(pub u32);

impl AddSpecImpl for Meters {
    open spec fn obeys_add_spec() -> bool {
        true
    }

    /// The sum must fit in a `u32`.
    open spec fn add_req(self, other: Meters) -> bool {
        self.0 + other.0 <= u32::MAX
    }

    /// Distances add as their numbers of metres do.
    open spec fn add_spec(self, other: Meters) -> Meters {
        Meters((self.0 + other.0) as u32)
    }
}

impl Add for Meters {
    type Output = Meters;

    fn add(self, other: Meters) -> Meters {
        Meters(self.0 + other.0)
    }
}

/// The distance covered by going `d1` and then `d2`.
pub fn calculate_distance(d1: Meters, d2: Meters) -> (d: Meters)
    requires
        d1.0 + d2.0 <= u32::MAX,
    ensures
        d.0 == d1.0 + d2.0,
{
    d1 + d2
}

/// A list of words.
pub struct Wrapper(pub Vec<String>);

/// The words one after another, with a comma and a space between neighbours.
pub open spec fn joined(words: Seq<String>) -> Seq<char>
    decreases words.len(),
{
    if words.len() == 0 {
        Seq::empty()
    } else if words.len() == 1 {
        words[0]@
    } else {
        joined(words.drop_last()) + ", "@ + words.last()@
    }
}

impl Wrapper {
    /// The list as text: the words, separated by a comma and a space, in square brackets.
    pub fn to_text(&self) -> (text: String)
        ensures
            text@ == "["@ + joined(self.0@) + "]"@,
    {
        let mut text = String::from_str("[");
        let mut i: usize = 0;
        while i < self.0.len()
            invariant
                i <= self.0@.len(),
                text@ == "["@ + joined(self.0@.take(i as int)),
            decreases self.0@.len() - i,
        {
            if i > 0 {
                text.append(", ");
            }
            text.append(self.0[i].as_str());
            proof {
                let seen = self.0@.take(i + 1);
                assert(seen.drop_last() =~= self.0@.take(i as int));
                assert(seen.last() == self.0@[i as int]);
            }
            i += 1;
        }
        assert(self.0@.take(i as int) =~= self.0@);
        text.append("]");
        text
    }
}

} // verus!
