//! Picking shoes by size, and a counter that runs from one to five.

use vstd::prelude::*;

verus! {

/// A shoe on a shelf.
#[derive(Debug)]
pub struct Shoe {
    pub size: u32,
    pub style: String,
}

/// The test that a shoe has size `shoe_size`.
pub open spec fn has_size(shoe_size: u32) -> spec_fn(Shoe) -> bool {
    |s: Shoe| s.size == shoe_size
}

/// The shoes of `shoes` whose size is `shoe_size`, in shelf order.
pub open spec fn spec_shoes_in_size(shoes: Seq<Shoe>, shoe_size: u32) -> Seq<Shoe> {
    shoes.filter(has_size(shoe_size))
}

/// Keeps the shoes of the given size and drops the rest, without changing their order.
pub fn shoes_in_size(shoes: Vec<Shoe>, shoe_size: u32) -> (kept: Vec<Shoe>)
    ensures
        kept@ == spec_shoes_in_size(shoes@, shoe_size),
{
    let ghost all = shoes@;
    let mut kept: Vec<Shoe> = Vec::new();
    assert(all.take(0) =~= Seq::<Shoe>::empty());
    for shoe in it: shoes
        invariant
            it.seq() == all,
            kept@ == all.take(it.index() as int).filter(has_size(shoe_size)),
    {
        proof {
            let seen = all.take(it.index() as int);
            assert(all.take(it.index() + 1) =~= seen.push(shoe));
            Seq::lemma_filter_push(seen, shoe, has_size(shoe_size));
        }
        if shoe.size == shoe_size {
            kept.push(shoe);
        }
    }
    assert(all.take(all.len() as int) =~= all);
    kept
}

/// Counts upwards from zero and stops at five.
pub struct Counter {
    count: u32,
}

impl View for Counter {
    type V = int;

    /// How far the counter has counted.
    closed spec fn view(&self) -> int {
        self.count as int
    }
}

impl Counter {
    #[verifier::type_invariant]
    spec fn in_range(self) -> bool {
        self.count <= 5
    }

    /// A counter that has not counted yet.
    pub fn new() -> (c: Counter)
        ensures
            c@ == 0,
    {
        Counter { count: 0 }
    }

    /// Counts one further and yields the new count; yields nothing once five has been reached,
    /// and then stays there.
    pub fn next(&mut self) -> (item: Option<u32>)
        ensures
            0 <= old(self)@ <= 5,
            old(self)@ < 5 ==> item == Some((old(self)@ + 1) as u32) && final(self)@ == old(self)@
                + 1,
            old(self)@ == 5 ==> item is None && final(self)@ == 5,
    {
        proof {
            use_type_invariant(&*self);
        }
        if self.count < 5 {
            self.count += 1;
            Some(self.count)
        } else {
            None
        }
    }
}

} // verus!
