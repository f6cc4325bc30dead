//! Integer maps that hash with ahash in place of the standard hasher.

use vstd::prelude::*;
use std::collections::HashMap;
use ahash::RandomState;

verus! {

/// ahash's `RandomState`, the hash builder of a [`FastMap`]. Nothing is claimed of its insides.
#[verifier::external_type_specification]
#[verifier::external_body]
pub struct ExRandomState(RandomState);

/// A map from integers to integers whose hashes come from ahash.
pub type FastMap = HashMap<i32, i32, RandomState>;

/// Makes an empty map by `HashMap::default()`, which builds the hasher state with
/// `ahash::RandomState::default()`.
///
/// Trusted: the map that comes back holds nothing.
#[verifier::external_body]
fn fast_map_new() -> (fresh: FastMap)
    ensures
        fresh@ == (Map::<i32, i32>::empty()),
{
    HashMap::default()
}

/// Calls `HashMap::insert` on a map that hashes with ahash.
///
/// Trusted: afterwards the map holds `value` under `key` and is otherwise as before, and the
/// call returns what `key` held before, if anything. The standard map promises this for a
/// hasher that hashes equal keys alike, as one `RandomState` does for its whole life.
#[verifier::external_body]
fn fast_map_insert(m: &mut FastMap, key: i32, value: i32) -> (previous: Option<i32>)
    ensures
        final(m)@ == old(m)@.insert(key, value),
        previous == if old(m)@.contains_key(key) {
            Some(old(m)@[key])
        } else {
            None
        },
{
    m.insert(key, value)
}

/// A fresh map that holds `value` under `key` and nothing else.
pub fn fast_map_with(key: i32, value: i32) -> (m: FastMap)
    ensures
        m@ == (Map::<i32, i32>::empty()).insert(key, value),
{
    let mut m = fast_map_new();
    fast_map_insert(&mut m, key, value);
    m
}

} // verus!
