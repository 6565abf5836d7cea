//! The map from characters to what they resolved to.
//!
//! It is a hash map of std with the hasher of `ahash`, which is faster than
//! the default one for keys as small as a character. A map that is made with
//! it hashes equal keys alike for as long as it lives, so it holds what was
//! put into it: that is what the three contracts below say, and what nothing
//! here proves.

use std::collections::HashMap;
use vstd::prelude::*;

verus! {

/// The state from which `ahash` builds its hashers.
#[verifier::external_type_specification]
#[verifier::external_body]
pub struct ExRandomState(ahash::RandomState);

/// A map from characters to values of `V`, with the hasher of `ahash`.
pub type CharMap<V> = HashMap<char, V, ahash::RandomState>;

/// The map that holds nothing.
pub open spec fn empty_map<V>() -> Map<char, V> {
    Map::empty()
}

/// `Default::default` of a hash map with the hasher of `ahash`: a map that
/// holds nothing.
#[verifier::external_body]
pub(crate) fn new_map<V>() -> (map: CharMap<V>)
    ensures
        map@ == empty_map::<V>(),
{
    ahash::HashMap::default()
}

/// `HashMap::get` on a map with the hasher of `ahash`: the value that the map
/// holds for the character, if it holds one.
#[verifier::external_body]
pub(crate) fn map_get<V: Copy>(m: &CharMap<V>, c: char) -> (r: Option<V>)
    ensures
        r == if m@.contains_key(c) {
            Some(m@[c])
        } else {
            None
        },
{
    m.get(&c).copied()
}

/// `HashMap::insert` on a map with the hasher of `ahash`: afterwards the map
/// holds `value` for the character, and for every other character what it
/// held before.
#[verifier::external_body]
pub(crate) fn map_insert<V>(m: &mut CharMap<V>, c: char, value: V)
    ensures
        final(m)@ == old(m)@.insert(c, value),
{
    m.insert(c, value);
}

} // verus!
