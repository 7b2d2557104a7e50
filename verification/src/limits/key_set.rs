//! The set of encoded map keys seen so far, kept in a standard `HashSet` so
//! that duplicate-key detection costs one hash lookup per key.

use std::collections::HashSet;

use vstd::prelude::*;

use super::validate::MAX_CBOR_COLLECTION_ITEMS;

verus! {

/// The encoded keys that a key set holds.
pub uninterp spec fn key_set_contents(set: HashSet<Vec<u8>>) -> Set<Seq<u8>>;

/// `HashSet::with_capacity`: a new set holds no key; the capacity only
/// sizes the allocation, and is bounded here by the collection limit so that
/// the allocation cannot overflow.
#[verifier::external_body]
pub(crate) fn key_set_with_capacity(capacity: usize) -> (r: HashSet<Vec<u8>>)
    requires
        capacity <= MAX_CBOR_COLLECTION_ITEMS,
    ensures
        key_set_contents(r) == Set::<Seq<u8>>::empty(),
{
    HashSet::with_capacity(capacity)
}

/// `HashSet::insert`: afterwards the set holds `key` besides what it held,
/// and the result is `true` exactly when the set did not hold `key` before
/// (byte vectors are equal when their bytes are).
#[verifier::external_body]
pub(crate) fn key_set_insert(set: &mut HashSet<Vec<u8>>, key: Vec<u8>) -> (r: bool)
    ensures
        key_set_contents(*final(set)) == key_set_contents(*old(set)).insert(key@),
        r == !key_set_contents(*old(set)).contains(key@),
{
    set.insert(key)
}

} // verus!
