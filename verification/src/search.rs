//! Finding the first occurrence of a key in a sequence of keys.

use vstd::prelude::*;

verus! {

/// The first position at which a key occurs, if it occurs at all.
pub open spec fn first_index_of<K>(keys: Seq<K>, key: K) -> Option<int>
    decreases keys.len(),
{
    if keys.len() == 0 {
        None
    } else if keys[0] == key {
        Some(0)
    } else {
        match first_index_of(keys.drop_first(), key) {
            Some(i) => Some(i + 1),
            None => None,
        }
    }
}

/// What `first_index_of` finds holds the key and nothing before it does;
/// where it finds nothing, the key does not occur.
pub proof fn lemma_first_index_of<K>(keys: Seq<K>, key: K)
    ensures
        match first_index_of(keys, key) {
            Some(i) => 0 <= i < keys.len() && keys[i] == key && forall|k: int|
                0 <= k < i ==> keys[k] != key,
            None => forall|k: int| 0 <= k < keys.len() ==> keys[k] != key,
        },
    decreases keys.len(),
{
    if keys.len() > 0 && keys[0] != key {
        let rest = keys.drop_first();
        lemma_first_index_of(rest, key);
        match first_index_of(rest, key) {
            Some(i) => {
                assert forall|k: int| 0 <= k < i + 1 implies keys[k] != key by {
                    if k > 0 {
                        assert(rest[k - 1] == keys[k]);
                    }
                }
            },
            None => {
                assert forall|k: int| 0 <= k < keys.len() implies keys[k] != key by {
                    if k > 0 {
                        assert(rest[k - 1] == keys[k]);
                    }
                }
            },
        }
    }
}

/// A position that holds the key, with no earlier one that does, is the one
/// that `first_index_of` finds.
pub proof fn lemma_first_index_is<K>(keys: Seq<K>, key: K, i: int)
    requires
        0 <= i < keys.len(),
        keys[i] == key,
        forall|k: int| 0 <= k < i ==> keys[k] != key,
    ensures
        first_index_of(keys, key) == Some(i),
{
    lemma_first_index_of(keys, key);
}

/// A key that occurs nowhere is not found.
pub proof fn lemma_first_index_none<K>(keys: Seq<K>, key: K)
    requires
        forall|k: int| 0 <= k < keys.len() ==> keys[k] != key,
    ensures
        first_index_of(keys, key) is None,
{
    lemma_first_index_of(keys, key);
}

} // verus!
