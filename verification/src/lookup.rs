//! Finding a text among a sequence of texts: the model behind the tables of
//! the crate that are keyed by an identifier or a name.

use vstd::prelude::*;

verus! {

/// The last index at which `key` stands in `keys`, if it stands there at all.
pub open spec fn last_index_of(keys: Seq<Seq<char>>, key: Seq<char>) -> Option<int>
    decreases keys.len(),
{
    if keys.len() == 0 {
        None
    } else if keys.last() == key {
        Some(keys.len() - 1)
    } else {
        last_index_of(keys.drop_last(), key)
    }
}

/// Whether no text stands at two places of `keys`.
pub open spec fn all_distinct(keys: Seq<Seq<char>>) -> bool {
    forall|i: int, j: int| 0 <= i < keys.len() && 0 <= j < keys.len() && i != j ==> keys[i] != keys[j]
}

/// `last_index_of` gives a place where the key stands and after which it
/// stands no more; it gives none only where the key stands nowhere.
pub proof fn lemma_last_index_of(keys: Seq<Seq<char>>, key: Seq<char>)
    ensures
        match last_index_of(keys, key) {
            Some(i) => {
                &&& 0 <= i < keys.len()
                &&& keys[i] == key
                &&& forall|j: int| i < j < keys.len() ==> keys[j] != key
            },
            None => forall|j: int| 0 <= j < keys.len() ==> keys[j] != key,
        },
    decreases keys.len(),
{
    if keys.len() > 0 && keys.last() != key {
        let front = keys.drop_last();
        lemma_last_index_of(front, key);
        assert forall|j: int| 0 <= j < front.len() implies front[j] == keys[j] by {}
        match last_index_of(keys, key) {
            Some(i) => {
                assert forall|j: int| i < j < keys.len() implies keys[j] != key by {
                    if j < front.len() {
                        assert(front[j] != key);
                    }
                }
            },
            None => {
                assert forall|j: int| 0 <= j < keys.len() implies keys[j] != key by {
                    if j < front.len() {
                        assert(front[j] != key);
                    }
                }
            },
        }
    }
}

/// A place where the key stands and after which it stands no more is the one
/// that `last_index_of` gives.
pub proof fn lemma_last_index_found(keys: Seq<Seq<char>>, key: Seq<char>, i: int)
    requires
        0 <= i < keys.len(),
        keys[i] == key,
        forall|j: int| i < j < keys.len() ==> keys[j] != key,
    ensures
        last_index_of(keys, key) == Some(i),
{
    lemma_last_index_of(keys, key);
}

/// Where the key stands nowhere, `last_index_of` gives none.
pub proof fn lemma_last_index_absent(keys: Seq<Seq<char>>, key: Seq<char>)
    requires
        forall|j: int| 0 <= j < keys.len() ==> keys[j] != key,
    ensures
        last_index_of(keys, key) is None,
{
    lemma_last_index_of(keys, key);
}

} // verus!
