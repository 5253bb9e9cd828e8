//! A small map from text to text.

use crate::text::text_eq;
use vstd::prelude::*;

verus! {

/// The index of the last entry of `entries` whose key is `key`, if there is
/// one.
pub open spec fn position_of(entries: Seq<(Seq<char>, Seq<char>)>, key: Seq<char>) -> Option<int>
    decreases entries.len(),
{
    if entries.len() == 0 {
        None
    } else if entries.last().0 == key {
        Some(entries.len() - 1)
    } else {
        position_of(entries.drop_last(), key)
    }
}

/// Whether no key occurs in two entries.
pub open spec fn keys_distinct(entries: Seq<(Seq<char>, Seq<char>)>) -> bool {
    forall|i: int, j: int|
        0 <= i < entries.len() && 0 <= j < entries.len() && i != j ==> entries[i].0 != entries[j].0
}

/// The value that `entries` holds under `key`.
pub open spec fn value_of(entries: Seq<(Seq<char>, Seq<char>)>, key: Seq<char>) -> Option<
    Seq<char>,
> {
    match position_of(entries, key) {
        Some(i) => Some(entries[i].1),
        None => None,
    }
}

/// The entries after `value` has been stored under `key`: the entry with that
/// key holds the new value, or a new entry stands at the end.
pub open spec fn with_entry(
    entries: Seq<(Seq<char>, Seq<char>)>,
    key: Seq<char>,
    value: Seq<char>,
) -> Seq<(Seq<char>, Seq<char>)> {
    match position_of(entries, key) {
        Some(i) => entries.update(i, (key, value)),
        None => entries.push((key, value)),
    }
}

/// `position_of` finds the last entry with the key, and none only where no
/// entry has it.
pub proof fn lemma_position_of(entries: Seq<(Seq<char>, Seq<char>)>, key: Seq<char>)
    ensures
        match position_of(entries, key) {
            Some(i) => {
                &&& 0 <= i < entries.len()
                &&& entries[i].0 == key
                &&& forall|j: int| i < j < entries.len() ==> entries[j].0 != key
            },
            None => forall|j: int| 0 <= j < entries.len() ==> entries[j].0 != key,
        },
    decreases entries.len(),
{
    if entries.len() > 0 && entries.last().0 != key {
        let front = entries.drop_last();
        lemma_position_of(front, key);
        assert forall|j: int| 0 <= j < front.len() implies front[j] == entries[j] by {}
        match position_of(entries, key) {
            Some(i) => {
                assert forall|j: int| i < j < entries.len() implies entries[j].0 != key by {
                    if j < front.len() {
                        assert(front[j].0 != key);
                    }
                }
            },
            None => {
                assert forall|j: int| 0 <= j < entries.len() implies entries[j].0 != key by {
                    if j < front.len() {
                        assert(front[j].0 != key);
                    }
                }
            },
        }
    }
}

/// The last entry with a given key is the one that `position_of` finds.
pub proof fn lemma_position_is_last(entries: Seq<(Seq<char>, Seq<char>)>, key: Seq<char>, i: int)
    requires
        0 <= i < entries.len(),
        entries[i].0 == key,
        forall|j: int| i < j < entries.len() ==> entries[j].0 != key,
    ensures
        position_of(entries, key) == Some(i),
{
    lemma_position_of(entries, key);
}

/// Where no entry has the key, `position_of` finds none.
pub proof fn lemma_position_none(entries: Seq<(Seq<char>, Seq<char>)>, key: Seq<char>)
    requires
        forall|j: int| 0 <= j < entries.len() ==> entries[j].0 != key,
    ensures
        position_of(entries, key) is None,
{
    lemma_position_of(entries, key);
}

/// Storing a value makes it the one found under its key, leaves the value of
/// every other key as it was, and keeps distinct keys distinct.
pub proof fn lemma_with_entry(
    entries: Seq<(Seq<char>, Seq<char>)>,
    key: Seq<char>,
    value: Seq<char>,
    other: Seq<char>,
)
    ensures
        value_of(with_entry(entries, key, value), key) == Some(value),
        other != key ==> value_of(with_entry(entries, key, value), other) == value_of(
            entries,
            other,
        ),
        keys_distinct(entries) ==> keys_distinct(with_entry(entries, key, value)),
{
    let after = with_entry(entries, key, value);
    lemma_position_of(entries, key);
    lemma_position_of(entries, other);
    match position_of(entries, key) {
        Some(i) => {
            assert forall|j: int| i < j < after.len() implies after[j].0 != key by {
                assert(entries[j].0 != key);
            }
            lemma_position_is_last(after, key, i);
            if other != key {
                match position_of(entries, other) {
                    Some(k) => {
                        assert forall|j: int| k < j < after.len() implies after[j].0 != other by {
                            assert(entries[j].0 != other);
                        }
                        lemma_position_is_last(after, other, k);
                    },
                    None => {
                        assert forall|j: int| 0 <= j < after.len() implies after[j].0 != other by {
                            assert(entries[j].0 != other);
                        }
                        lemma_position_none(after, other);
                    },
                }
            }
            if keys_distinct(entries) {
                assert forall|a: int, b: int|
                    0 <= a < after.len() && 0 <= b < after.len() && a != b implies after[a].0
                    != after[b].0 by {
                    assert(entries[a].0 != entries[b].0);
                }
            }
        },
        None => {
            assert(after.drop_last() =~= entries);
            if keys_distinct(entries) {
                assert forall|a: int, b: int|
                    0 <= a < after.len() && 0 <= b < after.len() && a != b implies after[a].0
                    != after[b].0 by {
                    if a < entries.len() && b < entries.len() {
                        assert(entries[a].0 != entries[b].0);
                    } else if a < entries.len() {
                        assert(entries[a].0 != key);
                    } else {
                        assert(entries[b].0 != key);
                    }
                }
            }
        },
    }
}

/// A map from text to text that remembers the order in which keys arrived.
#[derive(Debug)]
pub struct Properties {
    entries: Vec<(String, String)>,
}

impl View for Properties {
    type V = Seq<(Seq<char>, Seq<char>)>;

    /// The keys with their values, in the order in which the keys arrived.
    closed spec fn view(&self) -> Seq<(Seq<char>, Seq<char>)> {
        self.entries.deep_view()
    }
}

impl DeepView for Properties {
    type V = Seq<(Seq<char>, Seq<char>)>;

    open spec fn deep_view(&self) -> Seq<(Seq<char>, Seq<char>)> {
        self@
    }
}

impl Properties {
    /// The empty map.
    pub fn new() -> (map: Properties)
        ensures
            map@ == Seq::<(Seq<char>, Seq<char>)>::empty(),
            keys_distinct(map@),
    {
        let map = Properties { entries: Vec::new() };
        assert(map.entries.deep_view() =~= Seq::<(Seq<char>, Seq<char>)>::empty());
        map
    }

    /// The number of entries.
    pub fn len(&self) -> (n: usize)
        ensures
            n == self@.len(),
    {
        self.entries.len()
    }

    /// Whether the map holds no entry.
    pub fn is_empty(&self) -> (empty: bool)
        ensures
            empty == (self@.len() == 0),
    {
        self.entries.len() == 0
    }

    fn find(&self, key: &str) -> (found: Option<usize>)
        ensures
            match found {
                Some(i) => i < self@.len() && position_of(self@, key@) == Some(i as int),
                None => position_of(self@, key@) is None,
            },
    {
        let mut i: usize = self.entries.len();
        while i > 0
            invariant
                i <= self.entries.len(),
                forall|j: int| i <= j < self.entries.len() ==> self.entries.deep_view()[j].0 != key@,
            decreases i,
        {
            i = i - 1;
            if text_eq(self.entries[i].0.as_str(), key) {
                proof {
                    lemma_position_is_last(self@, key@, i as int);
                }
                return Some(i);
            }
        }
        proof {
            lemma_position_none(self@, key@);
        }
        None
    }

    /// The value stored under `key`.
    pub fn get(&self, key: &str) -> (value: Option<&String>)
        ensures
            value.deep_view() == value_of(self@, key@),
    {
        match self.find(key) {
            Some(i) => Some(&self.entries[i].1),
            None => None,
        }
    }

    /// Whether a value is stored under `key`.
    pub fn contains_key(&self, key: &str) -> (found: bool)
        ensures
            found == (value_of(self@, key@) is Some),
    {
        self.find(key).is_some()
    }

    /// Stores `value` under `key` and gives back the value that was stored
    /// there before.
    pub fn insert(&mut self, key: String, value: String) -> (previous: Option<String>)
        ensures
            final(self)@ == with_entry(old(self)@, key@, value@),
            previous.deep_view() == value_of(old(self)@, key@),
            keys_distinct(old(self)@) ==> keys_distinct(final(self)@),
    {
        proof {
            lemma_with_entry(self@, key@, value@, key@);
        }
        match self.find(key.as_str()) {
            Some(i) => {
                let ghost before = self.entries.deep_view();
                let mut entry = (key, value);
                std::mem::swap(&mut self.entries[i], &mut entry);
                assert(self.entries.deep_view() =~= before.update(i as int, (key@, value@)));
                assert(entry.1@ == before[i as int].1);
                Some(entry.1)
            },
            None => {
                let ghost before = self.entries.deep_view();
                self.entries.push((key, value));
                assert(self.entries.deep_view() =~= before.push((key@, value@)));
                None
            },
        }
    }
}

impl Clone for Properties {
    fn clone(&self) -> (copy: Self)
        ensures
            copy@ == self@,
    {
        let mut entries: Vec<(String, String)> = Vec::new();
        let mut i: usize = 0;
        while i < self.entries.len()
            invariant
                i <= self.entries.len(),
                entries.len() == i,
                forall|j: int|
                    0 <= j < i ==> entries[j].0@ == self.entries[j].0@ && entries[j].1@
                        == self.entries[j].1@,
            decreases self.entries.len() - i,
        {
            entries.push((self.entries[i].0.clone(), self.entries[i].1.clone()));
            i = i + 1;
        }
        assert(entries.deep_view() =~= self.entries.deep_view());
        Properties { entries }
    }
}

} // verus!
