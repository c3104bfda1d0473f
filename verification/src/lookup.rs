//! Finding a record by its key: a linear scan in which the first match wins.

use crate::text::str_eq;
use vstd::prelude::*;

verus! {

/// Whether `i` is the position of the first element of `keys` equal to `key`.
pub open spec fn is_first_index_of(keys: Seq<Seq<char>>, key: Seq<char>, i: int) -> bool {
    &&& 0 <= i < keys.len()
    &&& keys[i] == key
    &&& forall|j: int| 0 <= j < i ==> keys[j] != key
}

/// The position of the first element of `keys` equal to `key`, if there is one.
pub open spec fn first_index_of(keys: Seq<Seq<char>>, key: Seq<char>) -> Option<int> {
    if exists|i: int| is_first_index_of(keys, key, i) {
        Some(choose|i: int| is_first_index_of(keys, key, i))
    } else {
        None
    }
}

/// Whether no two elements of `keys` are equal.
pub open spec fn all_distinct(keys: Seq<Seq<char>>) -> bool {
    forall|i: int, j: int| 0 <= i < j < keys.len() ==> keys[i] != keys[j]
}

/// A first position is the only first position.
pub proof fn lemma_first_index_found(keys: Seq<Seq<char>>, key: Seq<char>, i: int)
    requires
        is_first_index_of(keys, key, i),
    ensures
        first_index_of(keys, key) == Some(i),
{
    let c = choose|c: int| is_first_index_of(keys, key, c);
    assert(is_first_index_of(keys, key, c));
    if c < i {
        assert(keys[c] != key);
    }
    if i < c {
        assert(keys[i] != key);
    }
}

/// A key that occurs at position `n` has a first position, at or before `n`.
pub proof fn lemma_occurring_key_is_found(keys: Seq<Seq<char>>, key: Seq<char>, n: int)
    requires
        0 <= n < keys.len(),
        keys[n] == key,
    ensures
        first_index_of(keys, key) matches Some(i) && 0 <= i <= n && keys[i] == key,
    decreases n,
{
    if forall|j: int| 0 <= j < n ==> keys[j] != key {
        lemma_first_index_found(keys, key, n);
    } else {
        let j = choose|j: int| 0 <= j < n && keys[j] == key;
        lemma_occurring_key_is_found(keys, key, j);
    }
}

/// A key is found exactly when it occurs, and what is found carries the key.
pub proof fn lemma_found_iff_occurs(keys: Seq<Seq<char>>, key: Seq<char>)
    ensures
        first_index_of(keys, key) is Some <==> keys.contains(key),
        first_index_of(keys, key) matches Some(i) ==> is_first_index_of(keys, key, i),
{
    if keys.contains(key) {
        let n = choose|n: int| 0 <= n < keys.len() && keys[n] == key;
        lemma_occurring_key_is_found(keys, key, n);
    }
    if let Some(i) = first_index_of(keys, key) {
        assert(is_first_index_of(keys, key, i));
        assert(keys[i] == key);
    }
}

/// Where no key occurs twice, looking up the key at position `i` finds
/// position `i`.
pub proof fn lemma_distinct_keys_found_in_place(keys: Seq<Seq<char>>, i: int)
    requires
        all_distinct(keys),
        0 <= i < keys.len(),
    ensures
        first_index_of(keys, keys[i]) == Some(i),
{
    assert forall|j: int| 0 <= j < i implies keys[j] != keys[i] by {}
    lemma_first_index_found(keys, keys[i], i);
}

/// A record that is found by a textual key.
pub trait Keyed {
    /// The key, as a sequence of characters.
    spec fn key_text(&self) -> Seq<char>;

    /// The key.
    fn key(&self) -> (k: &str)
        ensures
            k@ == self.key_text(),
    ;
}

/// The key of each record, in order.
pub open spec fn keys_of<T: Keyed>(items: Seq<T>) -> Seq<Seq<char>> {
    Seq::new(items.len(), |i: int| items[i].key_text())
}

/// The first record whose key equals `key`.
pub fn find_by_key<'a, T: Keyed>(items: &'a Vec<T>, key: &str) -> (r: Option<&'a T>)
    ensures
        match first_index_of(keys_of(items@), key@) {
            Some(i) => 0 <= i < items@.len() && r == Some(&items@[i]),
            None => r is None,
        },
{
    let ghost keys = keys_of(items@);
    let mut i: usize = 0;
    while i < items.len()
        invariant
            keys == keys_of(items@),
            i <= items@.len(),
            forall|j: int| 0 <= j < i ==> keys[j] != key@,
        decreases items@.len() - i,
    {
        let item = &items[i];
        if str_eq(item.key(), key) {
            proof {
                lemma_first_index_found(keys, key@, i as int);
            }
            return Some(item);
        }
        i += 1;
    }
    proof {
        assert forall|c: int| !is_first_index_of(keys, key@, c) by {}
    }
    None
}

} // verus!
