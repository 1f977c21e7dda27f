//! Lists of values under names, in which a name occurs once and a value
//! given later takes the place of one given earlier.
use crate::text::{index_of, lemma_index_of};
use vstd::prelude::*;

verus! {

/// The names of `entries`, in order.
pub open spec fn keys_of<M>(entries: Seq<(Seq<char>, M)>) -> Seq<Seq<char>> {
    Seq::new(entries.len(), |i: int| entries[i].0)
}

/// The list with `value` under `key`: in the place of the first entry of
/// that name, or at the end where there is none.
pub open spec fn put<M>(entries: Seq<(Seq<char>, M)>, key: Seq<char>, value: M) -> Seq<
    (Seq<char>, M),
> {
    match index_of(keys_of(entries), key) {
        Some(i) => entries.update(i, (key, value)),
        None => entries.push((key, value)),
    }
}

/// The value under `key`, if there is one.
pub open spec fn lookup<M>(entries: Seq<(Seq<char>, M)>, key: Seq<char>) -> Option<M> {
    match index_of(keys_of(entries), key) {
        Some(i) => Some(entries[i].1),
        None => None,
    }
}

/// Whether no name occurs twice.
pub open spec fn distinct<M>(entries: Seq<(Seq<char>, M)>) -> bool {
    forall|i: int, j: int|
        0 <= i < j < entries.len() ==> (#[trigger] entries[i]).0 != (#[trigger] entries[j]).0
}

/// Finds the entry of the name `key`.
pub fn position<T: DeepView>(entries: &Vec<(String, T)>, key: &String) -> (r: Option<usize>)
    ensures
        match r {
            Some(i) => index_of(keys_of(entries.deep_view()), key@) == Some(i as int) && i
                < entries.len(),
            None => index_of(keys_of(entries.deep_view()), key@) is None,
        },
{
    let ghost keys = keys_of(entries.deep_view());
    let mut i: usize = 0;
    while i < entries.len()
        invariant
            i <= entries.len(),
            keys == keys_of(entries.deep_view()),
            forall|k: int| 0 <= k < i ==> #[trigger] keys[k] != key@,
        decreases entries.len() - i,
    {
        if entries[i].0 == *key {
            proof {
                assert(keys[i as int] == key@);
                lemma_index_of(keys, key@);
            }
            return Some(i);
        }
        i += 1;
    }
    proof {
        lemma_index_of(keys, key@);
    }
    None
}

/// Puts `value` under `key`.
pub fn insert<T: DeepView>(entries: &mut Vec<(String, T)>, key: String, value: T)
    ensures
        final(entries).deep_view() == put(old(entries).deep_view(), key@, value.deep_view()),
{
    match position(entries, &key) {
        Some(i) => {
            entries.set(i, (key, value));
        },
        None => {
            entries.push((key, value));
        },
    }
}

/// A list in which no name occurs twice stays such a list when a value is
/// put in it, and the value is then found under its name.
pub proof fn law_put_keeps_names_distinct<M>(entries: Seq<(Seq<char>, M)>, key: Seq<char>, value: M)
    requires
        distinct(entries),
    ensures
        distinct(put(entries, key, value)),
        lookup(put(entries, key, value), key) == Some(value),
{
    let keys = keys_of(entries);
    let after = put(entries, key, value);
    lemma_index_of(keys, key);
    match index_of(keys, key) {
        Some(i) => {
            crate::text::lemma_index_of_is(keys_of(after), key, i);
        },
        None => {
            assert forall|a: int, b: int| 0 <= a < b < after.len() implies (#[trigger] after[a]).0
                != (#[trigger] after[b]).0 by {
                if b < entries.len() {
                } else {
                    assert(keys[a] != key);
                }
            }
            crate::text::lemma_index_of_is(keys_of(after), key, entries.len() as int);
        },
    }
}

} // verus!
