//! The hash sets in which status codes and upstream indices are kept.
//!
//! `ahash::HashSet<K>` is the standard library's `HashSet` with `ahash::RandomState` as its
//! hash builder. Its contents are `set@`, a mathematical set. vstd specifies the methods of a
//! `HashSet` only for hash builders that it knows, and this is none of them. So the operations
//! that hash a key, walk the buckets or copy them are trusted; everything else in this module
//! is proved from them.
use std::collections::hash_set::Iter;
use std::hash::Hash;

use ahash::HashSet;
use vstd::prelude::*;
use vstd::std_specs::hash::obeys_key_model;
use vstd::std_specs::iter::IteratorSpec;

verus! {

/// `ahash::RandomState`, the hash builder of every set in this crate. Nothing is claimed of
/// its values: two builders hash differently. The first one that a process makes takes its
/// seeds from the operating system, and panics where the system has none to give.
#[verifier::external_type_specification]
#[verifier::external_body]
pub struct ExRandomState(ahash::RandomState);

/// Trusted: `HashSet::contains` on a set hashed by `ahash::RandomState`.
///
/// The hashers that one `RandomState` builds give equal keys equal hashes, so the lookup
/// finds a key exactly when the set holds it.
#[verifier::external_body]
pub(crate) fn set_contains<K: Eq + Hash>(set: &HashSet<K>, key: &K) -> (found: bool)
    requires
        obeys_key_model::<K>(),
    ensures
        found == set@.contains(*key),
{
    set.contains(key)
}

/// Trusted: `HashSet::insert` on a set hashed by `ahash::RandomState`.
///
/// The set gains the key and loses nothing; the result says whether the key is new.
#[verifier::external_body]
pub(crate) fn set_insert<K: Eq + Hash>(set: &mut HashSet<K>, key: K) -> (added: bool)
    requires
        obeys_key_model::<K>(),
    ensures
        final(set)@ == old(set)@.insert(key),
        added == !old(set)@.contains(key),
{
    set.insert(key)
}

/// Trusted: `HashSet::iter` on a set hashed by `ahash::RandomState`.
///
/// The iterator yields every key of the set once and then ends: what remains to be yielded is
/// finite, and it is the sequence that vstd's `for` loops speak of. In which order the keys
/// come is left unsaid, since it follows the random seed of the hash builder.
#[verifier::external_body]
pub(crate) fn set_iter<'a>(set: &'a HashSet<u16>) -> (walk: Iter<'a, u16>)
    ensures
        IteratorSpec::remaining(&walk).unref().to_set() == set@,
        IteratorSpec::remaining(&walk).unref().no_duplicates(),
        IteratorSpec::decrease(&walk) is Some,
        IteratorSpec::initial_value_relation(&walk, &walk),
{
    set.iter()
}

/// Trusted: `HashSet::clone` on a set hashed by `ahash::RandomState`.
///
/// The copy holds the same keys.
#[verifier::external_body]
pub(crate) fn set_clone(set: &HashSet<usize>) -> (copy: HashSet<usize>)
    ensures
        copy@ == set@,
{
    set.clone()
}

/// The keys of a set, each once, in the order in which the set is walked.
pub(crate) fn keys_of(set: &HashSet<u16>) -> (keys: Vec<u16>)
    ensures
        keys@.to_set() == set@,
        keys@.no_duplicates(),
{
    let mut keys: Vec<u16> = Vec::new();
    let walk = set_iter(set);
    for key in it: walk
        invariant
            keys@ == it.seq().unref().take(it.index()),
            it.seq().unref().to_set() == set@,
            it.seq().unref().no_duplicates(),
    {
        keys.push(*key);
        assert(it.seq().unref().take(it.index() + 1) == it.seq().unref().take(it.index()).push(
            *key,
        ));
    }
    assert(keys@ =~= IteratorSpec::remaining(&walk).unref());
    keys
}

/// Adds the keys of a slice to a set.
pub(crate) fn extend(set: &mut HashSet<u16>, keys: &[u16])
    ensures
        final(set)@ == old(set)@.union(keys@.to_set()),
{
    broadcast use vstd::std_specs::hash::group_hash_axioms;

    for i in 0..keys.len()
        invariant
            obeys_key_model::<u16>(),
            set@ == old(set)@.union(keys@.take(i as int).to_set()),
    {
        set_insert(set, keys[i]);
        proof {
            lemma_to_set_of_next(keys@, i as int);
        }
    }
    assert(keys@.take(keys@.len() as int) == keys@);
}

/// The set of the keys in a slice.
pub(crate) fn set_of(keys: &[u16]) -> (set: HashSet<u16>)
    ensures
        set@ == keys@.to_set(),
{
    let mut set: HashSet<u16> = HashSet::default();
    extend(&mut set, keys);
    set
}

/// A new set with the keys of both arguments.
pub(crate) fn union_of(a: &HashSet<u16>, b: &HashSet<u16>) -> (set: HashSet<u16>)
    ensures
        set@ == a@.union(b@),
{
    let mut set: HashSet<u16> = HashSet::default();
    extend(&mut set, keys_of(a).as_slice());
    extend(&mut set, keys_of(b).as_slice());
    set
}

/// Taking one more element of a sequence inserts it into the set of those taken.
proof fn lemma_to_set_of_next(s: Seq<u16>, i: int)
    requires
        0 <= i < s.len(),
    ensures
        s.take(i + 1).to_set() == s.take(i).to_set().insert(s[i]),
{
    let before = s.take(i);
    let after = s.take(i + 1);
    assert forall|k: u16| after.contains(k) == (before.contains(k) || k == s[i]) by {
        if before.contains(k) {
            let j = choose|j: int| 0 <= j < before.len() && before[j] == k;
            assert(after[j] == k);
        }
        assert(after[i] == s[i]);
    }
    assert(after.to_set() =~= before.to_set().insert(s[i]));
}

} // verus!
