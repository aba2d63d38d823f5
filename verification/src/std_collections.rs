//! The collections of the standard library that can be collected into.
//!
//! Each is emptied by its `Default` and filled by its `Extend`. What `Extend`
//! does with this crate's iterator is stated here and not proved: these are
//! the functions at the end of the file. They speak of what a collection
//! holds. How much room it makes for an estimate is between the collection and
//! its allocator, and no contract speaks of it.

use crate::collection::Collection;
use crate::size_hint_iter::SizeHintIter;
use std::collections::{BTreeMap, BTreeSet, HashMap, HashSet, VecDeque};
use std::hash::{BuildHasher, Hash};
use vstd::laws_cmp::obeys_cmp;
use vstd::prelude::*;
use vstd::std_specs::hash::{builds_valid_hashers, obeys_key_model};

verus! {

impl<T> Collection<T> for Vec<T> {
    open spec fn obeys_view_model() -> bool {
        true
    }

    open spec fn spec_empty() -> Seq<T> {
        Seq::empty()
    }

    open spec fn spec_insert(contents: Seq<T>, item: T) -> Seq<T> {
        contents.push(item)
    }

    fn empty() -> (col: Self) {
        Default::default()
    }

    fn bulk_insert(&mut self, batch: SizeHintIter<T>) {
        vec_extend(self, batch)
    }
}

impl<T> Collection<T> for VecDeque<T> {
    open spec fn obeys_view_model() -> bool {
        true
    }

    open spec fn spec_empty() -> Seq<T> {
        Seq::empty()
    }

    open spec fn spec_insert(contents: Seq<T>, item: T) -> Seq<T> {
        contents.push(item)
    }

    fn empty() -> (col: Self) {
        Default::default()
    }

    fn bulk_insert(&mut self, batch: SizeHintIter<T>) {
        vec_deque_extend(self, batch)
    }
}

impl Collection<char> for String {
    open spec fn obeys_view_model() -> bool {
        true
    }

    open spec fn spec_empty() -> Seq<char> {
        Seq::empty()
    }

    open spec fn spec_insert(contents: Seq<char>, item: char) -> Seq<char> {
        contents.push(item)
    }

    fn empty() -> (col: Self) {
        Default::default()
    }

    fn bulk_insert(&mut self, batch: SizeHintIter<char>) {
        string_extend_chars(self, batch)
    }
}

impl<'a> Collection<&'a str> for String {
    open spec fn obeys_view_model() -> bool {
        true
    }

    open spec fn spec_empty() -> Seq<char> {
        Seq::empty()
    }

    open spec fn spec_insert(contents: Seq<char>, item: &'a str) -> Seq<char> {
        contents + item@
    }

    fn empty() -> (col: Self) {
        Default::default()
    }

    fn bulk_insert(&mut self, batch: SizeHintIter<&'a str>) {
        string_extend_strs(self, batch)
    }
}

impl<K: Eq + Hash, V, S: BuildHasher + Default> Collection<(K, V)> for HashMap<K, V, S> {
    open spec fn obeys_view_model() -> bool {
        obeys_key_model::<K>() && builds_valid_hashers::<S>()
    }

    open spec fn spec_empty() -> Map<K, V> {
        Map::empty()
    }

    open spec fn spec_insert(contents: Map<K, V>, item: (K, V)) -> Map<K, V> {
        contents.insert(item.0, item.1)
    }

    fn empty() -> (col: Self) {
        Default::default()
    }

    fn bulk_insert(&mut self, batch: SizeHintIter<(K, V)>) {
        hash_map_extend(self, batch)
    }
}

impl<K: Eq + Hash, S: BuildHasher + Default> Collection<K> for HashSet<K, S> {
    open spec fn obeys_view_model() -> bool {
        obeys_key_model::<K>() && builds_valid_hashers::<S>()
    }

    open spec fn spec_empty() -> Set<K> {
        Set::empty()
    }

    open spec fn spec_insert(contents: Set<K>, item: K) -> Set<K> {
        contents.insert(item)
    }

    fn empty() -> (col: Self) {
        Default::default()
    }

    fn bulk_insert(&mut self, batch: SizeHintIter<K>) {
        hash_set_extend(self, batch)
    }
}

impl<K: Ord, V> Collection<(K, V)> for BTreeMap<K, V> {
    open spec fn obeys_view_model() -> bool {
        obeys_cmp::<K>()
    }

    open spec fn spec_empty() -> Map<K, V> {
        Map::empty()
    }

    open spec fn spec_insert(contents: Map<K, V>, item: (K, V)) -> Map<K, V> {
        contents.insert(item.0, item.1)
    }

    fn empty() -> (col: Self) {
        Default::default()
    }

    fn bulk_insert(&mut self, batch: SizeHintIter<(K, V)>) {
        btree_map_extend(self, batch)
    }
}

impl<K: Ord> Collection<K> for BTreeSet<K> {
    open spec fn obeys_view_model() -> bool {
        obeys_cmp::<K>()
    }

    open spec fn spec_empty() -> Set<K> {
        Set::empty()
    }

    open spec fn spec_insert(contents: Set<K>, item: K) -> Set<K> {
        contents.insert(item)
    }

    fn empty() -> (col: Self) {
        Default::default()
    }

    fn bulk_insert(&mut self, batch: SizeHintIter<K>) {
        btree_set_extend(self, batch)
    }
}

/// `Extend::extend` of `Vec<T>`, given this crate's iterator. std appends what
/// the iterator yields to the end of the vector: here the held item, or
/// nothing from a drained iterator. The estimate decides how much room the
/// vector asks for and nothing of what it holds.
#[verifier::external_body]
fn vec_extend<T>(v: &mut Vec<T>, batch: SizeHintIter<T>)
    ensures
        final(v)@ == (match batch.held() {
            Some(item) => old(v)@.push(item),
            None => old(v)@,
        }),
{
    v.extend(batch)
}

/// `Extend::extend` of `VecDeque<T>`, given this crate's iterator. std pushes
/// what the iterator yields onto the back of the deque: here the held item, or
/// nothing from a drained iterator.
#[verifier::external_body]
fn vec_deque_extend<T>(v: &mut VecDeque<T>, batch: SizeHintIter<T>)
    ensures
        final(v)@ == (match batch.held() {
            Some(item) => old(v)@.push(item),
            None => old(v)@,
        }),
{
    v.extend(batch)
}

/// `Extend<char>::extend` of `String`, given this crate's iterator. std
/// appends the characters that the iterator yields to the end of the string:
/// here the held character, or nothing from a drained iterator.
#[verifier::external_body]
fn string_extend_chars(s: &mut String, batch: SizeHintIter<char>)
    ensures
        final(s)@ == (match batch.held() {
            Some(item) => old(s)@.push(item),
            None => old(s)@,
        }),
{
    s.extend(batch)
}

/// `Extend<&str>::extend` of `String`, given this crate's iterator. std
/// appends the slices that the iterator yields to the end of the string,
/// character by character: here the held slice, or nothing from a drained
/// iterator.
#[verifier::external_body]
fn string_extend_strs<'a>(s: &mut String, batch: SizeHintIter<&'a str>)
    ensures
        final(s)@ == (match batch.held() {
            Some(item) => old(s)@ + item@,
            None => old(s)@,
        }),
{
    s.extend(batch)
}

/// `Extend<(K, V)>::extend` of `HashMap<K, V, S>`, given this crate's
/// iterator. std inserts the pairs that the iterator yields, and a pair whose
/// key is in the map already puts its value in the place of the old one: here
/// the held pair, or nothing from a drained iterator. As in vstd's contract
/// for `HashMap::insert`, this is claimed where keys are hashed and compared
/// in agreement with equality.
#[verifier::external_body]
fn hash_map_extend<K: Eq + Hash, V, S: BuildHasher>(
    m: &mut HashMap<K, V, S>,
    batch: SizeHintIter<(K, V)>,
)
    ensures
        obeys_key_model::<K>() && builds_valid_hashers::<S>() ==> final(m)@ == (match batch.held() {
            Some(item) => old(m)@.insert(item.0, item.1),
            None => old(m)@,
        }),
{
    m.extend(batch)
}

/// `Extend<K>::extend` of `HashSet<K, S>`, given this crate's iterator. std
/// inserts the items that the iterator yields: here the held item, or nothing
/// from a drained iterator. As in vstd's contract for `HashSet::insert`, this
/// is claimed where items are hashed and compared in agreement with equality.
#[verifier::external_body]
fn hash_set_extend<K: Eq + Hash, S: BuildHasher>(s: &mut HashSet<K, S>, batch: SizeHintIter<K>)
    ensures
        obeys_key_model::<K>() && builds_valid_hashers::<S>() ==> final(s)@ == (match batch.held() {
            Some(item) => old(s)@.insert(item),
            None => old(s)@,
        }),
{
    s.extend(batch)
}

/// `Extend<(K, V)>::extend` of `BTreeMap<K, V>`, given this crate's iterator.
/// std inserts the pairs that the iterator yields, and a pair whose key is in
/// the map already puts its value in the place of the old one: here the held
/// pair, or nothing from a drained iterator. As in vstd's contract for
/// `BTreeMap::insert`, this is claimed where the order of the keys agrees with
/// equality.
#[verifier::external_body]
fn btree_map_extend<K: Ord, V>(m: &mut BTreeMap<K, V>, batch: SizeHintIter<(K, V)>)
    ensures
        obeys_cmp::<K>() ==> final(m)@ == (match batch.held() {
            Some(item) => old(m)@.insert(item.0, item.1),
            None => old(m)@,
        }),
{
    m.extend(batch)
}

/// `Extend<K>::extend` of `BTreeSet<K>`, given this crate's iterator. std
/// inserts the items that the iterator yields: here the held item, or nothing
/// from a drained iterator. As in vstd's contract for `BTreeSet::insert`, this
/// is claimed where the order of the items agrees with equality.
#[verifier::external_body]
fn btree_set_extend<K: Ord>(s: &mut BTreeSet<K>, batch: SizeHintIter<K>)
    ensures
        obeys_cmp::<K>() ==> final(s)@ == (match batch.held() {
            Some(item) => old(s)@.insert(item),
            None => old(s)@,
        }),
{
    s.extend(batch)
}

} // verus!
