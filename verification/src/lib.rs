//! Collections from lists of items, with room made once.
//!
//! [`collect`] builds any [`Collection`] from a list: the collection starts
//! empty and takes the items in their order, each kind by its own rules, so
//! that a sequence ends up holding the list itself, a set each item once, and
//! a map the last value that was listed for each key. The first item travels
//! in a [`SizeHintIter`] that announces the length of the whole list, so that
//! a collection that sizes itself by what it is told makes room for all of it
//! at once.
//!
//! - `size_hint_iter`: the iterator, and what holds of its estimate.
//! - `collection`: the trait of the collections, and `collect`.
//! - `laws`: what collecting into a sequence, a set or a map gives.
//! - `std_collections`: the trait for the collections of the standard library.

pub mod collection;
pub mod laws;
pub mod size_hint_iter;
pub mod std_collections;

pub use collection::{batch, collect, Collection};
pub use size_hint_iter::SizeHintIter;
