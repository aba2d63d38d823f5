//! The batches that a collection is given, seen from the collection's side.

use collect_mac::{batch, collect, Collection, SizeHintIter};

/// A collection that notes the estimate of each batch before and after it
/// draws from it.
#[derive(Default, Debug, PartialEq)]
struct Notes {
    items: Vec<char>,
    estimates: Vec<((usize, Option<usize>), (usize, Option<usize>))>,
}

impl vstd::view::View for Notes {
    type V = Vec<char>;

    fn view(&self) -> Vec<char> {
        self.items.clone()
    }
}

impl Collection<char> for Notes {
    fn obeys_view_model() -> bool {
        true
    }

    fn spec_empty() -> Vec<char> {
        vec![]
    }

    fn spec_insert(mut contents: Vec<char>, item: char) -> Vec<char> {
        contents.push(item);
        contents
    }

    fn empty() -> Self {
        Default::default()
    }

    fn bulk_insert(&mut self, mut batch: SizeHintIter<char>) {
        let before = batch.size_hint();
        self.items.extend(batch.next());
        self.estimates.push((before, batch.size_hint()));
    }
}

#[test]
fn first_batch_announces_the_whole_list() {
    let notes: Notes = collect(vec!['a', 'b', 'c']);
    assert_eq!(notes.items, vec!['a', 'b', 'c']);
    assert_eq!(
        notes.estimates,
        vec![
            ((3, Some(3)), (2, Some(2))),
            ((1, Some(1)), (0, Some(0))),
            ((1, Some(1)), (0, Some(0))),
        ]
    );
}

#[test]
fn single_item_announces_itself() {
    let notes: Notes = collect(vec!['a']);
    assert_eq!(notes.items, vec!['a']);
    assert_eq!(notes.estimates, vec![((1, Some(1)), (0, Some(0)))]);
}

#[test]
fn empty_list_brings_no_batch() {
    let notes: Notes = collect(vec![]);
    assert_eq!(notes, Notes::default());
}

#[test]
fn first_of_a_list_carries_its_length() {
    let mut first = batch("a", 0, 4);
    assert_eq!(first.size_hint(), (4, Some(4)));
    assert_eq!(first.next(), Some("a"));
    assert_eq!(first.size_hint(), (3, Some(3)));

    for index in 1..4 {
        let mut later = batch("b", index, 4);
        assert_eq!(later.size_hint(), (1, Some(1)));
        assert_eq!(later.next(), Some("b"));
        assert_eq!(later.size_hint(), (0, Some(0)));
    }

    let mut lone = batch("c", 0, 1);
    assert_eq!(lone.size_hint(), (1, Some(1)));
    assert_eq!(lone.next(), Some("c"));
}

#[test]
fn what_is_held_and_announced_stays_within_the_first_estimate() {
    let total = 6;
    let (first_estimate, _) = batch((), 0, total).size_hint();
    assert_eq!(first_estimate, total);
    for index in 0..total {
        let (estimate, _) = batch((), index, total).size_hint();
        assert!(index + estimate <= first_estimate);
    }
}
