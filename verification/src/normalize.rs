//! Folding the single `author` of a version 1.0 document into `authors`.
//!
//! A feed and each of its items carry two slots: the older single author and
//! the list of authors. Reading a document ends by folding the first into the
//! second, so that nobody downstream ever meets the older form.

use vstd::prelude::*;
use crate::model::{Author, AuthorView, Feed, FeedView, Item, ItemView};

verus! {

/// The list of authors after folding. A list that is there stays as it is,
/// even an empty one, and the single author is dropped; where there is no
/// list, the single author becomes a list of one; where there is neither,
/// there is still no list.
pub open spec fn merged_authors(
    author: Option<AuthorView>,
    authors: Option<Seq<AuthorView>>,
) -> Option<Seq<AuthorView>> {
    match (author, authors) {
        (Some(a), None) => Some(seq![a]),
        _ => authors,
    }
}

impl ItemView {
    /// The item with its single author folded into the list.
    pub open spec fn normalized(self) -> ItemView {
        ItemView { authors: merged_authors(self.author, self.authors), author: None, ..self }
    }

    /// No single author is left.
    pub open spec fn is_normal(self) -> bool {
        self.author.is_none()
    }
}

impl FeedView {
    /// The feed with its own single author folded, its items left alone.
    pub open spec fn folded(self) -> FeedView {
        FeedView { authors: merged_authors(self.author, self.authors), author: None, ..self }
    }

    /// The feed with its single author folded, and each item's.
    pub open spec fn normalized(self) -> FeedView {
        FeedView {
            items: match self.items {
                Some(items) => Some(items.map_values(|item: ItemView| item.normalized())),
                None => None,
            },
            ..self.folded()
        }
    }

    /// No single author is left, in the feed or in any item.
    pub open spec fn is_normal(self) -> bool {
        &&& self.author.is_none()
        &&& match self.items {
            Some(items) => forall|i: int| 0 <= i < items.len() ==> (#[trigger] items[i]).is_normal(),
            None => true,
        }
    }
}

/// Folds the single `author` into the list of `authors` and empties the
/// single slot, for any combination of the two: a list that is there stays
/// untouched and the single author is dropped; where there is no list, the
/// single author becomes a list of one; where there is neither, nothing
/// changes.
pub fn cleanup_authors_impl(author: &mut Option<Author>, authors: &mut Option<Vec<Author>>)
    ensures
        final(author).is_none(),
        final(authors).deep_view() == merged_authors(old(author).deep_view(), old(authors).deep_view()),
        old(author).is_none() || old(authors).is_some() ==> *final(authors) == *old(authors),
{
    if author.is_some() {
        if authors.is_none() {
            let copy = author.as_ref().unwrap().clone();
            let list = vec![copy];
            assert(list.deep_view() =~= seq![copy@]);
            *authors = Some(list);
        }
        *author = None;
    }
}

impl Item {
    /// Folds this item's single author into its list.
    pub(crate) fn cleanup_authors(&mut self)
        ensures
            final(self)@ == old(self)@.normalized(),
    {
        cleanup_authors_impl(&mut self.author, &mut self.authors);
    }
}

/// Folds the single author of every item, each by itself.
pub(crate) fn cleanup_items(items: &mut Vec<Item>)
    ensures
        final(items).deep_view() == old(items).deep_view().map_values(|item: ItemView| item.normalized()),
{
    let n = items.len();
    let mut i: usize = 0;
    while i < n
        invariant
            i <= n,
            items.len() == n,
            old(items).len() == n,
            forall|k: int| 0 <= k < i ==> (#[trigger] items@[k])@ == old(items)@[k]@.normalized(),
            forall|k: int| i <= k < n ==> (#[trigger] items@[k]) == old(items)@[k],
        decreases n - i,
    {
        items[i].cleanup_authors();
        i += 1;
    }
    assert(items.deep_view() =~= old(items).deep_view().map_values(|item: ItemView| item.normalized()));
}

impl Feed {
    /// Folds the feed's own single author into its list.
    pub(crate) fn cleanup_authors(&mut self)
        ensures
            final(self)@ == old(self)@.folded(),
    {
        cleanup_authors_impl(&mut self.author, &mut self.authors);
    }

    /// Folds the single author of the feed and of every item.
    pub(crate) fn normalize(&mut self)
        ensures
            final(self)@ == old(self)@.normalized(),
    {
        self.cleanup_authors();
        match &mut self.items {
            Some(items) => {
                cleanup_items(items);
            },
            None => {},
        }
    }
}

} // verus!
