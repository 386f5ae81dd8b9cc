//! What holds of reading, folding and writing, for every document.
//!
//! The laws speak of JSON trees. Between a text and its tree stands
//! `serde_json`, of which nothing is proved here.

use vstd::prelude::*;
use crate::document::feed_of_document;
use crate::error::{RecordKind, SchemaFault};
use crate::model::{Attachment, AttachmentView, Author, AuthorView, FeedView, Hub, HubView, Item, ItemView};
use crate::schema::{
    all_of, attachment_names, attachment_of_tree, attachment_tree, author_names, author_of_tree,
    author_tree, feed_names, feed_of_tree, feed_tree, hub_names, hub_of_tree, hub_tree,
    item_names, item_of_tree, item_tree, lemma_member_names,
    lemma_no_fault, lemma_put_member, flag_tree, list_tree, text_tree, texts_tree, optional_list, optional_text, required_text, optional_record, optional_texts, texts_of,
    Shape,
};
use crate::tree::{member, present, JsonTree};

verus! {

/// No member `author` is there, in the feed or in any of its items.
pub open spec fn has_no_single_author(t: JsonTree) -> bool {
    &&& present(t, "author"@) is None
    &&& match present(t, "items"@) {
        Some(JsonTree::Array(trees)) => forall|k: int| 0 <= k < trees.len() ==> present(#[trigger] trees[k], "author"@) is None,
        _ => true,
    }
}

/// An author that is written reads back as the same author.
pub proof fn law_author_reads_back(a: AuthorView)
    ensures
        author_of_tree(author_tree(a)) == Ok::<AuthorView, SchemaFault>(a),
{
    broadcast use lemma_put_member;
    lemma_member_names();
}

/// A hub that is written reads back as the same hub.
pub proof fn law_hub_reads_back(h: HubView)
    ensures
        hub_of_tree(hub_tree(h)) == Ok::<HubView, SchemaFault>(h),
{
    broadcast use lemma_put_member;
    lemma_member_names();
}

/// An attachment that is written reads back as the same attachment.
pub proof fn law_attachment_reads_back(a: AttachmentView)
    ensures
        attachment_of_tree(attachment_tree(a)) == Ok::<AttachmentView, SchemaFault>(a),
{
    broadcast use lemma_put_member;
    lemma_member_names();
}

/// A list of records that is written reads back as the same list, in the
/// same order, where each of its records does.
pub proof fn lemma_list_reads_back<T: Shape>(list: Seq<<T as DeepView>::V>)
    requires
        forall|i: int| 0 <= i < list.len() ==> T::of_tree(T::tree_of(#[trigger] list[i])) == Ok::<<T as DeepView>::V, SchemaFault>(list[i]),
    ensures
        all_of(
            list.map_values(|x: <T as DeepView>::V| T::tree_of(x)).map_values(|y: JsonTree| T::of_tree(y)),
        ) == Ok::<Seq<<T as DeepView>::V>, SchemaFault>(list),
{
    let reads = list.map_values(|x: <T as DeepView>::V| T::tree_of(x)).map_values(|y: JsonTree| T::of_tree(y));
    assert forall|k: int| 0 <= k < reads.len() implies (#[trigger] reads[k]) is Ok by {
        assert(T::of_tree(T::tree_of(list[k])) == Ok::<<T as DeepView>::V, SchemaFault>(list[k]));
    }
    lemma_no_fault(reads);
    assert(reads.map_values(|r: Result<<T as DeepView>::V, SchemaFault>| r->Ok_0) =~= list) by {
        assert forall|k: int| 0 <= k < reads.len() implies (#[trigger] reads[k])->Ok_0 == list[k] by {
            assert(T::of_tree(T::tree_of(list[k])) == Ok::<<T as DeepView>::V, SchemaFault>(list[k]));
        }
    }
}

/// The members of a written item, one by one.
pub proof fn lemma_item_members(i: ItemView)
    ensures
        member(item_tree(i), "id"@) == Some(JsonTree::Text(i.id)),
        member(item_tree(i), "url"@) == text_tree(i.url),
        member(item_tree(i), "external_url"@) == text_tree(i.external_url),
        member(item_tree(i), "title"@) == text_tree(i.title),
        member(item_tree(i), "content_html"@) == text_tree(i.content_html),
        member(item_tree(i), "content_text"@) == text_tree(i.content_text),
        member(item_tree(i), "summary"@) == text_tree(i.summary),
        member(item_tree(i), "image"@) == text_tree(i.image),
        member(item_tree(i), "banner_image"@) == text_tree(i.banner_image),
        member(item_tree(i), "date_published"@) == text_tree(i.date_published),
        member(item_tree(i), "date_modified"@) == text_tree(i.date_modified),
        member(item_tree(i), "authors"@) == list_tree::<Author>(i.authors),
        member(item_tree(i), "author"@) is None,
        member(item_tree(i), "tags"@) == texts_tree(i.tags),
        member(item_tree(i), "language"@) == text_tree(i.language),
        member(item_tree(i), "attachments"@) == list_tree::<Attachment>(i.attachments),
{
    broadcast use lemma_put_member;
    lemma_member_names();
}

/// The members of a written feed, one by one.
pub proof fn lemma_feed_members(f: FeedView)
    ensures
        member(feed_tree(f), "version"@) == Some(JsonTree::Text(f.version)),
        member(feed_tree(f), "title"@) == Some(JsonTree::Text(f.title)),
        member(feed_tree(f), "home_page_url"@) == text_tree(f.home_page_url),
        member(feed_tree(f), "feed_url"@) == text_tree(f.feed_url),
        member(feed_tree(f), "description"@) == text_tree(f.description),
        member(feed_tree(f), "user_comment"@) == text_tree(f.user_comment),
        member(feed_tree(f), "next_url"@) == text_tree(f.next_url),
        member(feed_tree(f), "icon"@) == text_tree(f.icon),
        member(feed_tree(f), "favicon"@) == text_tree(f.favicon),
        member(feed_tree(f), "authors"@) == list_tree::<Author>(f.authors),
        member(feed_tree(f), "author"@) is None,
        member(feed_tree(f), "language"@) == text_tree(f.language),
        member(feed_tree(f), "expired"@) == flag_tree(f.expired),
        member(feed_tree(f), "hubs"@) == list_tree::<Hub>(f.hubs),
        member(feed_tree(f), "items"@) == list_tree::<Item>(f.items),
{
    broadcast use lemma_put_member;
    lemma_member_names();
}

/// An item without a single author that is written reads back as the same
/// item.
pub proof fn law_item_reads_back(i: ItemView)
    requires
        i.is_normal(),
    ensures
        item_of_tree(item_tree(i)) == Ok::<ItemView, SchemaFault>(i),
{
    lemma_item_members(i);
    let t = item_tree(i);
    if let Some(list) = i.authors {
        assert forall|k: int| 0 <= k < list.len() implies Author::of_tree(Author::tree_of(#[trigger] list[k])) == Ok::<AuthorView, SchemaFault>(list[k]) by {
            law_author_reads_back(list[k]);
        }
        lemma_list_reads_back::<Author>(list);
    }
    if let Some(list) = i.attachments {
        assert forall|k: int| 0 <= k < list.len() implies Attachment::of_tree(Attachment::tree_of(#[trigger] list[k])) == Ok::<AttachmentView, SchemaFault>(list[k]) by {
            law_attachment_reads_back(list[k]);
        }
        lemma_list_reads_back::<Attachment>(list);
    }
    if let Some(tags) = i.tags {
        let written = tags.map_values(|x: Seq<char>| JsonTree::Text(x));
        assert(texts_of(written) =~= tags);
    }
    assert(optional_list::<Author>(t, "authors"@, RecordKind::Item) == Ok::<Option<Seq<AuthorView>>, SchemaFault>(i.authors));
    assert(optional_list::<Attachment>(t, "attachments"@, RecordKind::Item) == Ok::<Option<Seq<AttachmentView>>, SchemaFault>(i.attachments));
    assert(optional_texts(t, "tags"@, RecordKind::Item) == Ok::<Option<Seq<Seq<char>>>, SchemaFault>(i.tags));
    assert(optional_record::<Author>(t, "author"@) == Ok::<Option<AuthorView>, SchemaFault>(None));
}

/// A feed without single authors that is written reads back as the same
/// feed: nothing is lost or reordered between writing and reading.
pub proof fn law_feed_reads_back(f: FeedView)
    requires
        f.is_normal(),
    ensures
        feed_of_tree(feed_tree(f)) == Ok::<FeedView, SchemaFault>(f),
{
    lemma_feed_members(f);
    let t = feed_tree(f);
    if let Some(list) = f.authors {
        assert forall|k: int| 0 <= k < list.len() implies Author::of_tree(Author::tree_of(#[trigger] list[k])) == Ok::<AuthorView, SchemaFault>(list[k]) by {
            law_author_reads_back(list[k]);
        }
        lemma_list_reads_back::<Author>(list);
    }
    if let Some(list) = f.hubs {
        assert forall|k: int| 0 <= k < list.len() implies Hub::of_tree(Hub::tree_of(#[trigger] list[k])) == Ok::<HubView, SchemaFault>(list[k]) by {
            law_hub_reads_back(list[k]);
        }
        lemma_list_reads_back::<Hub>(list);
    }
    if let Some(list) = f.items {
        assert forall|k: int| 0 <= k < list.len() implies Item::of_tree(Item::tree_of(#[trigger] list[k])) == Ok::<ItemView, SchemaFault>(list[k]) by {
            law_item_reads_back(list[k]);
        }
        lemma_list_reads_back::<Item>(list);
    }
    assert(optional_list::<Author>(t, "authors"@, RecordKind::Feed) == Ok::<Option<Seq<AuthorView>>, SchemaFault>(f.authors));
    assert(optional_list::<Hub>(t, "hubs"@, RecordKind::Feed) == Ok::<Option<Seq<HubView>>, SchemaFault>(f.hubs));
    assert(optional_list::<Item>(t, "items"@, RecordKind::Feed) == Ok::<Option<Seq<ItemView>>, SchemaFault>(f.items));
    assert(optional_record::<Author>(t, "author"@) == Ok::<Option<AuthorView>, SchemaFault>(None));
}

/// The single `author` is never written: the tree of a feed has no such
/// member, and no item in it has one.
pub proof fn law_single_author_is_never_written(f: FeedView)
    ensures
        member(feed_tree(f), "author"@) is None,
        forall|i: ItemView| member(#[trigger] item_tree(i), "author"@) is None,
        has_no_single_author(feed_tree(f)),
{
    lemma_feed_members(f);
    assert forall|i: ItemView| member(#[trigger] item_tree(i), "author"@) is None by {
        lemma_item_members(i);
    }
    if let Some(items) = f.items {
        let trees = items.map_values(|x: ItemView| Item::tree_of(x));
        assert(present(feed_tree(f), "items"@) == Some(JsonTree::Array(trees)));
        assert forall|k: int| 0 <= k < trees.len() implies present(#[trigger] trees[k], "author"@) is None by {
            assert(trees[k] == item_tree(items[k]));
        }
    }
}

/// The lists of a feed are written as arrays of the same length and in the
/// same order.
pub proof fn law_feed_lists_are_written_in_order(f: FeedView)
    ensures
        f.items matches Some(items) ==> (member(feed_tree(f), "items"@) matches Some(JsonTree::Array(trees))
            && trees.len() == items.len() && forall|k: int| 0 <= k < items.len() ==> trees[k] == item_tree(#[trigger] items[k])),
        f.authors matches Some(authors) ==> (member(feed_tree(f), "authors"@) matches Some(JsonTree::Array(trees))
            && trees.len() == authors.len() && forall|k: int| 0 <= k < authors.len() ==> trees[k] == author_tree(#[trigger] authors[k])),
        f.hubs matches Some(hubs) ==> (member(feed_tree(f), "hubs"@) matches Some(JsonTree::Array(trees))
            && trees.len() == hubs.len() && forall|k: int| 0 <= k < hubs.len() ==> trees[k] == hub_tree(#[trigger] hubs[k])),
{
    lemma_feed_members(f);
}

/// The lists of an item are written as arrays of the same length and in the
/// same order.
pub proof fn law_item_lists_are_written_in_order(i: ItemView)
    ensures
        i.authors matches Some(authors) ==> (member(item_tree(i), "authors"@) matches Some(JsonTree::Array(trees))
            && trees.len() == authors.len() && forall|k: int| 0 <= k < authors.len() ==> trees[k] == author_tree(#[trigger] authors[k])),
        i.tags matches Some(tags) ==> (member(item_tree(i), "tags"@) matches Some(JsonTree::Array(trees))
            && trees.len() == tags.len() && forall|k: int| 0 <= k < tags.len() ==> trees[k] == JsonTree::Text(#[trigger] tags[k])),
        i.attachments matches Some(attachments) ==> (member(item_tree(i), "attachments"@) matches Some(JsonTree::Array(trees))
            && trees.len() == attachments.len() && forall|k: int| 0 <= k < attachments.len() ==> trees[k] == attachment_tree(
            #[trigger] attachments[k],
        )),
{
    lemma_item_members(i);
}

/// Each item of a feed is read from its own tree alone and folded by
/// itself, and the items keep the order of the document.
pub proof fn law_each_item_is_read_by_itself(t: JsonTree, trees: Seq<JsonTree>, k: int)
    requires
        feed_of_tree(t) is Ok,
        present(t, "items"@) == Some(JsonTree::Array(trees)),
        0 <= k < trees.len(),
    ensures
        item_of_tree(trees[k]) is Ok,
        (feed_of_tree(t)->Ok_0.items matches Some(items) && items.len() == trees.len() && items[k] == item_of_tree(trees[k])->Ok_0),
        (feed_of_document(t)->Ok_0.items matches Some(items) && items.len() == trees.len() && items[k] == item_of_tree(
            trees[k],
        )->Ok_0.normalized()),
{
    let reads = trees.map_values(|x: JsonTree| Item::of_tree(x));
    lemma_no_fault(reads);
    assert(reads[k] is Ok);
}

/// A feed whose document has a faulty item is no feed.
pub proof fn law_faulty_item_fails_the_feed(t: JsonTree, trees: Seq<JsonTree>, k: int)
    requires
        present(t, "items"@) == Some(JsonTree::Array(trees)),
        0 <= k < trees.len(),
        item_of_tree(trees[k]) is Err,
    ensures
        feed_of_document(t) is Err,
{
    let reads = trees.map_values(|x: JsonTree| Item::of_tree(x));
    lemma_no_fault(reads);
    assert(reads[k] is Err);
}

/// A document without `version` or without `title` is no feed, and neither
/// is one that has an item without `id`.
pub proof fn law_required_members(t: JsonTree)
    ensures
        present(t, "version"@) is None ==> feed_of_document(t) is Err,
        present(t, "title"@) is None ==> feed_of_document(t) is Err,
        forall|trees: Seq<JsonTree>, k: int|
            present(t, "items"@) == Some(JsonTree::Array(trees)) && 0 <= k < trees.len() && present(#[trigger] trees[k], "id"@) is None
                ==> feed_of_document(t) is Err,
{
    assert forall|trees: Seq<JsonTree>, k: int|
        present(t, "items"@) == Some(JsonTree::Array(trees)) && 0 <= k < trees.len() && present(#[trigger] trees[k], "id"@) is None
        implies feed_of_document(t) is Err by {
        law_faulty_item_fails_the_feed(t, trees, k);
    }
}

/// Folding a second time changes nothing.
pub proof fn law_folding_twice_is_folding_once(f: FeedView, i: ItemView)
    ensures
        f.normalized().normalized() == f.normalized(),
        i.normalized().normalized() == i.normalized(),
        f.normalized().is_normal(),
        i.normalized().is_normal(),
{
    match f.items {
        Some(items) => {
            let once = items.map_values(|item: ItemView| item.normalized());
            assert(once.map_values(|item: ItemView| item.normalized()) =~= once);
        },
        None => {},
    }
}

/// Reading leaves no single author behind, in the feed or in any item.
pub proof fn law_reading_leaves_no_single_author(t: JsonTree)
    ensures
        feed_of_document(t) matches Ok(f) ==> f.is_normal(),
{
}

/// A feed whose document has a list of `authors` that is not empty, or a
/// single `author` and no list, has authors after reading; one whose
/// document names none in either way has no list at all.
pub proof fn law_authors_are_there_when_named(t: JsonTree)
    requires
        feed_of_tree(t) is Ok,
    ensures
        ({
            let before = feed_of_tree(t)->Ok_0;
            let after = feed_of_document(t)->Ok_0;
            &&& (before.author is Some && before.authors is None) || (before.authors is Some && before.authors->Some_0.len() > 0)
                ==> after.authors is Some && after.authors->Some_0.len() > 0
            &&& before.author is None && before.authors is None ==> after.authors is None
        }),
{
}

/// A single `author` without a list of `authors` becomes a list of one.
pub proof fn law_single_author_becomes_the_list(t: JsonTree)
    requires
        feed_of_tree(t) is Ok,
        present(t, "author"@) is Some,
        present(t, "authors"@) is None,
    ensures
        ({
            let single = author_of_tree(present(t, "author"@)->Some_0);
            let after = feed_of_document(t)->Ok_0;
            &&& single is Ok
            &&& after.authors == Some(seq![single->Ok_0])
            &&& after.author is None
        }),
{
}

/// The same for an item.
pub proof fn law_single_author_of_an_item_becomes_the_list(t: JsonTree)
    requires
        item_of_tree(t) is Ok,
        present(t, "author"@) is Some,
        present(t, "authors"@) is None,
    ensures
        ({
            let single = author_of_tree(present(t, "author"@)->Some_0);
            let after = item_of_tree(t)->Ok_0.normalized();
            &&& single is Ok
            &&& after.authors == Some(seq![single->Ok_0])
            &&& after.author is None
        }),
{
}

/// Where the document has a list of `authors`, the list stays exactly as it
/// is, whether or not a single `author` stands beside it.
pub proof fn law_the_list_wins(t: JsonTree)
    requires
        feed_of_tree(t) is Ok,
        present(t, "authors"@) is Some,
    ensures
        ({
            let before = feed_of_tree(t)->Ok_0;
            let after = feed_of_document(t)->Ok_0;
            &&& before.authors is Some
            &&& after.authors == before.authors
            &&& after.author is None
        }),
{
}

/// The same for an item.
pub proof fn law_the_list_of_an_item_wins(t: JsonTree)
    requires
        item_of_tree(t) is Ok,
        present(t, "authors"@) is Some,
    ensures
        ({
            let before = item_of_tree(t)->Ok_0;
            let after = before.normalized();
            &&& before.authors is Some
            &&& after.authors == before.authors
            &&& after.author is None
        }),
{
}

/// Where the document names no author in either way, there is no list
/// after reading: not even an empty one.
pub proof fn law_absence_stays(t: JsonTree)
    requires
        feed_of_tree(t) is Ok,
        present(t, "author"@) is None,
        present(t, "authors"@) is None,
    ensures
        feed_of_document(t)->Ok_0.authors is None,
        feed_of_document(t)->Ok_0.author is None,
{
}

/// The same for an item.
pub proof fn law_absence_stays_in_an_item(t: JsonTree)
    requires
        item_of_tree(t) is Ok,
        present(t, "author"@) is None,
        present(t, "authors"@) is None,
    ensures
        item_of_tree(t)->Ok_0.normalized().authors is None,
        item_of_tree(t)->Ok_0.normalized().author is None,
{
}

/// A document without any single `author` is read as it stands, and what
/// is then written reads back as the same feed: the same authors in the same
/// order, in the feed and in every item, and no single `author` anywhere.
pub proof fn law_plural_round_trip(t: JsonTree)
    requires
        feed_of_tree(t) is Ok,
        has_no_single_author(t),
    ensures
        feed_of_document(t) == feed_of_tree(t),
        feed_of_document(feed_tree(feed_of_document(t)->Ok_0)) == feed_of_document(t),
        has_no_single_author(feed_tree(feed_of_document(t)->Ok_0)),
{
    let f = feed_of_tree(t)->Ok_0;
    assert(f.author is None);
    match f.items {
        Some(items) => {
            let trees = present(t, "items"@)->Some_0->Array_0;
            assert forall|k: int| 0 <= k < items.len() implies (#[trigger] items[k]).normalized() == items[k] by {
                law_each_item_is_read_by_itself(t, trees, k);
            }
            assert(items.map_values(|item: ItemView| item.normalized()) =~= items);
        },
        None => {},
    }
    assert(f.normalized() == f);
    law_feed_reads_back(f);
    law_single_author_is_never_written(f);
}

/// A member that the schema does not know changes nothing in how an author
/// is read.
pub proof fn law_unknown_member_of_an_author(m: Map<Seq<char>, JsonTree>, key: Seq<char>, x: JsonTree)
    requires
        !author_names().contains(key),
    ensures
        author_of_tree(JsonTree::Object(m.insert(key, x))) == author_of_tree(JsonTree::Object(m)),
{
}

/// A member that the schema does not know changes nothing in how a hub is
/// read.
pub proof fn law_unknown_member_of_a_hub(m: Map<Seq<char>, JsonTree>, key: Seq<char>, x: JsonTree)
    requires
        !hub_names().contains(key),
    ensures
        hub_of_tree(JsonTree::Object(m.insert(key, x))) == hub_of_tree(JsonTree::Object(m)),
{
}

/// A member that the schema does not know changes nothing in how an
/// attachment is read.
pub proof fn law_unknown_member_of_an_attachment(m: Map<Seq<char>, JsonTree>, key: Seq<char>, x: JsonTree)
    requires
        !attachment_names().contains(key),
    ensures
        attachment_of_tree(JsonTree::Object(m.insert(key, x))) == attachment_of_tree(JsonTree::Object(m)),
{
}

/// A member that the schema does not know changes nothing in how an item
/// is read.
pub proof fn law_unknown_member_of_an_item(m: Map<Seq<char>, JsonTree>, key: Seq<char>, x: JsonTree)
    requires
        !item_names().contains(key),
    ensures
        item_of_tree(JsonTree::Object(m.insert(key, x))) == item_of_tree(JsonTree::Object(m)),
{
    let before = JsonTree::Object(m);
    let after = JsonTree::Object(m.insert(key, x));
    assert(present(after, "id"@) == present(before, "id"@));
    assert(present(after, "url"@) == present(before, "url"@));
    assert(present(after, "external_url"@) == present(before, "external_url"@));
    assert(present(after, "title"@) == present(before, "title"@));
    assert(present(after, "content_html"@) == present(before, "content_html"@));
    assert(present(after, "content_text"@) == present(before, "content_text"@));
    assert(present(after, "summary"@) == present(before, "summary"@));
    assert(present(after, "image"@) == present(before, "image"@));
    assert(present(after, "banner_image"@) == present(before, "banner_image"@));
    assert(present(after, "date_published"@) == present(before, "date_published"@));
    assert(present(after, "date_modified"@) == present(before, "date_modified"@));
    assert(present(after, "authors"@) == present(before, "authors"@));
    assert(present(after, "author"@) == present(before, "author"@));
    assert(present(after, "tags"@) == present(before, "tags"@));
    assert(present(after, "language"@) == present(before, "language"@));
    assert(present(after, "attachments"@) == present(before, "attachments"@));
    assert(required_text(after, "id"@, RecordKind::Item) == required_text(before, "id"@, RecordKind::Item));
    assert(optional_text(after, "url"@, RecordKind::Item) == optional_text(before, "url"@, RecordKind::Item));
    assert(optional_text(after, "external_url"@, RecordKind::Item) == optional_text(before, "external_url"@, RecordKind::Item));
    assert(optional_text(after, "title"@, RecordKind::Item) == optional_text(before, "title"@, RecordKind::Item));
    assert(optional_text(after, "content_html"@, RecordKind::Item) == optional_text(before, "content_html"@, RecordKind::Item));
    assert(optional_text(after, "content_text"@, RecordKind::Item) == optional_text(before, "content_text"@, RecordKind::Item));
    assert(optional_text(after, "summary"@, RecordKind::Item) == optional_text(before, "summary"@, RecordKind::Item));
    assert(optional_text(after, "image"@, RecordKind::Item) == optional_text(before, "image"@, RecordKind::Item));
    assert(optional_text(after, "banner_image"@, RecordKind::Item) == optional_text(before, "banner_image"@, RecordKind::Item));
    assert(optional_text(after, "date_published"@, RecordKind::Item) == optional_text(before, "date_published"@, RecordKind::Item));
    assert(optional_text(after, "date_modified"@, RecordKind::Item) == optional_text(before, "date_modified"@, RecordKind::Item));
    assert(optional_list::<Author>(after, "authors"@, RecordKind::Item) == optional_list::<Author>(before, "authors"@, RecordKind::Item));
    assert(optional_record::<Author>(after, "author"@) == optional_record::<Author>(before, "author"@));
    assert(optional_texts(after, "tags"@, RecordKind::Item) == optional_texts(before, "tags"@, RecordKind::Item));
    assert(optional_text(after, "language"@, RecordKind::Item) == optional_text(before, "language"@, RecordKind::Item));
    assert(optional_list::<Attachment>(after, "attachments"@, RecordKind::Item) == optional_list::<Attachment>(before, "attachments"@, RecordKind::Item));
}

/// A member that the schema does not know changes nothing in how a feed is
/// read.
pub proof fn law_unknown_member_of_a_feed(m: Map<Seq<char>, JsonTree>, key: Seq<char>, x: JsonTree)
    requires
        !feed_names().contains(key),
    ensures
        feed_of_tree(JsonTree::Object(m.insert(key, x))) == feed_of_tree(JsonTree::Object(m)),
        feed_of_document(JsonTree::Object(m.insert(key, x))) == feed_of_document(JsonTree::Object(m)),
{
}

/// Nor does such a member inside one of the feed's items.
pub proof fn law_unknown_member_of_an_item_in_a_feed(
    m: Map<Seq<char>, JsonTree>,
    trees: Seq<JsonTree>,
    k: int,
    members: Map<Seq<char>, JsonTree>,
    key: Seq<char>,
    x: JsonTree,
)
    requires
        member(JsonTree::Object(m), "items"@) == Some(JsonTree::Array(trees)),
        0 <= k < trees.len(),
        trees[k] == JsonTree::Object(members),
        !item_names().contains(key),
    ensures
        feed_of_document(
            JsonTree::Object(m.insert("items"@, JsonTree::Array(trees.update(k, JsonTree::Object(members.insert(key, x)))))),
        ) == feed_of_document(JsonTree::Object(m)),
{
    lemma_member_names();
    let changed = trees.update(k, JsonTree::Object(members.insert(key, x)));
    assert(changed.map_values(|y: JsonTree| Item::of_tree(y)) =~= trees.map_values(|y: JsonTree| Item::of_tree(y))) by {
        law_unknown_member_of_an_item(members, key, x);
    }
}

} // verus!
