//! The schema of a feed, as mathematics.
//!
//! For every JSON tree the reading functions say which record it stands for,
//! or what is wrong with it; for every record the writing functions say which
//! tree is written. Fields are read in the order of the schema and the first
//! fault is the one reported. Members that the schema does not know are never
//! looked at. A field that is absent is not written, and the single `author`
//! of a version 1.0 document is never written.

use vstd::prelude::*;
use crate::error::{RecordKind, SchemaError, SchemaFault};
use crate::model::{Attachment, AttachmentView, Author, AuthorView, Feed, FeedView, Hub, HubView, Item, ItemView};
use crate::tree::{member, present, JsonTree, Numeral};

verus! {


/// A string that the record must have.
pub open spec fn required_text(t: JsonTree, key: Seq<char>, record: RecordKind) -> Result<Seq<char>, SchemaFault> {
    match present(t, key) {
        None => Err(SchemaFault::MissingField { record, field: key }),
        Some(JsonTree::Text(s)) => Ok(s),
        Some(_) => Err(SchemaFault::WrongType { record, field: key }),
    }
}

/// A string that the record may have.
pub open spec fn optional_text(t: JsonTree, key: Seq<char>, record: RecordKind) -> Result<Option<Seq<char>>, SchemaFault> {
    match present(t, key) {
        None => Ok(None),
        Some(JsonTree::Text(s)) => Ok(Some(s)),
        Some(_) => Err(SchemaFault::WrongType { record, field: key }),
    }
}

/// A count that the record may have: a non-negative integer of 64 bits.
pub open spec fn optional_count(t: JsonTree, key: Seq<char>, record: RecordKind) -> Result<Option<u64>, SchemaFault> {
    match present(t, key) {
        None => Ok(None),
        Some(JsonTree::Number(Numeral::Unsigned(n))) => Ok(Some(n)),
        Some(_) => Err(SchemaFault::WrongType { record, field: key }),
    }
}

/// A boolean that the record may have.
pub open spec fn optional_flag(t: JsonTree, key: Seq<char>, record: RecordKind) -> Result<Option<bool>, SchemaFault> {
    match present(t, key) {
        None => Ok(None),
        Some(JsonTree::Bool(b)) => Ok(Some(b)),
        Some(_) => Err(SchemaFault::WrongType { record, field: key }),
    }
}

/// The strings of an array of strings.
pub open spec fn texts_of(items: Seq<JsonTree>) -> Seq<Seq<char>> {
    items.map_values(|x: JsonTree| x->Text_0)
}

/// A list of strings that the record may have.
pub open spec fn optional_texts(t: JsonTree, key: Seq<char>, record: RecordKind) -> Result<Option<Seq<Seq<char>>>, SchemaFault> {
    match present(t, key) {
        None => Ok(None),
        Some(JsonTree::Array(items)) => if forall|i: int| 0 <= i < items.len() ==> (#[trigger] items[i]) is Text {
            Ok(Some(texts_of(items)))
        } else {
            Err(SchemaFault::WrongType { record, field: key })
        },
        Some(_) => Err(SchemaFault::WrongType { record, field: key }),
    }
}

/// The fault of the first reading that failed, if any did.
pub open spec fn first_fault<T>(reads: Seq<Result<T, SchemaFault>>) -> Option<SchemaFault>
    decreases reads.len(),
{
    if reads.len() == 0 {
        None
    } else {
        match first_fault(reads.drop_last()) {
            Some(f) => Some(f),
            None => match reads.last() {
                Err(f) => Some(f),
                Ok(_) => None,
            },
        }
    }
}

/// All the readings in order, or the first fault among them.
pub open spec fn all_of<T>(reads: Seq<Result<T, SchemaFault>>) -> Result<Seq<T>, SchemaFault> {
    match first_fault(reads) {
        Some(f) => Err(f),
        None => Ok(reads.map_values(|r: Result<T, SchemaFault>| r->Ok_0)),
    }
}

/// A type that a JSON tree can stand for.
pub trait Shape: Sized + DeepView {
    /// The record that the tree stands for, or what is wrong with the tree.
    spec fn of_tree(t: JsonTree) -> Result<<Self as DeepView>::V, SchemaFault>;

    /// The tree that is written for a record.
    spec fn tree_of(view: <Self as DeepView>::V) -> JsonTree;
}

/// A record that the owner may have under `key`.
pub open spec fn optional_record<T: Shape>(t: JsonTree, key: Seq<char>) -> Result<Option<<T as DeepView>::V>, SchemaFault> {
    match present(t, key) {
        None => Ok(None),
        Some(x) => match T::of_tree(x) {
            Ok(a) => Ok(Some(a)),
            Err(f) => Err(f),
        },
    }
}

/// A list of records that the owner may have under `key`, in the order of
/// the array.
pub open spec fn optional_list<T: Shape>(t: JsonTree, key: Seq<char>, record: RecordKind) -> Result<Option<Seq<<T as DeepView>::V>>, SchemaFault> {
    match present(t, key) {
        None => Ok(None),
        Some(JsonTree::Array(items)) => match all_of(items.map_values(|x: JsonTree| T::of_tree(x))) {
            Ok(s) => Ok(Some(s)),
            Err(f) => Err(f),
        },
        Some(_) => Err(SchemaFault::WrongType { record, field: key }),
    }
}

/// The member names that the schema knows in an author.
pub open spec fn author_names() -> Set<Seq<char>> {
    set!["name"@, "url"@, "avatar"@]
}

/// The member names that the schema knows in a hub.
pub open spec fn hub_names() -> Set<Seq<char>> {
    set!["type"@, "url"@]
}

/// The member names that the schema knows in an attachment.
pub open spec fn attachment_names() -> Set<Seq<char>> {
    set!["url"@, "mime_type"@, "title"@, "size_in_bytes"@, "duration_in_seconds"@]
}

/// The member names that the schema knows in an item.
pub open spec fn item_names() -> Set<Seq<char>> {
    set![
        "id"@,
        "url"@,
        "external_url"@,
        "title"@,
        "content_html"@,
        "content_text"@,
        "summary"@,
        "image"@,
        "banner_image"@,
        "date_published"@,
        "date_modified"@,
        "authors"@,
        "author"@,
        "tags"@,
        "language"@,
        "attachments"@,
    ]
}

/// The member names that the schema knows in a feed.
pub open spec fn feed_names() -> Set<Seq<char>> {
    set![
        "version"@,
        "title"@,
        "home_page_url"@,
        "feed_url"@,
        "description"@,
        "user_comment"@,
        "next_url"@,
        "icon"@,
        "favicon"@,
        "authors"@,
        "author"@,
        "language"@,
        "expired"@,
        "hubs"@,
        "items"@,
    ]
}

/// The author that a tree stands for.
pub open spec fn author_of_tree(t: JsonTree) -> Result<AuthorView, SchemaFault> {
    let name = optional_text(t, "name"@, RecordKind::Author);
    let url = optional_text(t, "url"@, RecordKind::Author);
    let avatar = optional_text(t, "avatar"@, RecordKind::Author);
    if !(t is Object) {
        Err(SchemaFault::NotAnObject { record: RecordKind::Author })
    } else if name is Err {
        Err(name->Err_0)
    } else if url is Err {
        Err(url->Err_0)
    } else if avatar is Err {
        Err(avatar->Err_0)
    } else {
        Ok(AuthorView { name: name->Ok_0, url: url->Ok_0, avatar: avatar->Ok_0 })
    }
}

/// The hub that a tree stands for.
pub open spec fn hub_of_tree(t: JsonTree) -> Result<HubView, SchemaFault> {
    let type_ = required_text(t, "type"@, RecordKind::Hub);
    let url = required_text(t, "url"@, RecordKind::Hub);
    if !(t is Object) {
        Err(SchemaFault::NotAnObject { record: RecordKind::Hub })
    } else if type_ is Err {
        Err(type_->Err_0)
    } else if url is Err {
        Err(url->Err_0)
    } else {
        Ok(HubView { type_: type_->Ok_0, url: url->Ok_0 })
    }
}

/// The attachment that a tree stands for.
pub open spec fn attachment_of_tree(t: JsonTree) -> Result<AttachmentView, SchemaFault> {
    let url = required_text(t, "url"@, RecordKind::Attachment);
    let mime_type = required_text(t, "mime_type"@, RecordKind::Attachment);
    let title = optional_text(t, "title"@, RecordKind::Attachment);
    let size_in_bytes = optional_count(t, "size_in_bytes"@, RecordKind::Attachment);
    let duration_in_seconds = optional_count(t, "duration_in_seconds"@, RecordKind::Attachment);
    if !(t is Object) {
        Err(SchemaFault::NotAnObject { record: RecordKind::Attachment })
    } else if url is Err {
        Err(url->Err_0)
    } else if mime_type is Err {
        Err(mime_type->Err_0)
    } else if title is Err {
        Err(title->Err_0)
    } else if size_in_bytes is Err {
        Err(size_in_bytes->Err_0)
    } else if duration_in_seconds is Err {
        Err(duration_in_seconds->Err_0)
    } else {
        Ok(
            AttachmentView {
                url: url->Ok_0,
                mime_type: mime_type->Ok_0,
                title: title->Ok_0,
                size_in_bytes: size_in_bytes->Ok_0,
                duration_in_seconds: duration_in_seconds->Ok_0,
            },
        )
    }
}

/// The item that a tree stands for, as the document has it: a single
/// `author` is still in its own place.
pub open spec fn item_of_tree(t: JsonTree) -> Result<ItemView, SchemaFault> {
    let id = required_text(t, "id"@, RecordKind::Item);
    let url = optional_text(t, "url"@, RecordKind::Item);
    let external_url = optional_text(t, "external_url"@, RecordKind::Item);
    let title = optional_text(t, "title"@, RecordKind::Item);
    let content_html = optional_text(t, "content_html"@, RecordKind::Item);
    let content_text = optional_text(t, "content_text"@, RecordKind::Item);
    let summary = optional_text(t, "summary"@, RecordKind::Item);
    let image = optional_text(t, "image"@, RecordKind::Item);
    let banner_image = optional_text(t, "banner_image"@, RecordKind::Item);
    let date_published = optional_text(t, "date_published"@, RecordKind::Item);
    let date_modified = optional_text(t, "date_modified"@, RecordKind::Item);
    let authors = optional_list::<Author>(t, "authors"@, RecordKind::Item);
    let author = optional_record::<Author>(t, "author"@);
    let tags = optional_texts(t, "tags"@, RecordKind::Item);
    let language = optional_text(t, "language"@, RecordKind::Item);
    let attachments = optional_list::<Attachment>(t, "attachments"@, RecordKind::Item);
    if !(t is Object) {
        Err(SchemaFault::NotAnObject { record: RecordKind::Item })
    } else if id is Err {
        Err(id->Err_0)
    } else if url is Err {
        Err(url->Err_0)
    } else if external_url is Err {
        Err(external_url->Err_0)
    } else if title is Err {
        Err(title->Err_0)
    } else if content_html is Err {
        Err(content_html->Err_0)
    } else if content_text is Err {
        Err(content_text->Err_0)
    } else if summary is Err {
        Err(summary->Err_0)
    } else if image is Err {
        Err(image->Err_0)
    } else if banner_image is Err {
        Err(banner_image->Err_0)
    } else if date_published is Err {
        Err(date_published->Err_0)
    } else if date_modified is Err {
        Err(date_modified->Err_0)
    } else if authors is Err {
        Err(authors->Err_0)
    } else if author is Err {
        Err(author->Err_0)
    } else if tags is Err {
        Err(tags->Err_0)
    } else if language is Err {
        Err(language->Err_0)
    } else if attachments is Err {
        Err(attachments->Err_0)
    } else {
        Ok(
            ItemView {
                id: id->Ok_0,
                url: url->Ok_0,
                external_url: external_url->Ok_0,
                title: title->Ok_0,
                content_html: content_html->Ok_0,
                content_text: content_text->Ok_0,
                summary: summary->Ok_0,
                image: image->Ok_0,
                banner_image: banner_image->Ok_0,
                date_published: date_published->Ok_0,
                date_modified: date_modified->Ok_0,
                authors: authors->Ok_0,
                author: author->Ok_0,
                tags: tags->Ok_0,
                language: language->Ok_0,
                attachments: attachments->Ok_0,
            },
        )
    }
}

/// The feed that a tree stands for, as the document has it: a single
/// `author` is still in its own place, in the feed and in each item.
pub open spec fn feed_of_tree(t: JsonTree) -> Result<FeedView, SchemaFault> {
    let version = required_text(t, "version"@, RecordKind::Feed);
    let title = required_text(t, "title"@, RecordKind::Feed);
    let home_page_url = optional_text(t, "home_page_url"@, RecordKind::Feed);
    let feed_url = optional_text(t, "feed_url"@, RecordKind::Feed);
    let description = optional_text(t, "description"@, RecordKind::Feed);
    let user_comment = optional_text(t, "user_comment"@, RecordKind::Feed);
    let next_url = optional_text(t, "next_url"@, RecordKind::Feed);
    let icon = optional_text(t, "icon"@, RecordKind::Feed);
    let favicon = optional_text(t, "favicon"@, RecordKind::Feed);
    let authors = optional_list::<Author>(t, "authors"@, RecordKind::Feed);
    let author = optional_record::<Author>(t, "author"@);
    let language = optional_text(t, "language"@, RecordKind::Feed);
    let expired = optional_flag(t, "expired"@, RecordKind::Feed);
    let hubs = optional_list::<Hub>(t, "hubs"@, RecordKind::Feed);
    let items = optional_list::<Item>(t, "items"@, RecordKind::Feed);
    if !(t is Object) {
        Err(SchemaFault::NotAnObject { record: RecordKind::Feed })
    } else if version is Err {
        Err(version->Err_0)
    } else if title is Err {
        Err(title->Err_0)
    } else if home_page_url is Err {
        Err(home_page_url->Err_0)
    } else if feed_url is Err {
        Err(feed_url->Err_0)
    } else if description is Err {
        Err(description->Err_0)
    } else if user_comment is Err {
        Err(user_comment->Err_0)
    } else if next_url is Err {
        Err(next_url->Err_0)
    } else if icon is Err {
        Err(icon->Err_0)
    } else if favicon is Err {
        Err(favicon->Err_0)
    } else if authors is Err {
        Err(authors->Err_0)
    } else if author is Err {
        Err(author->Err_0)
    } else if language is Err {
        Err(language->Err_0)
    } else if expired is Err {
        Err(expired->Err_0)
    } else if hubs is Err {
        Err(hubs->Err_0)
    } else if items is Err {
        Err(items->Err_0)
    } else {
        Ok(
            FeedView {
                version: version->Ok_0,
                title: title->Ok_0,
                home_page_url: home_page_url->Ok_0,
                feed_url: feed_url->Ok_0,
                description: description->Ok_0,
                user_comment: user_comment->Ok_0,
                next_url: next_url->Ok_0,
                icon: icon->Ok_0,
                favicon: favicon->Ok_0,
                authors: authors->Ok_0,
                author: author->Ok_0,
                language: language->Ok_0,
                expired: expired->Ok_0,
                hubs: hubs->Ok_0,
                items: items->Ok_0,
            },
        )
    }
}

/// The members `m` with `value` under `key`, where there is a value.
#[verifier::opaque]
pub open spec fn put(m: Map<Seq<char>, JsonTree>, key: Seq<char>, value: Option<JsonTree>) -> Map<Seq<char>, JsonTree> {
    match value {
        Some(x) => m.insert(key, x),
        None => m,
    }
}

/// The tree of a string that may be absent.
pub open spec fn text_tree(text: Option<Seq<char>>) -> Option<JsonTree> {
    match text {
        Some(s) => Some(JsonTree::Text(s)),
        None => None,
    }
}

/// The tree of a count that may be absent.
pub open spec fn count_tree(count: Option<u64>) -> Option<JsonTree> {
    match count {
        Some(n) => Some(JsonTree::Number(Numeral::Unsigned(n))),
        None => None,
    }
}

/// The tree of a boolean that may be absent.
pub open spec fn flag_tree(flag: Option<bool>) -> Option<JsonTree> {
    match flag {
        Some(b) => Some(JsonTree::Bool(b)),
        None => None,
    }
}

/// The tree of a list of strings that may be absent: an array in the order
/// of the list.
pub open spec fn texts_tree(texts: Option<Seq<Seq<char>>>) -> Option<JsonTree> {
    match texts {
        Some(s) => Some(JsonTree::Array(s.map_values(|x: Seq<char>| JsonTree::Text(x)))),
        None => None,
    }
}

/// The tree of a list of records that may be absent: an array in the order
/// of the list.
pub open spec fn list_tree<T: Shape>(list: Option<Seq<<T as DeepView>::V>>) -> Option<JsonTree> {
    match list {
        Some(s) => Some(JsonTree::Array(s.map_values(|x: <T as DeepView>::V| T::tree_of(x)))),
        None => None,
    }
}

/// The tree written for an author.
pub open spec fn author_tree(a: AuthorView) -> JsonTree {
    let m = Map::<Seq<char>, JsonTree>::empty();
    let m = put(m, "name"@, text_tree(a.name));
    let m = put(m, "url"@, text_tree(a.url));
    let m = put(m, "avatar"@, text_tree(a.avatar));
    JsonTree::Object(m)
}

/// The tree written for a hub.
pub open spec fn hub_tree(h: HubView) -> JsonTree {
    let m = Map::<Seq<char>, JsonTree>::empty();
    let m = put(m, "type"@, Some(JsonTree::Text(h.type_)));
    let m = put(m, "url"@, Some(JsonTree::Text(h.url)));
    JsonTree::Object(m)
}

/// The tree written for an attachment.
pub open spec fn attachment_tree(a: AttachmentView) -> JsonTree {
    let m = Map::<Seq<char>, JsonTree>::empty();
    let m = put(m, "url"@, Some(JsonTree::Text(a.url)));
    let m = put(m, "mime_type"@, Some(JsonTree::Text(a.mime_type)));
    let m = put(m, "title"@, text_tree(a.title));
    let m = put(m, "size_in_bytes"@, count_tree(a.size_in_bytes));
    let m = put(m, "duration_in_seconds"@, count_tree(a.duration_in_seconds));
    JsonTree::Object(m)
}

/// The tree written for an item. Its single `author` is not written.
pub open spec fn item_tree(i: ItemView) -> JsonTree {
    let m = Map::<Seq<char>, JsonTree>::empty();
    let m = put(m, "id"@, Some(JsonTree::Text(i.id)));
    let m = put(m, "url"@, text_tree(i.url));
    let m = put(m, "external_url"@, text_tree(i.external_url));
    let m = put(m, "title"@, text_tree(i.title));
    let m = put(m, "content_html"@, text_tree(i.content_html));
    let m = put(m, "content_text"@, text_tree(i.content_text));
    let m = put(m, "summary"@, text_tree(i.summary));
    let m = put(m, "image"@, text_tree(i.image));
    let m = put(m, "banner_image"@, text_tree(i.banner_image));
    let m = put(m, "date_published"@, text_tree(i.date_published));
    let m = put(m, "date_modified"@, text_tree(i.date_modified));
    let m = put(m, "authors"@, list_tree::<Author>(i.authors));
    let m = put(m, "tags"@, texts_tree(i.tags));
    let m = put(m, "language"@, text_tree(i.language));
    let m = put(m, "attachments"@, list_tree::<Attachment>(i.attachments));
    JsonTree::Object(m)
}

/// The tree written for a feed. Its single `author` is not written, nor
/// that of any item.
pub open spec fn feed_tree(f: FeedView) -> JsonTree {
    let m = Map::<Seq<char>, JsonTree>::empty();
    let m = put(m, "version"@, Some(JsonTree::Text(f.version)));
    let m = put(m, "title"@, Some(JsonTree::Text(f.title)));
    let m = put(m, "home_page_url"@, text_tree(f.home_page_url));
    let m = put(m, "feed_url"@, text_tree(f.feed_url));
    let m = put(m, "description"@, text_tree(f.description));
    let m = put(m, "user_comment"@, text_tree(f.user_comment));
    let m = put(m, "next_url"@, text_tree(f.next_url));
    let m = put(m, "icon"@, text_tree(f.icon));
    let m = put(m, "favicon"@, text_tree(f.favicon));
    let m = put(m, "authors"@, list_tree::<Author>(f.authors));
    let m = put(m, "language"@, text_tree(f.language));
    let m = put(m, "expired"@, flag_tree(f.expired));
    let m = put(m, "hubs"@, list_tree::<Hub>(f.hubs));
    let m = put(m, "items"@, list_tree::<Item>(f.items));
    JsonTree::Object(m)
}

impl Shape for Author {
    open spec fn of_tree(t: JsonTree) -> Result<AuthorView, SchemaFault> {
        author_of_tree(t)
    }

    open spec fn tree_of(view: AuthorView) -> JsonTree {
        author_tree(view)
    }
}

impl Shape for Hub {
    open spec fn of_tree(t: JsonTree) -> Result<HubView, SchemaFault> {
        hub_of_tree(t)
    }

    open spec fn tree_of(view: HubView) -> JsonTree {
        hub_tree(view)
    }
}

impl Shape for Attachment {
    open spec fn of_tree(t: JsonTree) -> Result<AttachmentView, SchemaFault> {
        attachment_of_tree(t)
    }

    open spec fn tree_of(view: AttachmentView) -> JsonTree {
        attachment_tree(view)
    }
}

impl Shape for Item {
    open spec fn of_tree(t: JsonTree) -> Result<ItemView, SchemaFault> {
        item_of_tree(t)
    }

    open spec fn tree_of(view: ItemView) -> JsonTree {
        item_tree(view)
    }
}

impl Shape for Feed {
    open spec fn of_tree(t: JsonTree) -> Result<FeedView, SchemaFault> {
        feed_of_tree(t)
    }

    open spec fn tree_of(view: FeedView) -> JsonTree {
        feed_tree(view)
    }
}

/// What a reader returned, in views.
pub open spec fn outcome<T: DeepView>(r: Result<T, SchemaError>) -> Result<T::V, SchemaFault> {
    match r {
        Ok(x) => Ok(x.deep_view()),
        Err(e) => Err(e@),
    }
}

/// Where every reading before `i` went well and the one at `i` did not, the
/// fault at `i` is the first.
pub proof fn lemma_first_fault_at<T>(reads: Seq<Result<T, SchemaFault>>, i: int)
    requires
        0 <= i < reads.len(),
        reads[i] is Err,
        forall|k: int| 0 <= k < i ==> (#[trigger] reads[k]) is Ok,
    ensures
        first_fault(reads) == Some(reads[i]->Err_0),
    decreases reads.len(),
{
    if i == reads.len() - 1 {
        lemma_no_fault(reads.drop_last());
    } else {
        lemma_first_fault_at(reads.drop_last(), i);
    }
}

/// Where every reading went well there is no fault, and the other way round.
pub proof fn lemma_no_fault<T>(reads: Seq<Result<T, SchemaFault>>)
    ensures
        first_fault(reads).is_none() <==> forall|k: int| 0 <= k < reads.len() ==> (#[trigger] reads[k]) is Ok,
    decreases reads.len(),
{
    if reads.len() > 0 {
        lemma_no_fault(reads.drop_last());
        if first_fault(reads).is_none() {
            assert forall|k: int| 0 <= k < reads.len() implies (#[trigger] reads[k]) is Ok by {
                if k < reads.len() - 1 {
                    assert(reads.drop_last()[k] is Ok);
                }
            }
        } else {
            if forall|k: int| 0 <= k < reads.len() ==> (#[trigger] reads[k]) is Ok {
                assert forall|k: int| 0 <= k < reads.drop_last().len() implies (#[trigger] reads.drop_last()[k]) is Ok by {
                    assert(reads[k] is Ok);
                }
                assert(reads.last() is Ok);
            }
        }
    }
}

/// What `put` does to each member.
pub broadcast proof fn lemma_put_member(m: Map<Seq<char>, JsonTree>, key: Seq<char>, value: Option<JsonTree>, k: Seq<char>)
    ensures
        #[trigger] member(JsonTree::Object(put(m, key, value)), k) == (if k == key && value is Some {
            value
        } else {
            member(JsonTree::Object(m), k)
        }),
{
    reveal(put);
}

/// The names of the schema's members, told apart by their length and by
/// the characters in three places.
pub proof fn lemma_member_names()
    ensures
        "name"@.len() == 4 && "name"@[0] == 'n' && "name"@[1] == 'a',
        "url"@.len() == 3 && "url"@[0] == 'u' && "url"@[1] == 'r',
        "avatar"@.len() == 6 && "avatar"@[0] == 'a' && "avatar"@[1] == 'v',
        "type"@.len() == 4 && "type"@[0] == 't' && "type"@[1] == 'y',
        "mime_type"@.len() == 9 && "mime_type"@[0] == 'm' && "mime_type"@[1] == 'i' && "mime_type"@[8] == 'e',
        "title"@.len() == 5 && "title"@[0] == 't' && "title"@[1] == 'i',
        "size_in_bytes"@.len() == 13 && "size_in_bytes"@[0] == 's' && "size_in_bytes"@[1] == 'i' && "size_in_bytes"@[8] == 'b',
        "duration_in_seconds"@.len() == 19 && "duration_in_seconds"@[0] == 'd' && "duration_in_seconds"@[1] == 'u' && "duration_in_seconds"@[8] == '_',
        "id"@.len() == 2 && "id"@[0] == 'i' && "id"@[1] == 'd',
        "external_url"@.len() == 12 && "external_url"@[0] == 'e' && "external_url"@[1] == 'x' && "external_url"@[8] == '_',
        "content_html"@.len() == 12 && "content_html"@[0] == 'c' && "content_html"@[1] == 'o' && "content_html"@[8] == 'h',
        "content_text"@.len() == 12 && "content_text"@[0] == 'c' && "content_text"@[1] == 'o' && "content_text"@[8] == 't',
        "summary"@.len() == 7 && "summary"@[0] == 's' && "summary"@[1] == 'u',
        "image"@.len() == 5 && "image"@[0] == 'i' && "image"@[1] == 'm',
        "banner_image"@.len() == 12 && "banner_image"@[0] == 'b' && "banner_image"@[1] == 'a' && "banner_image"@[8] == 'm',
        "date_published"@.len() == 14 && "date_published"@[0] == 'd' && "date_published"@[1] == 'a' && "date_published"@[8] == 'l',
        "date_modified"@.len() == 13 && "date_modified"@[0] == 'd' && "date_modified"@[1] == 'a' && "date_modified"@[8] == 'i',
        "authors"@.len() == 7 && "authors"@[0] == 'a' && "authors"@[1] == 'u',
        "author"@.len() == 6 && "author"@[0] == 'a' && "author"@[1] == 'u',
        "tags"@.len() == 4 && "tags"@[0] == 't' && "tags"@[1] == 'a',
        "language"@.len() == 8 && "language"@[0] == 'l' && "language"@[1] == 'a',
        "attachments"@.len() == 11 && "attachments"@[0] == 'a' && "attachments"@[1] == 't' && "attachments"@[8] == 'n',
        "version"@.len() == 7 && "version"@[0] == 'v' && "version"@[1] == 'e',
        "home_page_url"@.len() == 13 && "home_page_url"@[0] == 'h' && "home_page_url"@[1] == 'o' && "home_page_url"@[8] == 'e',
        "feed_url"@.len() == 8 && "feed_url"@[0] == 'f' && "feed_url"@[1] == 'e',
        "description"@.len() == 11 && "description"@[0] == 'd' && "description"@[1] == 'e' && "description"@[8] == 'i',
        "user_comment"@.len() == 12 && "user_comment"@[0] == 'u' && "user_comment"@[1] == 's' && "user_comment"@[8] == 'm',
        "next_url"@.len() == 8 && "next_url"@[0] == 'n' && "next_url"@[1] == 'e',
        "icon"@.len() == 4 && "icon"@[0] == 'i' && "icon"@[1] == 'c',
        "favicon"@.len() == 7 && "favicon"@[0] == 'f' && "favicon"@[1] == 'a',
        "expired"@.len() == 7 && "expired"@[0] == 'e' && "expired"@[1] == 'x',
        "hubs"@.len() == 4 && "hubs"@[0] == 'h' && "hubs"@[1] == 'u',
        "items"@.len() == 5 && "items"@[0] == 'i' && "items"@[1] == 't',
{
    reveal_strlit("name");
    reveal_strlit("url");
    reveal_strlit("avatar");
    reveal_strlit("type");
    reveal_strlit("mime_type");
    reveal_strlit("title");
    reveal_strlit("size_in_bytes");
    reveal_strlit("duration_in_seconds");
    reveal_strlit("id");
    reveal_strlit("external_url");
    reveal_strlit("content_html");
    reveal_strlit("content_text");
    reveal_strlit("summary");
    reveal_strlit("image");
    reveal_strlit("banner_image");
    reveal_strlit("date_published");
    reveal_strlit("date_modified");
    reveal_strlit("authors");
    reveal_strlit("author");
    reveal_strlit("tags");
    reveal_strlit("language");
    reveal_strlit("attachments");
    reveal_strlit("version");
    reveal_strlit("home_page_url");
    reveal_strlit("feed_url");
    reveal_strlit("description");
    reveal_strlit("user_comment");
    reveal_strlit("next_url");
    reveal_strlit("icon");
    reveal_strlit("favicon");
    reveal_strlit("expired");
    reveal_strlit("hubs");
    reveal_strlit("items");
}

} // verus!
