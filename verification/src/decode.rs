//! Reading the records of a feed out of a `serde_json::Value`.

use vstd::prelude::*;
use serde_json::Value;
use crate::error::{RecordKind, SchemaError, SchemaFault};
use crate::json::{get_member, value_tree};
use crate::model::{Attachment, Author, Feed, Hub, Item};
use crate::schema::{
    lemma_first_fault_at, lemma_no_fault, optional_count, optional_flag, optional_list,
    optional_record, optional_text, optional_texts, outcome, required_text, texts_of, Shape,
};
use crate::tree::{present, JsonTree};

verus! {

/// A type whose values can be read out of a `serde_json::Value`.
pub(crate) trait Decode: Shape {
    /// Reads the value as the tree says.
    fn decode(v: &Value) -> (r: Result<Self, SchemaError>)
        ensures
            outcome(r) == Self::of_tree(value_tree(*v)),
    ;
}

/// The member of that name where it is there and not `null`.
fn get_present<'a>(v: &'a Value, key: &str) -> (r: Option<&'a Value>)
    ensures
        match present(value_tree(*v), key@) {
            Some(t) => r matches Some(x) && value_tree(*x) == t,
            None => r.is_none(),
        },
{
    match get_member(v, key) {
        Some(x) => if x.is_null() {
            None
        } else {
            Some(x)
        },
        None => None,
    }
}

fn read_required_text(v: &Value, key: &'static str, record: RecordKind) -> (r: Result<String, SchemaError>)
    ensures
        outcome(r) == required_text(value_tree(*v), key@, record),
{
    match get_present(v, key) {
        None => Err(SchemaError::MissingField { record, field: key }),
        Some(x) => match x.as_str() {
            Some(s) => Ok(s.to_owned()),
            None => Err(SchemaError::WrongType { record, field: key }),
        },
    }
}

fn read_optional_text(v: &Value, key: &'static str, record: RecordKind) -> (r: Result<Option<String>, SchemaError>)
    ensures
        outcome(r) == optional_text(value_tree(*v), key@, record),
{
    match get_present(v, key) {
        None => Ok(None),
        Some(x) => match x.as_str() {
            Some(s) => Ok(Some(s.to_owned())),
            None => Err(SchemaError::WrongType { record, field: key }),
        },
    }
}

fn read_optional_count(v: &Value, key: &'static str, record: RecordKind) -> (r: Result<Option<u64>, SchemaError>)
    ensures
        outcome(r) == optional_count(value_tree(*v), key@, record),
{
    match get_present(v, key) {
        None => Ok(None),
        Some(x) => match x.as_u64() {
            Some(n) => Ok(Some(n)),
            None => Err(SchemaError::WrongType { record, field: key }),
        },
    }
}

fn read_optional_flag(v: &Value, key: &'static str, record: RecordKind) -> (r: Result<Option<bool>, SchemaError>)
    ensures
        outcome(r) == optional_flag(value_tree(*v), key@, record),
{
    match get_present(v, key) {
        None => Ok(None),
        Some(x) => match x.as_bool() {
            Some(b) => Ok(Some(b)),
            None => Err(SchemaError::WrongType { record, field: key }),
        },
    }
}

fn read_optional_texts(v: &Value, key: &'static str, record: RecordKind) -> (r: Result<Option<Vec<String>>, SchemaError>)
    ensures
        outcome(r) == optional_texts(value_tree(*v), key@, record),
{
    match get_present(v, key) {
        None => Ok(None),
        Some(x) => match x.as_array() {
            None => Err(SchemaError::WrongType { record, field: key }),
            Some(a) => {
                let ghost items = value_tree(*x)->Array_0;
                let mut out: Vec<String> = Vec::new();
                let mut i: usize = 0;
                while i < a.len()
                    invariant
                        i <= a.len(),
                        a@.len() == items.len(),
                        present(value_tree(*v), key@) == Some(JsonTree::Array(items)),
                        forall|k: int| 0 <= k < items.len() ==> value_tree(#[trigger] a@[k]) == items[k],
                        out@.len() == i,
                        forall|k: int| 0 <= k < i ==> (#[trigger] items[k]) == JsonTree::Text(out@[k]@),
                    decreases a.len() - i,
                {
                    match a[i].as_str() {
                        Some(s) => {
                            out.push(s.to_owned());
                        },
                        None => {
                            assert(!(items[i as int] is Text));
                            return Err(SchemaError::WrongType { record, field: key });
                        },
                    }
                    i += 1;
                }
                assert(out.deep_view() =~= texts_of(items));
                Ok(Some(out))
            },
        },
    }
}

fn read_optional_record<T: Decode>(v: &Value, key: &'static str) -> (r: Result<Option<T>, SchemaError>)
    ensures
        outcome(r) == optional_record::<T>(value_tree(*v), key@),
{
    match get_present(v, key) {
        None => Ok(None),
        Some(x) => match T::decode(x) {
            Ok(a) => Ok(Some(a)),
            Err(e) => Err(e),
        },
    }
}

fn read_optional_list<T: Decode>(v: &Value, key: &'static str, record: RecordKind) -> (r: Result<Option<Vec<T>>, SchemaError>)
    ensures
        outcome(r) == optional_list::<T>(value_tree(*v), key@, record),
{
    match get_present(v, key) {
        None => Ok(None),
        Some(x) => match x.as_array() {
            None => Err(SchemaError::WrongType { record, field: key }),
            Some(a) => {
                let ghost items = value_tree(*x)->Array_0;
                let ghost reads = items.map_values(|y: JsonTree| T::of_tree(y));
                let mut out: Vec<T> = Vec::new();
                let mut i: usize = 0;
                while i < a.len()
                    invariant
                        i <= a.len(),
                        a@.len() == items.len(),
                        present(value_tree(*v), key@) == Some(JsonTree::Array(items)),
                        reads == items.map_values(|y: JsonTree| T::of_tree(y)),
                        forall|k: int| 0 <= k < items.len() ==> value_tree(#[trigger] a@[k]) == items[k],
                        out@.len() == i,
                        forall|k: int| 0 <= k < i ==> (#[trigger] reads[k]) == Ok::<<T as DeepView>::V, SchemaFault>(out@[k].deep_view()),
                    decreases a.len() - i,
                {
                    match T::decode(&a[i]) {
                        Ok(item) => {
                            out.push(item);
                        },
                        Err(e) => {
                            proof {
                                lemma_first_fault_at(reads, i as int);
                            }
                            return Err(e);
                        },
                    }
                    i += 1;
                }
                proof {
                    lemma_no_fault(reads);
                    assert(out.deep_view() =~= reads.map_values(|r: Result<<T as DeepView>::V, SchemaFault>| r->Ok_0));
                }
                Ok(Some(out))
            },
        },
    }
}

impl Decode for Author {
    fn decode(v: &Value) -> (r: Result<Author, SchemaError>) {
        if !v.is_object() {
            return Err(SchemaError::NotAnObject { record: RecordKind::Author });
        }
        let name = read_optional_text(v, "name", RecordKind::Author)?;
        let url = read_optional_text(v, "url", RecordKind::Author)?;
        let avatar = read_optional_text(v, "avatar", RecordKind::Author)?;
        Ok(Author { name, url, avatar })
    }
}

impl Decode for Hub {
    fn decode(v: &Value) -> (r: Result<Hub, SchemaError>) {
        if !v.is_object() {
            return Err(SchemaError::NotAnObject { record: RecordKind::Hub });
        }
        let type_ = read_required_text(v, "type", RecordKind::Hub)?;
        let url = read_required_text(v, "url", RecordKind::Hub)?;
        Ok(Hub { type_, url })
    }
}

impl Decode for Attachment {
    fn decode(v: &Value) -> (r: Result<Attachment, SchemaError>) {
        if !v.is_object() {
            return Err(SchemaError::NotAnObject { record: RecordKind::Attachment });
        }
        let url = read_required_text(v, "url", RecordKind::Attachment)?;
        let mime_type = read_required_text(v, "mime_type", RecordKind::Attachment)?;
        let title = read_optional_text(v, "title", RecordKind::Attachment)?;
        let size_in_bytes = read_optional_count(v, "size_in_bytes", RecordKind::Attachment)?;
        let duration_in_seconds = read_optional_count(v, "duration_in_seconds", RecordKind::Attachment)?;
        Ok(Attachment { url, mime_type, title, size_in_bytes, duration_in_seconds })
    }
}

impl Decode for Item {
    fn decode(v: &Value) -> (r: Result<Item, SchemaError>) {
        if !v.is_object() {
            return Err(SchemaError::NotAnObject { record: RecordKind::Item });
        }
        let id = read_required_text(v, "id", RecordKind::Item)?;
        let url = read_optional_text(v, "url", RecordKind::Item)?;
        let external_url = read_optional_text(v, "external_url", RecordKind::Item)?;
        let title = read_optional_text(v, "title", RecordKind::Item)?;
        let content_html = read_optional_text(v, "content_html", RecordKind::Item)?;
        let content_text = read_optional_text(v, "content_text", RecordKind::Item)?;
        let summary = read_optional_text(v, "summary", RecordKind::Item)?;
        let image = read_optional_text(v, "image", RecordKind::Item)?;
        let banner_image = read_optional_text(v, "banner_image", RecordKind::Item)?;
        let date_published = read_optional_text(v, "date_published", RecordKind::Item)?;
        let date_modified = read_optional_text(v, "date_modified", RecordKind::Item)?;
        let authors = read_optional_list::<Author>(v, "authors", RecordKind::Item)?;
        let author = read_optional_record::<Author>(v, "author")?;
        let tags = read_optional_texts(v, "tags", RecordKind::Item)?;
        let language = read_optional_text(v, "language", RecordKind::Item)?;
        let attachments = read_optional_list::<Attachment>(v, "attachments", RecordKind::Item)?;
        Ok(
            Item {
                id,
                url,
                external_url,
                title,
                content_html,
                content_text,
                summary,
                image,
                banner_image,
                date_published,
                date_modified,
                authors,
                author,
                tags,
                language,
                attachments,
            },
        )
    }
}

impl Decode for Feed {
    fn decode(v: &Value) -> (r: Result<Feed, SchemaError>) {
        if !v.is_object() {
            return Err(SchemaError::NotAnObject { record: RecordKind::Feed });
        }
        let version = read_required_text(v, "version", RecordKind::Feed)?;
        let title = read_required_text(v, "title", RecordKind::Feed)?;
        let home_page_url = read_optional_text(v, "home_page_url", RecordKind::Feed)?;
        let feed_url = read_optional_text(v, "feed_url", RecordKind::Feed)?;
        let description = read_optional_text(v, "description", RecordKind::Feed)?;
        let user_comment = read_optional_text(v, "user_comment", RecordKind::Feed)?;
        let next_url = read_optional_text(v, "next_url", RecordKind::Feed)?;
        let icon = read_optional_text(v, "icon", RecordKind::Feed)?;
        let favicon = read_optional_text(v, "favicon", RecordKind::Feed)?;
        let authors = read_optional_list::<Author>(v, "authors", RecordKind::Feed)?;
        let author = read_optional_record::<Author>(v, "author")?;
        let language = read_optional_text(v, "language", RecordKind::Feed)?;
        let expired = read_optional_flag(v, "expired", RecordKind::Feed)?;
        let hubs = read_optional_list::<Hub>(v, "hubs", RecordKind::Feed)?;
        let items = read_optional_list::<Item>(v, "items", RecordKind::Feed)?;
        Ok(
            Feed {
                version,
                title,
                home_page_url,
                feed_url,
                description,
                user_comment,
                next_url,
                icon,
                favicon,
                authors,
                author,
                language,
                expired,
                hubs,
                items,
            },
        )
    }
}

} // verus!
