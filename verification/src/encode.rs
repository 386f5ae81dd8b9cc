//! Building the `serde_json::Value` that is written for a record.

use vstd::prelude::*;
use serde_json::Value;
use crate::json::{
    array_value, count_value, flag_value, insert_member, map_members, new_members, object_value,
    text_value, value_tree, Members,
};
use crate::model::{Attachment, Author, Feed, Hub, Item};
use crate::schema::{count_tree, flag_tree, list_tree, put, text_tree, texts_tree, Shape};
use crate::tree::JsonTree;

verus! {

/// A type whose values can be written as a `serde_json::Value`.
pub(crate) trait Encode: Shape {
    /// Builds the value that holds the record's tree.
    fn encode(&self) -> (v: Value)
        ensures
            value_tree(v) == Self::tree_of(self.deep_view()),
    ;
}

fn put_required_text(members: &mut Members, key: &str, text: &String)
    ensures
        map_members(*final(members)) == put(map_members(*old(members)), key@, Some(JsonTree::Text(text@))),
{
    reveal(put);
    insert_member(members, key.to_owned(), text_value(text.clone()));
}

fn put_text(members: &mut Members, key: &str, text: &Option<String>)
    ensures
        map_members(*final(members)) == put(map_members(*old(members)), key@, text_tree(text.deep_view())),
{
    reveal(put);
    match text {
        Some(s) => {
            insert_member(members, key.to_owned(), text_value(s.clone()));
        },
        None => {},
    }
}

fn put_count(members: &mut Members, key: &str, count: &Option<u64>)
    ensures
        map_members(*final(members)) == put(map_members(*old(members)), key@, count_tree(*count)),
{
    reveal(put);
    match count {
        Some(n) => {
            insert_member(members, key.to_owned(), count_value(*n));
        },
        None => {},
    }
}

fn put_flag(members: &mut Members, key: &str, flag: &Option<bool>)
    ensures
        map_members(*final(members)) == put(map_members(*old(members)), key@, flag_tree(*flag)),
{
    reveal(put);
    match flag {
        Some(b) => {
            insert_member(members, key.to_owned(), flag_value(*b));
        },
        None => {},
    }
}

fn put_texts(members: &mut Members, key: &str, texts: &Option<Vec<String>>)
    ensures
        map_members(*final(members)) == put(map_members(*old(members)), key@, texts_tree(texts.deep_view())),
{
    reveal(put);
    match texts {
        Some(list) => {
            let mut out: Vec<Value> = Vec::new();
            let mut i: usize = 0;
            while i < list.len()
                invariant
                    i <= list.len(),
                    out@.len() == i,
                    forall|k: int| 0 <= k < i ==> value_tree(#[trigger] out@[k]) == JsonTree::Text(list@[k]@),
                decreases list.len() - i,
            {
                out.push(text_value(list[i].clone()));
                i += 1;
            }
            assert(out@.map_values(|x: Value| value_tree(x)) =~= list.deep_view().map_values(
                |x: Seq<char>| JsonTree::Text(x),
            ));
            insert_member(members, key.to_owned(), array_value(out));
        },
        None => {},
    }
}

fn put_list<T: Encode>(members: &mut Members, key: &str, list: &Option<Vec<T>>)
    ensures
        map_members(*final(members)) == put(map_members(*old(members)), key@, list_tree::<T>(list.deep_view())),
{
    reveal(put);
    match list {
        Some(records) => {
            let mut out: Vec<Value> = Vec::new();
            let mut i: usize = 0;
            while i < records.len()
                invariant
                    i <= records.len(),
                    out@.len() == i,
                    forall|k: int| 0 <= k < i ==> value_tree(#[trigger] out@[k]) == T::tree_of(records@[k].deep_view()),
                decreases records.len() - i,
            {
                out.push(records[i].encode());
                i += 1;
            }
            assert(out@.map_values(|x: Value| value_tree(x)) =~= records.deep_view().map_values(
                |x: <T as DeepView>::V| T::tree_of(x),
            ));
            insert_member(members, key.to_owned(), array_value(out));
        },
        None => {},
    }
}

impl Encode for Author {
    fn encode(&self) -> (v: Value) {
        let mut m = new_members();
        put_text(&mut m, "name", &self.name);
        put_text(&mut m, "url", &self.url);
        put_text(&mut m, "avatar", &self.avatar);
        object_value(m)
    }
}

impl Encode for Hub {
    fn encode(&self) -> (v: Value) {
        let mut m = new_members();
        put_required_text(&mut m, "type", &self.type_);
        put_required_text(&mut m, "url", &self.url);
        object_value(m)
    }
}

impl Encode for Attachment {
    fn encode(&self) -> (v: Value) {
        let mut m = new_members();
        put_required_text(&mut m, "url", &self.url);
        put_required_text(&mut m, "mime_type", &self.mime_type);
        put_text(&mut m, "title", &self.title);
        put_count(&mut m, "size_in_bytes", &self.size_in_bytes);
        put_count(&mut m, "duration_in_seconds", &self.duration_in_seconds);
        object_value(m)
    }
}

impl Encode for Item {
    fn encode(&self) -> (v: Value) {
        let mut m = new_members();
        put_required_text(&mut m, "id", &self.id);
        put_text(&mut m, "url", &self.url);
        put_text(&mut m, "external_url", &self.external_url);
        put_text(&mut m, "title", &self.title);
        put_text(&mut m, "content_html", &self.content_html);
        put_text(&mut m, "content_text", &self.content_text);
        put_text(&mut m, "summary", &self.summary);
        put_text(&mut m, "image", &self.image);
        put_text(&mut m, "banner_image", &self.banner_image);
        put_text(&mut m, "date_published", &self.date_published);
        put_text(&mut m, "date_modified", &self.date_modified);
        put_list::<Author>(&mut m, "authors", &self.authors);
        put_texts(&mut m, "tags", &self.tags);
        put_text(&mut m, "language", &self.language);
        put_list::<Attachment>(&mut m, "attachments", &self.attachments);
        object_value(m)
    }
}

impl Encode for Feed {
    fn encode(&self) -> (v: Value) {
        let mut m = new_members();
        put_required_text(&mut m, "version", &self.version);
        put_required_text(&mut m, "title", &self.title);
        put_text(&mut m, "home_page_url", &self.home_page_url);
        put_text(&mut m, "feed_url", &self.feed_url);
        put_text(&mut m, "description", &self.description);
        put_text(&mut m, "user_comment", &self.user_comment);
        put_text(&mut m, "next_url", &self.next_url);
        put_text(&mut m, "icon", &self.icon);
        put_text(&mut m, "favicon", &self.favicon);
        put_list::<Author>(&mut m, "authors", &self.authors);
        put_text(&mut m, "language", &self.language);
        put_flag(&mut m, "expired", &self.expired);
        put_list::<Hub>(&mut m, "hubs", &self.hubs);
        put_list::<Item>(&mut m, "items", &self.items);
        object_value(m)
    }
}

} // verus!
