//! Reading a feed from JSON text and writing it back.

use vstd::prelude::*;
use serde_json::Value;
use crate::decode::Decode;
use crate::encode::Encode;
use crate::error::{SchemaError, SchemaFault, StructuralError};
use crate::json::{document_tree, read_value, tree_text, value_tree, write_value};
use crate::model::{Feed, FeedView};
use crate::schema::{feed_of_tree, feed_tree, outcome};
use crate::tree::JsonTree;

verus! {

/// The feed that a JSON document is read as: the feed that the tree stands
/// for, with every single `author` folded into its `authors`.
pub open spec fn feed_of_document(t: JsonTree) -> Result<FeedView, SchemaFault> {
    match feed_of_tree(t) {
        Ok(f) => Ok(f.normalized()),
        Err(e) => Err(e),
    }
}

impl Feed {
    /// Reads a feed out of a parsed JSON document.
    pub fn from_value(v: &Value) -> (r: Result<Feed, SchemaError>)
        ensures
            outcome(r) == feed_of_document(value_tree(*v)),
            (r matches Ok(feed) ==> feed@.is_normal()),
    {
        let mut feed = Feed::decode(v)?;
        feed.normalize();
        Ok(feed)
    }

    /// The JSON document that is written for the feed.
    pub fn to_value(&self) -> (v: Value)
        ensures
            value_tree(v) == feed_tree(self@),
    {
        self.encode()
    }

    /// Reads a feed from JSON text. The text must be a JSON document, and
    /// the document a feed; the feed comes back with every single `author`
    /// folded into its `authors`.
    pub fn parse(data: &str) -> (r: Result<Feed, StructuralError>)
        ensures
            match document_tree(data@) {
                None => r matches Err(StructuralError::Json(_)),
                Some(t) => match feed_of_document(t) {
                    Ok(f) => r matches Ok(feed) && feed@ == f && feed@.is_normal(),
                    Err(e) => r matches Err(StructuralError::Schema(x)) && x@ == e,
                },
            },
    {
        match read_value(data) {
            Ok(v) => match Feed::from_value(&v) {
                Ok(feed) => Ok(feed),
                Err(e) => Err(StructuralError::Schema(e)),
            },
            Err(e) => Err(StructuralError::Json(e)),
        }
    }

    /// Writes the feed as JSON text. Writing succeeds for every feed, and
    /// the text is that of the feed's document.
    pub fn to_string(&self) -> (r: Result<String, StructuralError>)
        ensures
            r is Ok,
            (r matches Ok(s) ==> s@ == tree_text(feed_tree(self@))),
    {
        let v = self.to_value();
        match write_value(&v) {
            Ok(s) => Ok(s),
            Err(e) => Err(StructuralError::Json(e)),
        }
    }
}

} // verus!
