//! JSON Feed documents: the typed records of a feed, reading them from JSON
//! text, writing them back, and folding the older single `author` field into
//! the `authors` list while reading.

pub mod tree;
pub mod json;
pub mod error;
pub mod model;
pub mod normalize;
pub mod schema;
pub mod decode;
pub mod encode;
pub mod document;
pub mod laws;

pub use error::{RecordKind, SchemaError, StructuralError};
pub use model::{Attachment, Author, Feed, Hub, Item};
pub use normalize::cleanup_authors_impl;
