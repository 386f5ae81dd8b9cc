//! Why a text is not a feed.

use vstd::prelude::*;

verus! {

/// The records of the schema.
#[derive(Clone, Copy, Debug, PartialEq, Eq)]
pub enum RecordKind {
    Feed,
    Item,
    Author,
    Hub,
    Attachment,
}

/// View of a [`SchemaError`].
pub enum SchemaFault {
    NotAnObject { record: RecordKind },
    MissingField { record: RecordKind, field: Seq<char> },
    WrongType { record: RecordKind, field: Seq<char> },
}

/// A JSON value that does not have the shape of the record it stands for.
#[derive(Clone, Copy, Debug, PartialEq, Eq)]
pub enum SchemaError {
    /// The value that stands for the record is not an object.
    NotAnObject { record: RecordKind },
    /// A field that the record must have is not there, or is `null`.
    MissingField { record: RecordKind, field: &'static str },
    /// A field is there and its value is not of the field's type.
    WrongType { record: RecordKind, field: &'static str },
}

impl View for SchemaError {
    type V = SchemaFault;

    open spec fn view(&self) -> SchemaFault {
        match *self {
            SchemaError::NotAnObject { record } => SchemaFault::NotAnObject { record },
            SchemaError::MissingField { record, field } => SchemaFault::MissingField {
                record,
                field: field@,
            },
            SchemaError::WrongType { record, field } => SchemaFault::WrongType {
                record,
                field: field@,
            },
        }
    }
}

/// The one error of reading and writing a feed.
#[derive(Debug)]
pub enum StructuralError {
    /// The JSON layer refused: the text is no JSON document, or the document
    /// could not be written. The error is the JSON layer's own, untouched.
    Json(serde_json::Error),
    /// The text is a JSON document that is no feed.
    Schema(SchemaError),
}

} // verus!
