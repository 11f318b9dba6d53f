use crate::entity::book_id::BookId;
use mongodb::bson::oid::ObjectId;
use mongodb::bson::{Bson, DateTime, Document};
use vstd::prelude::*;

verus! {

/// The mathematical content of one value in a document.
pub ghost enum Field {
    Text(Seq<char>),
    Int32(i32),
    Int64(i64),
    Flag(bool),
    /// A moment, in milliseconds since the Unix epoch.
    Instant(i64),
    /// The key of a stored document.
    Key(Seq<u8>),
    /// A document held as a value.
    Nested(Map<Seq<char>, Field>),
}

/// The entries of a document, each name with the content of its value.
pub type Fields = Map<Seq<char>, Field>;

/// One value on its way into a document.
#[derive(Debug, PartialEq)]
pub enum FieldValue {
    Text(String),
    Int32(i32),
    Int64(i64),
    Flag(bool),
    /// A moment, in milliseconds since the Unix epoch.
    Instant(i64),
    Key(BookId),
    Nested(Document),
}

#[verifier::external_type_specification]
#[verifier::external_body]
pub struct ExDocument(Document);

/// The entries of a document: each of its names with the content of the value
/// held under it. Of a value that is none of the kinds of [`Field`] nothing is
/// said.
pub uninterp spec fn document_fields(document: Document) -> Map<Seq<char>, Field>;

/// The entries of a document that holds nothing.
pub open spec fn no_fields() -> Fields {
    Map::empty()
}

impl View for FieldValue {
    type V = Field;

    open spec fn view(&self) -> Field {
        match self {
            FieldValue::Text(text) => Field::Text(text@),
            FieldValue::Int32(number) => Field::Int32(*number),
            FieldValue::Int64(number) => Field::Int64(*number),
            FieldValue::Flag(flag) => Field::Flag(*flag),
            FieldValue::Instant(millis) => Field::Instant(*millis),
            FieldValue::Key(id) => Field::Key(id@),
            FieldValue::Nested(document) => Field::Nested(document_fields(*document)),
        }
    }
}

/// Calls `Document::new`, which makes a document without entries.
#[verifier::external_body]
pub(crate) fn empty_document() -> (fresh: Document)
    ensures
        document_fields(fresh) == no_fields(),
{
    Document::new()
}

/// Calls `Document::insert`, which puts `value` under `name` and, where the
/// name was there already, replaces what it held. The value goes in as the
/// kind of the outside crate that its variant names: a moment as a date of so
/// many milliseconds, a key as an object identifier of those bytes.
#[verifier::external_body]
pub(crate) fn insert_field(document: &mut Document, name: &str, value: FieldValue)
    ensures
        document_fields(*final(document)) == document_fields(*old(document)).insert(name@, value@),
{
    let bson = match value {
        FieldValue::Text(text) => Bson::String(text),
        FieldValue::Int32(number) => Bson::Int32(number),
        FieldValue::Int64(number) => Bson::Int64(number),
        FieldValue::Flag(flag) => Bson::Boolean(flag),
        FieldValue::Instant(millis) => Bson::DateTime(DateTime::from_millis(millis)),
        FieldValue::Key(id) => Bson::ObjectId(ObjectId::from_bytes(id.bytes)),
        FieldValue::Nested(inner) => Bson::Document(inner),
    };
    document.insert(name, bson);
}

} // verus!
