//! The store's record format: a BSON document, seen through a map from
//! keys to the values this library reads and writes.
use mongodb::bson::document::ValueAccessError;
use mongodb::bson::oid::ObjectId;
use mongodb::bson::{Bson, Document, Regex};
use vstd::prelude::*;

verus! {

#[verifier::external_type_specification]
#[verifier::external_body]
pub struct ExDocument(Document);

#[verifier::external_type_specification]
#[verifier::external_body]
pub struct ExObjectId(ObjectId);

#[verifier::external_type_specification]
pub struct ExValueAccessError(ValueAccessError);

/// What one entry of a document holds, as far as this library reads it.
pub ghost enum BsonModel {
    Text(Seq<char>),
    /// A regular expression: its pattern and its option letters.
    Pattern(Seq<char>, Seq<char>),
    Int32(i32),
    Bool(bool),
    Id(ObjectId),
    Doc(Document),
    Docs(Seq<Document>),
    /// Any other kind of BSON value.
    Other,
}

/// A document's entries, by key.
pub type DocModel = Map<Seq<char>, BsonModel>;

/// The entries of a document, by key.
pub uninterp spec fn doc_model(d: Document) -> DocModel;

/// The keys of a document, in the order in which the document lists them.
pub uninterp spec fn doc_keys(d: Document) -> Seq<Seq<char>>;

/// The error of reading `key` as a value of a kind that its entry is not:
/// the key is missing, or its value is of another kind.
pub open spec fn access_error(m: DocModel, key: Seq<char>) -> ValueAccessError {
    if m.contains_key(key) {
        ValueAccessError::UnexpectedType
    } else {
        ValueAccessError::NotPresent
    }
}

/// A value that the library writes into a document.
pub enum Value {
    Text(String),
    Pattern(String, String),
    Int32(i32),
    Bool(bool),
    Doc(Document),
    Docs(Vec<Document>),
}

pub open spec fn value_model(v: Value) -> BsonModel {
    match v {
        Value::Text(s) => BsonModel::Text(s@),
        Value::Pattern(p, o) => BsonModel::Pattern(p@, o@),
        Value::Int32(n) => BsonModel::Int32(n),
        Value::Bool(b) => BsonModel::Bool(b),
        Value::Doc(d) => BsonModel::Doc(d),
        Value::Docs(ds) => BsonModel::Docs(ds@),
    }
}

/// The text stored under `key`, if the entry is a string.
pub open spec fn text_at(m: DocModel, key: Seq<char>) -> Option<Seq<char>> {
    if m.contains_key(key) {
        match m[key] {
            BsonModel::Text(s) => Some(s),
            _ => None,
        }
    } else {
        None
    }
}

/// The object id stored under `key`, if the entry is one.
pub open spec fn id_at(m: DocModel, key: Seq<char>) -> Option<ObjectId> {
    if m.contains_key(key) {
        match m[key] {
            BsonModel::Id(id) => Some(id),
            _ => None,
        }
    } else {
        None
    }
}

/// Relies on bson's `Document::new`: a document without entries.
#[verifier::external_body]
pub(crate) fn new_document() -> (r: Document)
    ensures
        doc_model(r) == DocModel::empty(),
        doc_keys(r) == Seq::<Seq<char>>::empty(),
{
    Document::new()
}

/// Relies on bson's `Document::insert`, a `LinkedHashMap::insert`: the entry
/// under `key` becomes `v`, replacing any earlier one, the other entries
/// stay, and `key` becomes the last key (an earlier place of it is left).
#[verifier::external_body]
pub(crate) fn doc_insert(d: &mut Document, key: &str, v: Value)
    ensures
        doc_model(*final(d)) == doc_model(*old(d)).insert(key@, value_model(v)),
        doc_keys(*final(d)) == doc_keys(*old(d)).filter(|k: Seq<char>| k != key@).push(key@),
        !doc_keys(*old(d)).contains(key@) ==> doc_keys(*final(d)) == doc_keys(*old(d)).push(key@),
{
    let b: Bson = match v {
        Value::Text(s) => Bson::String(s),
        Value::Pattern(pattern, options) => Bson::RegularExpression(Regex { pattern, options }),
        Value::Int32(n) => Bson::Int32(n),
        Value::Bool(b) => Bson::Boolean(b),
        Value::Doc(inner) => Bson::Document(inner),
        Value::Docs(ds) => Bson::Array(ds.into_iter().map(Bson::Document).collect()),
    };
    d.insert(key, b);
}

/// Relies on bson's `Document::get_str`: `Ok` exactly when the entry under
/// `key` is a string, with that string; else `NotPresent` where the key is
/// missing and `UnexpectedType` where it holds another kind.
#[verifier::external_body]
pub(crate) fn doc_get_str(d: &Document, key: &str) -> (r: Result<String, ValueAccessError>)
    ensures
        r is Ok <==> text_at(doc_model(*d), key@) is Some,
        r matches Ok(s) ==> text_at(doc_model(*d), key@) == Some(s@),
        r matches Err(e) ==> e == access_error(doc_model(*d), key@),
{
    d.get_str(key).map(|s| s.to_owned())
}

/// Relies on bson's `Document::get_object_id`: `Ok` exactly when the entry
/// under `key` is an object id, with that id; else `NotPresent` where the
/// key is missing and `UnexpectedType` where it holds another kind.
#[verifier::external_body]
pub(crate) fn doc_get_object_id(d: &Document, key: &str) -> (r: Result<ObjectId, ValueAccessError>)
    ensures
        r is Ok <==> id_at(doc_model(*d), key@) is Some,
        r matches Ok(id) ==> id_at(doc_model(*d), key@) == Some(id),
        r matches Err(e) ==> e == access_error(doc_model(*d), key@),
{
    d.get_object_id(key).map(|id| id.clone())
}

} // verus!
