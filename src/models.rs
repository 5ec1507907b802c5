//! Rule records: the stored form with its id, and the new form written on
//! insertion.
use crate::document::{
    access_error, doc_get_object_id, doc_get_str, doc_insert, doc_keys, doc_model, id_at,
    new_document, text_at, BsonModel, DocModel, Value,
};
use mongodb::bson::document::ValueAccessError;
use mongodb::bson::oid::ObjectId;
use mongodb::bson::Document;
use vstd::prelude::*;

verus! {

/// The document of a rule whose type and six arguments are `f`
/// (`f[0]` the type, `f[1]` to `f[6]` the arguments `v0` to `v5`).
pub open spec fn rule_model(f: Seq<Seq<char>>) -> DocModel {
    DocModel::empty()
        .insert("ptype"@, BsonModel::Text(f[0]))
        .insert("v0"@, BsonModel::Text(f[1]))
        .insert("v1"@, BsonModel::Text(f[2]))
        .insert("v2"@, BsonModel::Text(f[3]))
        .insert("v3"@, BsonModel::Text(f[4]))
        .insert("v4"@, BsonModel::Text(f[5]))
        .insert("v5"@, BsonModel::Text(f[6]))
}

/// The keys of a stored rule are pairwise distinct.
pub proof fn lemma_rule_keys_distinct()
    ensures
        "_id"@ != "ptype"@,
        "_id"@ != "v0"@,
        "_id"@ != "v1"@,
        "_id"@ != "v2"@,
        "_id"@ != "v3"@,
        "_id"@ != "v4"@,
        "_id"@ != "v5"@,
        "ptype"@ != "v0"@,
        "ptype"@ != "v1"@,
        "ptype"@ != "v2"@,
        "ptype"@ != "v3"@,
        "ptype"@ != "v4"@,
        "ptype"@ != "v5"@,
        "v0"@ != "v1"@,
        "v0"@ != "v2"@,
        "v0"@ != "v3"@,
        "v0"@ != "v4"@,
        "v0"@ != "v5"@,
        "v1"@ != "v2"@,
        "v1"@ != "v3"@,
        "v1"@ != "v4"@,
        "v1"@ != "v5"@,
        "v2"@ != "v3"@,
        "v2"@ != "v4"@,
        "v2"@ != "v5"@,
        "v3"@ != "v4"@,
        "v3"@ != "v5"@,
        "v4"@ != "v5"@,
{
    reveal_strlit("_id");
    reveal_strlit("ptype");
    reveal_strlit("v0");
    reveal_strlit("v1");
    reveal_strlit("v2");
    reveal_strlit("v3");
    reveal_strlit("v4");
    reveal_strlit("v5");
    assert("_id"@.len() != "ptype"@.len());
    assert("_id"@.len() != "v0"@.len());
    assert("_id"@.len() != "v1"@.len());
    assert("_id"@.len() != "v2"@.len());
    assert("_id"@.len() != "v3"@.len());
    assert("_id"@.len() != "v4"@.len());
    assert("_id"@.len() != "v5"@.len());
    assert("ptype"@.len() != "v0"@.len());
    assert("ptype"@.len() != "v1"@.len());
    assert("ptype"@.len() != "v2"@.len());
    assert("ptype"@.len() != "v3"@.len());
    assert("ptype"@.len() != "v4"@.len());
    assert("ptype"@.len() != "v5"@.len());
    assert("v0"@[1] != "v1"@[1]);
    assert("v0"@[1] != "v2"@[1]);
    assert("v0"@[1] != "v3"@[1]);
    assert("v0"@[1] != "v4"@[1]);
    assert("v0"@[1] != "v5"@[1]);
    assert("v1"@[1] != "v2"@[1]);
    assert("v1"@[1] != "v3"@[1]);
    assert("v1"@[1] != "v4"@[1]);
    assert("v1"@[1] != "v5"@[1]);
    assert("v2"@[1] != "v3"@[1]);
    assert("v2"@[1] != "v4"@[1]);
    assert("v2"@[1] != "v5"@[1]);
    assert("v3"@[1] != "v4"@[1]);
    assert("v3"@[1] != "v5"@[1]);
    assert("v4"@[1] != "v5"@[1]);
}

/// The keys of a rule document, in order: the type, then `v0` to `v5`.
pub open spec fn rule_keys() -> Seq<Seq<char>> {
    seq!["ptype"@, "v0"@, "v1"@, "v2"@, "v3"@, "v4"@, "v5"@]
}

/// The error of decoding a stored document that is not a rule: that of the
/// first key, in the order `_id`, `ptype`, `v0` to `v5`, whose entry is
/// missing or of another kind.
pub open spec fn decode_error(m: DocModel) -> ValueAccessError {
    if id_at(m, "_id"@) is None {
        access_error(m, "_id"@)
    } else if text_at(m, "ptype"@) is None {
        access_error(m, "ptype"@)
    } else if text_at(m, "v0"@) is None {
        access_error(m, "v0"@)
    } else if text_at(m, "v1"@) is None {
        access_error(m, "v1"@)
    } else if text_at(m, "v2"@) is None {
        access_error(m, "v2"@)
    } else if text_at(m, "v3"@) is None {
        access_error(m, "v3"@)
    } else if text_at(m, "v4"@) is None {
        access_error(m, "v4"@)
    } else {
        access_error(m, "v5"@)
    }
}

/// The id and the seven text fields that a stored document decodes to, if
/// every one of them is there with the right kind.
pub open spec fn decode(m: DocModel) -> Option<(ObjectId, Seq<Seq<char>>)> {
    if id_at(m, "_id"@) is Some
        && text_at(m, "ptype"@) is Some
        && text_at(m, "v0"@) is Some
        && text_at(m, "v1"@) is Some
        && text_at(m, "v2"@) is Some
        && text_at(m, "v3"@) is Some
        && text_at(m, "v4"@) is Some
        && text_at(m, "v5"@) is Some
    {
        Some((
            id_at(m, "_id"@)->0,
            seq![
                text_at(m, "ptype"@)->0,
                text_at(m, "v0"@)->0,
                text_at(m, "v1"@)->0,
                text_at(m, "v2"@)->0,
                text_at(m, "v3"@)->0,
                text_at(m, "v4"@)->0,
                text_at(m, "v5"@)->0,
            ],
        ))
    } else {
        None
    }
}

/// A rule as it is stored, with the id that the store gave it.
#[derive(Debug)]
pub struct CasbinRule {
    pub id: ObjectId,
    pub ptype: String,
    pub v0: String,
    pub v1: String,
    pub v2: String,
    pub v3: String,
    pub v4: String,
    pub v5: String,
}

impl CasbinRule {
    /// The type followed by the six arguments.
    pub open spec fn fields(&self) -> Seq<Seq<char>> {
        seq![self.ptype@, self.v0@, self.v1@, self.v2@, self.v3@, self.v4@, self.v5@]
    }

    /// Reads a stored rule; fails when the id or one of the seven text
    /// fields is missing (`NotPresent`) or of another kind
    /// (`UnexpectedType`), with the error of the first such key.
    pub fn from_document(document: &Document) -> (r: Result<Self, ValueAccessError>)
        ensures
            r is Ok <==> decode(doc_model(*document)) is Some,
            r matches Ok(rule) ==> decode(doc_model(*document)) == Some((rule.id, rule.fields())),
            r matches Err(e) ==> e == decode_error(doc_model(*document)),
    {
        let id = match doc_get_object_id(document, "_id") {
            Ok(id) => id,
            Err(e) => return Err(e),
        };
        let ptype = match doc_get_str(document, "ptype") {
            Ok(s) => s,
            Err(e) => return Err(e),
        };
        let v0 = match doc_get_str(document, "v0") {
            Ok(s) => s,
            Err(e) => return Err(e),
        };
        let v1 = match doc_get_str(document, "v1") {
            Ok(s) => s,
            Err(e) => return Err(e),
        };
        let v2 = match doc_get_str(document, "v2") {
            Ok(s) => s,
            Err(e) => return Err(e),
        };
        let v3 = match doc_get_str(document, "v3") {
            Ok(s) => s,
            Err(e) => return Err(e),
        };
        let v4 = match doc_get_str(document, "v4") {
            Ok(s) => s,
            Err(e) => return Err(e),
        };
        let v5 = match doc_get_str(document, "v5") {
            Ok(s) => s,
            Err(e) => return Err(e),
        };
        let rule = CasbinRule { id, ptype, v0, v1, v2, v3, v4, v5 };
        let ghost decoded = decode(doc_model(*document))->0;
        assert(rule.fields() =~= decoded.1);
        Ok(rule)
    }
}

/// A rule that is about to be written; the store gives it its id.
#[derive(Debug, Clone)]
pub struct NewCasbinRule {
    pub ptype: String,
    pub v0: String,
    pub v1: String,
    pub v2: String,
    pub v3: String,
    pub v4: String,
    pub v5: String,
}

impl NewCasbinRule {
    /// The type followed by the six arguments.
    pub open spec fn fields(&self) -> Seq<Seq<char>> {
        seq![self.ptype@, self.v0@, self.v1@, self.v2@, self.v3@, self.v4@, self.v5@]
    }

    /// The document that stores this rule: its type and its six arguments,
    /// each under its own key, in the order `ptype`, `v0` to `v5`.
    pub fn into_document(&self) -> (r: Document)
        ensures
            doc_model(r) == rule_model(self.fields()),
            doc_keys(r) == rule_keys(),
    {
        proof {
            lemma_rule_keys_distinct();
        }
        let mut document = new_document();
        doc_insert(&mut document, "ptype", Value::Text(self.ptype.clone()));
        doc_insert(&mut document, "v0", Value::Text(self.v0.clone()));
        doc_insert(&mut document, "v1", Value::Text(self.v1.clone()));
        doc_insert(&mut document, "v2", Value::Text(self.v2.clone()));
        doc_insert(&mut document, "v3", Value::Text(self.v3.clone()));
        doc_insert(&mut document, "v4", Value::Text(self.v4.clone()));
        doc_insert(&mut document, "v5", Value::Text(self.v5.clone()));
        assert(doc_keys(document) =~= rule_keys());
        document
    }
}

} // verus!
