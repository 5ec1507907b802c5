//! The criteria sent to the store: rule normalisation, the pattern query of
//! a filtered load, the equality criteria of deletions, and the decoding of
//! what a load returns.
use crate::document::{doc_insert, doc_keys, doc_model, new_document, BsonModel, DocModel, Value};
use crate::models::{decode, lemma_rule_keys_distinct, rule_keys, rule_model, CasbinRule, NewCasbinRule};
use mongodb::bson::oid::ObjectId;
use mongodb::bson::Document;
use vstd::prelude::*;

verus! {

/// The number of argument fields of a stored rule.
pub const FIELD_COUNT: usize = 6;

/// The texts of a sequence of strings.
pub open spec fn texts(v: Seq<String>) -> Seq<Seq<char>> {
    v.map_values(|s: String| s@)
}

/// `rule` cut or padded with empty strings to the `6 - field_index` fields
/// from `v{field_index}` to `v5`.
pub open spec fn normalized(rule: Seq<Seq<char>>, field_index: int) -> Seq<Seq<char>> {
    Seq::new(
        (6 - field_index) as nat,
        |i: int|
            if i < rule.len() {
                rule[i]
            } else {
                Seq::<char>::empty()
            },
    )
}

/// The key of argument field `i`.
pub open spec fn field_key(i: int) -> Seq<char> {
    if i == 0 {
        "v0"@
    } else if i == 1 {
        "v1"@
    } else if i == 2 {
        "v2"@
    } else if i == 3 {
        "v3"@
    } else if i == 4 {
        "v4"@
    } else {
        "v5"@
    }
}

fn key_of(i: usize) -> (r: &'static str)
    requires
        i < FIELD_COUNT,
    ensures
        r@ == field_key(i as int),
{
    if i == 0 {
        "v0"
    } else if i == 1 {
        "v1"
    } else if i == 2 {
        "v2"
    } else if i == 3 {
        "v3"
    } else if i == 4 {
        "v4"
    } else {
        "v5"
    }
}

/// Fits `rule` to the fields from `v{field_index}` to `v5`: truncated when
/// longer, padded with empty strings when shorter.
pub fn normalize_casbin_rule(rule: Vec<String>, field_index: usize) -> (r: Vec<String>)
    requires
        field_index <= FIELD_COUNT,
    ensures
        r.len() == FIELD_COUNT - field_index,
        texts(r@) == normalized(texts(rule@), field_index as int),
{
    let mut rule = rule;
    let target: usize = FIELD_COUNT - field_index;
    let ghost given = texts(rule@);
    rule.truncate(target);
    assert forall|i: int| 0 <= i < rule.len() implies #[trigger] rule@[i]@ == normalized(
        given,
        field_index as int,
    )[i] by {
        assert(given[i] == rule@[i]@);
    }
    while rule.len() < target
        invariant
            rule.len() <= target,
            given.len() <= rule.len() || rule.len() == target,
            target == 6 - field_index,
            forall|i: int|
                0 <= i < rule.len() ==> #[trigger] rule@[i]@ == normalized(given, field_index as int)[i],
        decreases target - rule.len(),
    {
        let ghost before = rule@;
        rule.push(String::new());
        assert(rule@[before.len() as int]@ == normalized(given, field_index as int)[before.len() as int]);
        assert(forall|i: int| 0 <= i < before.len() ==> rule@[i] == before[i]);
    }
    assert(texts(rule@) =~= normalized(given, field_index as int));
    rule
}

/// What a filtered load asks for: a group of patterns for permission rules
/// (`p`) and one for grouping rules (`g`), position `i` of a group applying
/// to field `v{i}`. An empty pattern, or a position past the end of a group,
/// constrains nothing.
pub struct Filter {
    pub p: Vec<String>,
    pub g: Vec<String>,
}

/// The pattern that field `i` is matched against: the group's own at `i`
/// where it is given and not empty, else the pattern that matches anything.
pub open spec fn pattern_at(group: Seq<Seq<char>>, i: int) -> Seq<char> {
    if i < group.len() && group[i].len() > 0 {
        group[i]
    } else {
        ".*"@
    }
}

/// The six patterns for `v0` to `v5`.
pub open spec fn patterns(group: Seq<Seq<char>>) -> Seq<Seq<char>> {
    Seq::new(6, |i: int| pattern_at(group, i))
}

fn group_patterns(group: &Vec<String>) -> (r: Vec<String>)
    ensures
        r.len() == FIELD_COUNT,
        texts(r@) == patterns(texts(group@)),
{
    let mut r: Vec<String> = Vec::new();
    let empty = String::new();
    let mut i: usize = 0;
    while i < FIELD_COUNT
        invariant
            i <= FIELD_COUNT,
            r.len() == i,
            empty@ == Seq::<char>::empty(),
            forall|j: int| 0 <= j < i ==> #[trigger] r@[j]@ == pattern_at(texts(group@), j),
        decreases FIELD_COUNT - i,
    {
        if i < group.len() && group[i] != empty {
            assert(texts(group@)[i as int] == group@[i as int]@);
            assert(group@[i as int]@.len() > 0) by {
                if group@[i as int]@.len() == 0 {
                    assert(group@[i as int]@ =~= empty@);
                }
            }
            r.push(group[i].clone());
        } else {
            assert(i < group.len() ==> texts(group@)[i as int] == group@[i as int]@);
            r.push(".*".to_owned());
        }
        i = i + 1;
    }
    assert(texts(r@) =~= patterns(texts(group@)));
    r
}

/// The patterns of both groups, grouping rules first.
pub fn filtered_where_values(filter: &Filter) -> (r: (Vec<String>, Vec<String>))
    ensures
        r.0.len() == FIELD_COUNT,
        r.1.len() == FIELD_COUNT,
        texts(r.0@) == patterns(texts(filter.g@)),
        texts(r.1@) == patterns(texts(filter.p@)),
{
    (group_patterns(&filter.g), group_patterns(&filter.p))
}

/// The criteria of one rule family: the type matched against
/// `type_pattern` and `v0` to `v5` against `pats`, all without regard to
/// case.
pub open spec fn clause_model(type_pattern: Seq<char>, pats: Seq<Seq<char>>) -> DocModel {
    DocModel::empty()
        .insert("ptype"@, BsonModel::Pattern(type_pattern, "i"@))
        .insert("v0"@, BsonModel::Pattern(pats[0], "i"@))
        .insert("v1"@, BsonModel::Pattern(pats[1], "i"@))
        .insert("v2"@, BsonModel::Pattern(pats[2], "i"@))
        .insert("v3"@, BsonModel::Pattern(pats[3], "i"@))
        .insert("v4"@, BsonModel::Pattern(pats[4], "i"@))
        .insert("v5"@, BsonModel::Pattern(pats[5], "i"@))
}

/// The documents listed under `key`, if that entry is a list of them.
pub open spec fn docs_at(m: DocModel, key: Seq<char>) -> Seq<Document> {
    match m[key] {
        BsonModel::Docs(s) => s,
        _ => Seq::empty(),
    }
}

/// `m` holds only the alternative of two criteria, `a` and `b` in that order.
pub open spec fn is_either_of(m: DocModel, a: DocModel, b: DocModel) -> bool {
    let alts = docs_at(m, "$or"@);
    &&& m == DocModel::empty().insert("$or"@, BsonModel::Docs(alts))
    &&& alts.len() == 2
    &&& doc_model(alts[0]) == a
    &&& doc_model(alts[1]) == b
}

/// The criteria of grouping rules under `filter`.
pub open spec fn grouping_clause(filter: Filter) -> DocModel {
    clause_model("^g"@, patterns(texts(filter.g@)))
}

/// The criteria of permission rules under `filter`.
pub open spec fn permission_clause(filter: Filter) -> DocModel {
    clause_model("^p"@, patterns(texts(filter.p@)))
}

fn pattern_value(pattern: String) -> (r: Value)
    ensures
        r == Value::Pattern(pattern, r->Pattern_1),
        r->Pattern_1@ == "i"@,
{
    Value::Pattern(pattern, "i".to_owned())
}

fn family_clause(type_pattern: &str, pats: &Vec<String>) -> (r: Document)
    requires
        pats.len() == FIELD_COUNT,
    ensures
        doc_model(r) == clause_model(type_pattern@, texts(pats@)),
        doc_keys(r) == rule_keys(),
{
    proof {
        lemma_rule_keys_distinct();
    }
    let mut d = new_document();
    doc_insert(&mut d, "ptype", pattern_value(type_pattern.to_owned()));
    doc_insert(&mut d, "v0", pattern_value(pats[0].clone()));
    doc_insert(&mut d, "v1", pattern_value(pats[1].clone()));
    doc_insert(&mut d, "v2", pattern_value(pats[2].clone()));
    doc_insert(&mut d, "v3", pattern_value(pats[3].clone()));
    doc_insert(&mut d, "v4", pattern_value(pats[4].clone()));
    doc_insert(&mut d, "v5", pattern_value(pats[5].clone()));
    assert(doc_keys(d) =~= rule_keys());
    d
}

/// The query of a filtered load: a grouping rule (type starting with `g`)
/// whose fields match the `g` patterns, or a permission rule (type starting
/// with `p`) whose fields match the `p` patterns.
pub fn filtered_query(filter: &Filter) -> (r: Document)
    ensures
        is_either_of(doc_model(r), grouping_clause(*filter), permission_clause(*filter)),
        doc_keys(docs_at(doc_model(r), "$or"@)[0]) == rule_keys(),
        doc_keys(docs_at(doc_model(r), "$or"@)[1]) == rule_keys(),
{
    let (g_pats, p_pats) = filtered_where_values(filter);
    let g_doc = family_clause("^g", &g_pats);
    let p_doc = family_clause("^p", &p_pats);
    let alts = vec![g_doc, p_doc];
    let mut query = new_document();
    doc_insert(&mut query, "$or", Value::Docs(alts));
    query
}

/// The equality criteria of a field-indexed deletion, over the first `n`
/// argument fields: the type always, and each field `v{i}` with
/// `field_index <= i < field_index + values.len()` whose value is not empty.
pub open spec fn field_criteria(
    ptype: Seq<char>,
    field_index: int,
    values: Seq<Seq<char>>,
    n: int,
) -> DocModel
    decreases n,
{
    if n <= 0 {
        DocModel::empty().insert("ptype"@, BsonModel::Text(ptype))
    } else {
        let before = field_criteria(ptype, field_index, values, n - 1);
        let i = n - 1;
        if field_index <= i < field_index + values.len() && values[i - field_index].len() > 0 {
            before.insert(field_key(i), BsonModel::Text(values[i - field_index]))
        } else {
            before
        }
    }
}

/// Whether a stored record meets equality criteria: it holds every
/// criterion's key with that very value.
pub open spec fn equality_selects(criteria: DocModel, record: DocModel) -> bool {
    forall|k: Seq<char>|
        #[trigger] criteria.contains_key(k) ==> record.contains_key(k) && record[k] == criteria[k]
}

/// The criteria of deleting the rules of type `ptype` whose fields from
/// `v{field_index}` on equal `field_values`, an empty value matching any.
/// `None` when `field_index` lies past the last field.
pub fn filtered_removal_query(ptype: &str, field_index: usize, field_values: Vec<String>) -> (r:
    Option<Document>)
    ensures
        r is None <==> field_index > FIELD_COUNT,
        r matches Some(d) ==> doc_model(d) == field_criteria(
            ptype@,
            field_index as int,
            normalized(texts(field_values@), field_index as int),
            6,
        ),
{
    if field_index > FIELD_COUNT {
        return None;
    }
    let values = normalize_casbin_rule(field_values, field_index);
    let ghost vals = texts(values@);
    let empty = String::new();
    let mut query = new_document();
    doc_insert(&mut query, "ptype", Value::Text(ptype.to_owned()));
    let mut i: usize = 0;
    while i < FIELD_COUNT
        invariant
            i <= FIELD_COUNT,
            field_index <= FIELD_COUNT,
            values.len() == FIELD_COUNT - field_index,
            vals == texts(values@),
            empty@ == Seq::<char>::empty(),
            doc_model(query) == field_criteria(ptype@, field_index as int, vals, i as int),
        decreases FIELD_COUNT - i,
    {
        if field_index <= i && i < field_index + values.len() {
            assert(vals[i - field_index] == values@[i - field_index]@);
            if values[i - field_index] != empty {
                assert(vals[i - field_index].len() > 0) by {
                    if vals[i - field_index].len() == 0 {
                        assert(vals[i - field_index] =~= empty@);
                    }
                }
                doc_insert(&mut query, key_of(i), Value::Text(values[i - field_index].clone()));
            }
        }
        i = i + 1;
    }
    Some(query)
}

/// The criteria of deleting the one rule of type `ptype` whose six fields
/// are `rule`, cut or padded to six: every field must be equal, an empty one
/// included.
pub fn rule_removal_query(ptype: &str, rule: Vec<String>) -> (r: Document)
    ensures
        doc_model(r) == rule_model(seq![ptype@] + normalized(texts(rule@), 0)),
        doc_keys(r) == rule_keys(),
{
    let values = normalize_casbin_rule(rule, 0);
    let ghost vals = texts(values@);
    assert(forall|i: int| 0 <= i < 6 ==> vals[i] == #[trigger] values@[i]@);
    let target = NewCasbinRule {
        ptype: ptype.to_owned(),
        v0: values[0].clone(),
        v1: values[1].clone(),
        v2: values[2].clone(),
        v3: values[3].clone(),
        v4: values[4].clone(),
        v5: values[5].clone(),
    };
    assert(target.fields() =~= seq![ptype@] + vals);
    target.into_document()
}

/// What a stored rule is, as the contracts see it: its id and its fields.
pub open spec fn rule_view(r: CasbinRule) -> (ObjectId, Seq<Seq<char>>) {
    (r.id, r.fields())
}

/// The rules that the documents `ds` decode to, in order, skipping those
/// that do not decode.
pub open spec fn decoded_all(ds: Seq<Document>) -> Seq<(ObjectId, Seq<Seq<char>>)>
    decreases ds.len(),
{
    if ds.len() == 0 {
        Seq::empty()
    } else {
        let before = decoded_all(ds.drop_last());
        match decode(doc_model(ds.last())) {
            Some(x) => before.push(x),
            None => before,
        }
    }
}

/// The positions of the documents of `ds` that do not decode, in order.
pub open spec fn undecodable(ds: Seq<Document>) -> Seq<int>
    decreases ds.len(),
{
    if ds.len() == 0 {
        Seq::empty()
    } else {
        let before = undecodable(ds.drop_last());
        if decode(doc_model(ds.last())) is Some {
            before
        } else {
            before.push(ds.len() - 1)
        }
    }
}

/// The outcome of reading the documents of a load: the rules read, and the
/// positions of the documents that were not rules.
pub struct DecodedRules {
    pub rules: Vec<CasbinRule>,
    pub failures: Vec<usize>,
}

/// Reads each document as a rule. A document that is not one is not
/// dropped silently: its position is reported.
pub fn rules_from_documents(docs: &Vec<Document>) -> (r: DecodedRules)
    ensures
        r.rules@.map_values(|x: CasbinRule| rule_view(x)) == decoded_all(docs@),
        r.failures@.map_values(|k: usize| k as int) == undecodable(docs@),
{
    let mut rules: Vec<CasbinRule> = Vec::new();
    let mut failures: Vec<usize> = Vec::new();
    let mut i: usize = 0;
    while i < docs.len()
        invariant
            i <= docs.len(),
            rules@.map_values(|x: CasbinRule| rule_view(x)) == decoded_all(docs@.take(i as int)),
            failures@.map_values(|k: usize| k as int) == undecodable(docs@.take(i as int)),
        decreases docs.len() - i,
    {
        assert(docs@.take(i + 1).drop_last() =~= docs@.take(i as int));
        assert(docs@.take(i + 1).last() == docs@[i as int]);
        match CasbinRule::from_document(&docs[i]) {
            Ok(rule) => {
                let ghost before = rules@;
                rules.push(rule);
                assert(rules@.map_values(|x: CasbinRule| rule_view(x)) =~= before.map_values(
                    |x: CasbinRule| rule_view(x),
                ).push(rule_view(rule)));
            },
            Err(_) => {
                let ghost before = failures@;
                failures.push(i);
                assert(failures@.map_values(|k: usize| k as int) =~= before.map_values(
                    |k: usize| k as int,
                ).push(i as int));
            },
        }
        i = i + 1;
    }
    assert(docs@.take(docs.len() as int) =~= docs@);
    DecodedRules { rules, failures }
}

/// The keys of the rule index: the type and the six fields, each ascending.
pub open spec fn index_keys() -> DocModel {
    DocModel::empty()
        .insert("ptype"@, BsonModel::Int32(1))
        .insert("v0"@, BsonModel::Int32(1))
        .insert("v1"@, BsonModel::Int32(1))
        .insert("v2"@, BsonModel::Int32(1))
        .insert("v3"@, BsonModel::Int32(1))
        .insert("v4"@, BsonModel::Int32(1))
        .insert("v5"@, BsonModel::Int32(1))
}

/// The document stored under `key`, if that entry is a document.
pub open spec fn doc_at(m: DocModel, key: Seq<char>) -> Document {
    match m[key] {
        BsonModel::Doc(d) => d,
        _ => arbitrary(),
    }
}

/// `d` declares the unique index over the type and the six fields, its
/// keys listed as `key`, `name`, `unique`, and the index's keys in the
/// order `ptype`, `v0` to `v5`.
pub open spec fn is_unique_rule_index(d: Document) -> bool {
    let m = doc_model(d);
    let keys = doc_at(m, "key"@);
    &&& m == DocModel::empty().insert("key"@, BsonModel::Doc(keys)).insert(
        "name"@,
        BsonModel::Text("unique_key_mongo_adapter"@),
    ).insert("unique"@, BsonModel::Bool(true))
    &&& doc_keys(d) == seq!["key"@, "name"@, "unique"@]
    &&& doc_model(keys) == index_keys()
    &&& doc_keys(keys) == rule_keys()
}

/// `d` is the command that creates, on the rule collection, the unique
/// index over the type and the six fields, and nothing else; its first key
/// is `createIndexes`, which names the command.
pub open spec fn is_index_command(d: Document) -> bool {
    let m = doc_model(d);
    let indexes = docs_at(m, "indexes"@);
    &&& m == DocModel::empty().insert("createIndexes"@, BsonModel::Text("casbin_rule"@)).insert(
        "indexes"@,
        BsonModel::Docs(indexes),
    )
    &&& doc_keys(d) == seq!["createIndexes"@, "indexes"@]
    &&& indexes.len() == 1
    &&& is_unique_rule_index(indexes[0])
}

/// The command that makes the store refuse two rules with the same type
/// and fields.
pub fn unique_index_command() -> (r: Document)
    ensures
        is_index_command(r),
{
    proof {
        lemma_rule_keys_distinct();
        reveal_strlit("key");
        reveal_strlit("name");
        reveal_strlit("unique");
        reveal_strlit("createIndexes");
        reveal_strlit("indexes");
        assert("key"@ != "name"@ && "key"@ != "unique"@ && "name"@ != "unique"@) by {
            assert("key"@.len() != "name"@.len());
            assert("key"@.len() != "unique"@.len());
            assert("name"@.len() != "unique"@.len());
        }
        assert("createIndexes"@.len() != "indexes"@.len());
    }
    let mut keys = new_document();
    doc_insert(&mut keys, "ptype", Value::Int32(1));
    doc_insert(&mut keys, "v0", Value::Int32(1));
    doc_insert(&mut keys, "v1", Value::Int32(1));
    doc_insert(&mut keys, "v2", Value::Int32(1));
    doc_insert(&mut keys, "v3", Value::Int32(1));
    doc_insert(&mut keys, "v4", Value::Int32(1));
    doc_insert(&mut keys, "v5", Value::Int32(1));
    let ghost keys_doc = keys;
    let mut index = new_document();
    doc_insert(&mut index, "key", Value::Doc(keys));
    doc_insert(&mut index, "name", Value::Text("unique_key_mongo_adapter".to_owned()));
    doc_insert(&mut index, "unique", Value::Bool(true));
    let ghost index_doc = index;
    let mut command = new_document();
    doc_insert(&mut command, "createIndexes", Value::Text("casbin_rule".to_owned()));
    doc_insert(&mut command, "indexes", Value::Docs(vec![index]));
    proof {
        assert(doc_keys(keys_doc) =~= rule_keys());
        assert(doc_keys(index_doc) =~= seq!["key"@, "name"@, "unique"@]);
        assert(is_unique_rule_index(index_doc));
        assert(doc_keys(command) =~= seq!["createIndexes"@, "indexes"@]);
        assert(docs_at(doc_model(command), "indexes"@) == seq![index_doc]);
    }
    command
}

} // verus!
