//! Laws that relate the records, the criteria and the store's reading of
//! them.
use crate::document::{doc_model, BsonModel};
use crate::models::{decode, lemma_rule_keys_distinct, rule_model, NewCasbinRule};
use crate::queries::{
    decoded_all, equality_selects, field_criteria, field_key, grouping_clause, normalized,
    pattern_at, permission_clause, texts, undecodable, Filter,
};
use mongodb::bson::oid::ObjectId;
use mongodb::bson::Document;
use vstd::prelude::*;

verus! {

/// A rule written as a document and then stored under an id reads back as
/// that id with exactly the rule's type and fields.
pub proof fn lemma_stored_rule_round_trip(rule: NewCasbinRule, id: ObjectId)
    ensures
        decode(rule_model(rule.fields()).insert("_id"@, BsonModel::Id(id))) == Some((id, rule.fields())),
{
    lemma_rule_keys_distinct();
    let m = rule_model(rule.fields()).insert("_id"@, BsonModel::Id(id));
    let d = decode(m)->0;
    assert(d.1 =~= rule.fields());
}

/// Loading what a save wrote: where each stored document is the document of
/// the saved rule at its position with some id added, every document reads
/// back, and the rules read carry the saved types and fields in the same
/// order, hence as the same multiset.
pub proof fn lemma_load_after_save(
    rules: Seq<NewCasbinRule>,
    ids: Seq<ObjectId>,
    stored: Seq<Document>,
)
    requires
        rules.len() == stored.len(),
        ids.len() == stored.len(),
        forall|i: int|
            0 <= i < stored.len() ==> doc_model(#[trigger] stored[i]) == rule_model(
                rules[i].fields(),
            ).insert("_id"@, BsonModel::Id(ids[i])),
    ensures
        undecodable(stored) == Seq::<int>::empty(),
        decoded_all(stored).map_values(|x: (ObjectId, Seq<Seq<char>>)| x.1) == rules.map_values(
            |r: NewCasbinRule| r.fields(),
        ),
        decoded_all(stored).map_values(|x: (ObjectId, Seq<Seq<char>>)| x.1).to_multiset()
            == rules.map_values(|r: NewCasbinRule| r.fields()).to_multiset(),
    decreases stored.len(),
{
    if stored.len() > 0 {
        let n = stored.len() - 1;
        assert forall|i: int| 0 <= i < n implies doc_model(#[trigger] stored.drop_last()[i])
            == rule_model(rules.drop_last()[i].fields()).insert(
            "_id"@,
            BsonModel::Id(ids.drop_last()[i]),
        ) by {
            assert(stored.drop_last()[i] == stored[i]);
        }
        lemma_load_after_save(rules.drop_last(), ids.drop_last(), stored.drop_last());
        lemma_stored_rule_round_trip(rules[n], ids[n]);
        assert(stored.last() == stored[n]);
        assert(rules.map_values(|r: NewCasbinRule| r.fields()) =~= rules.drop_last().map_values(
            |r: NewCasbinRule| r.fields(),
        ).push(rules[n].fields()));
        assert(decoded_all(stored).map_values(|x: (ObjectId, Seq<Seq<char>>)| x.1)
            =~= decoded_all(stored.drop_last()).map_values(|x: (ObjectId, Seq<Seq<char>>)| x.1).push(
            rules[n].fields(),
        ));
    } else {
        assert(rules.map_values(|r: NewCasbinRule| r.fields()) =~= Seq::empty());
        assert(decoded_all(stored).map_values(|x: (ObjectId, Seq<Seq<char>>)| x.1) =~= Seq::empty());
    }
}

/// Field `i` of the pattern query of a family is matched against the
/// filter's pattern at `i` where that is given and not empty, and against
/// the pattern that matches anything otherwise.
pub proof fn lemma_empty_pattern_is_wildcard(filter: Filter, i: int)
    requires
        0 <= i < 6,
    ensures
        grouping_clause(filter)[field_key(i)] == BsonModel::Pattern(pattern_at(texts(filter.g@), i), "i"@),
        permission_clause(filter)[field_key(i)] == BsonModel::Pattern(pattern_at(texts(filter.p@), i), "i"@),
        i >= filter.g.len() || filter.g@[i]@.len() == 0 ==> grouping_clause(filter)[field_key(i)]
            == BsonModel::Pattern(".*"@, "i"@),
        i >= filter.p.len() || filter.p@[i]@.len() == 0 ==> permission_clause(filter)[field_key(i)]
            == BsonModel::Pattern(".*"@, "i"@),
{
    lemma_rule_keys_distinct();
}

/// Whatever the filter, the grouping alternative of a filtered load asks
/// for a type starting with `g` and the permission alternative for one
/// starting with `p`, without regard to case: an all-wildcard group does
/// not widen its alternative to the other family.
pub proof fn lemma_family_routing(filter: Filter)
    ensures
        grouping_clause(filter)["ptype"@] == BsonModel::Pattern("^g"@, "i"@),
        permission_clause(filter)["ptype"@] == BsonModel::Pattern("^p"@, "i"@),
{
    lemma_rule_keys_distinct();
}

/// One of the six argument keys.
pub open spec fn is_field_key(k: Seq<char>) -> bool {
    k == "v0"@ || k == "v1"@ || k == "v2"@ || k == "v3"@ || k == "v4"@ || k == "v5"@
}

/// Field `i` is constrained by a field-indexed deletion from `field_index`
/// with the values `vals`: its value is given and not empty.
pub open spec fn constrained(field_index: int, vals: Seq<Seq<char>>, i: int) -> bool {
    field_index <= i < field_index + vals.len() && vals[i - field_index].len() > 0
}

/// The criteria of a field-indexed deletion, stated directly: the type,
/// plus exactly the fields `v{i}` (of the first `n`) whose given value is
/// not empty, each with that value, and no other key.
pub proof fn lemma_field_criteria_shape(ptype: Seq<char>, field_index: int, vals: Seq<Seq<char>>, n: int)
    requires
        0 <= n <= 6,
    ensures
        field_criteria(ptype, field_index, vals, n).contains_key("ptype"@),
        field_criteria(ptype, field_index, vals, n)["ptype"@] == BsonModel::Text(ptype),
        forall|k: Seq<char>|
            #[trigger] field_criteria(ptype, field_index, vals, n).contains_key(k) ==> k == "ptype"@
                || is_field_key(k),
        forall|i: int|
            0 <= i < 6 ==> (#[trigger] field_criteria(ptype, field_index, vals, n).contains_key(
                field_key(i),
            ) <==> (i < n && constrained(field_index, vals, i))),
        forall|i: int|
            0 <= i < n && constrained(field_index, vals, i) ==> #[trigger] field_criteria(
                ptype,
                field_index,
                vals,
                n,
            )[field_key(i)] == BsonModel::Text(vals[i - field_index]),
    decreases n,
{
    lemma_rule_keys_distinct();
    if n > 0 {
        lemma_field_criteria_shape(ptype, field_index, vals, n - 1);
    }
}

/// A field-indexed deletion removes a stored rule exactly when the rule has
/// the given type and, in each field from `v{field_index}` on whose given
/// value is not empty, that very value; an empty value constrains nothing.
pub proof fn lemma_field_indexed_removal(
    ptype: Seq<char>,
    field_index: int,
    values: Seq<Seq<char>>,
    stored: Seq<Seq<char>>,
    id: ObjectId,
)
    requires
        0 <= field_index <= 6,
        stored.len() == 7,
    ensures
        ({
            let vals = normalized(values, field_index);
            equality_selects(
                field_criteria(ptype, field_index, vals, 6),
                rule_model(stored).insert("_id"@, BsonModel::Id(id)),
            ) <==> (stored[0] == ptype && forall|i: int|
                field_index <= i < 6 && #[trigger] vals[i - field_index].len() > 0 ==> stored[i + 1]
                    == vals[i - field_index])
        }),
{
    lemma_rule_keys_distinct();
    let vals = normalized(values, field_index);
    let m = field_criteria(ptype, field_index, vals, 6);
    let rec = rule_model(stored).insert("_id"@, BsonModel::Id(id));
    lemma_field_criteria_shape(ptype, field_index, vals, 6);
    assert(forall|i: int| 0 <= i < 6 ==> rec.contains_key(#[trigger] field_key(i)) && rec[field_key(i)]
        == BsonModel::Text(stored[i + 1]));
    if equality_selects(m, rec) {
        assert(m.contains_key("ptype"@));
        assert forall|i: int|
            field_index <= i < 6 && #[trigger] vals[i - field_index].len() > 0 implies stored[i + 1]
            == vals[i - field_index] by {
            assert(constrained(field_index, vals, i));
            assert(m.contains_key(field_key(i)));
        }
    }
    if stored[0] == ptype && forall|i: int|
        field_index <= i < 6 && #[trigger] vals[i - field_index].len() > 0 ==> stored[i + 1]
            == vals[i - field_index] {
        assert forall|k: Seq<char>| #[trigger] m.contains_key(k) implies rec.contains_key(k)
            && rec[k] == m[k] by {
            if k != "ptype"@ {
                let i: int = if k == "v0"@ {
                    0
                } else if k == "v1"@ {
                    1
                } else if k == "v2"@ {
                    2
                } else if k == "v3"@ {
                    3
                } else if k == "v4"@ {
                    4
                } else {
                    5
                };
                assert(k == field_key(i));
                assert(m.contains_key(field_key(i)));
            }
        }
    }
}

/// The criteria of a single-rule deletion select a stored rule exactly when
/// its type and all six fields equal the given ones, empty fields included.
pub proof fn lemma_exact_removal(target: Seq<Seq<char>>, stored: Seq<Seq<char>>, id: ObjectId)
    requires
        target.len() == 7,
        stored.len() == 7,
    ensures
        equality_selects(rule_model(target), rule_model(stored).insert("_id"@, BsonModel::Id(id)))
            <==> target == stored,
{
    lemma_rule_keys_distinct();
    let m = rule_model(target);
    let rec = rule_model(stored).insert("_id"@, BsonModel::Id(id));
    if equality_selects(m, rec) {
        assert(m.contains_key("ptype"@));
        assert(m.contains_key("v0"@));
        assert(m.contains_key("v1"@));
        assert(m.contains_key("v2"@));
        assert(m.contains_key("v3"@));
        assert(m.contains_key("v4"@));
        assert(m.contains_key("v5"@));
        assert(target =~= stored);
    }
}

} // verus!
