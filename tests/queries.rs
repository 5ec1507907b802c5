use mongodb::bson::document::ValueAccessError;
use mongodb::bson::oid::ObjectId;
use mongodb::bson::{Bson, Document, Regex};
use mongodb_adapter::models::{CasbinRule, NewCasbinRule};
use mongodb_adapter::queries::{
    filtered_query, filtered_removal_query, filtered_where_values, normalize_casbin_rule,
    rule_removal_query, rules_from_documents, unique_index_command, Filter,
};

fn strings(v: &[&str]) -> Vec<String> {
    v.iter().map(|s| s.to_string()).collect()
}

fn new_rule(f: [&str; 7]) -> NewCasbinRule {
    NewCasbinRule {
        ptype: f[0].to_string(),
        v0: f[1].to_string(),
        v1: f[2].to_string(),
        v2: f[3].to_string(),
        v3: f[4].to_string(),
        v4: f[5].to_string(),
        v5: f[6].to_string(),
    }
}

/// What the store keeps for a new rule: its document with an id added.
fn stored(f: [&str; 7]) -> Document {
    let mut d = new_rule(f).into_document();
    d.insert("_id", ObjectId::new());
    d
}

/// Equality criteria as the store applies them: every key of the criteria
/// holds the same value in the record.
fn selects(criteria: &Document, record: &Document) -> bool {
    criteria.iter().all(|(k, v)| record.get(k) == Some(v))
}

fn regex(d: &Document, key: &str) -> (String, String) {
    match d.get(key) {
        Some(Bson::RegularExpression(Regex { pattern, options })) => {
            (pattern.clone(), options.clone())
        }
        other => panic!("not a pattern under {}: {:?}", key, other),
    }
}

#[test]
fn normalize_pads_short_rule() {
    assert_eq!(
        normalize_casbin_rule(strings(&["a", "b"]), 0),
        strings(&["a", "b", "", "", "", ""])
    );
}

#[test]
fn normalize_truncates_long_rule() {
    assert_eq!(
        normalize_casbin_rule(strings(&["a", "b", "c", "d", "e", "f", "g"]), 0),
        strings(&["a", "b", "c", "d", "e", "f"])
    );
}

#[test]
fn normalize_from_field_index() {
    assert_eq!(normalize_casbin_rule(strings(&["x"]), 4), strings(&["x", ""]));
    assert_eq!(normalize_casbin_rule(strings(&["x"]), 6), Vec::<String>::new());
}

#[test]
fn empty_patterns_become_wildcards() {
    let filter = Filter {
        p: strings(&["alice"]),
        g: strings(&["", ".*admin.*", "", "", "", ""]),
    };
    let (g, p) = filtered_where_values(&filter);
    assert_eq!(g, strings(&[".*", ".*admin.*", ".*", ".*", ".*", ".*"]));
    assert_eq!(p, strings(&["alice", ".*", ".*", ".*", ".*", ".*"]));
}

#[test]
fn filtered_query_routes_by_type_prefix() {
    let filter = Filter {
        p: strings(&[]),
        g: strings(&["", ".*admin.*", "", "", "", ""]),
    };
    let query = filtered_query(&filter);
    assert_eq!(query.len(), 1);
    let alts = query.get_array("$or").unwrap();
    assert_eq!(alts.len(), 2);
    let g = alts[0].as_document().unwrap();
    let p = alts[1].as_document().unwrap();
    assert_eq!(regex(g, "ptype"), ("^g".to_string(), "i".to_string()));
    assert_eq!(regex(g, "v0"), (".*".to_string(), "i".to_string()));
    assert_eq!(regex(g, "v1"), (".*admin.*".to_string(), "i".to_string()));
    assert_eq!(regex(g, "v5"), (".*".to_string(), "i".to_string()));
    assert_eq!(regex(p, "ptype"), ("^p".to_string(), "i".to_string()));
    for key in ["v0", "v1", "v2", "v3", "v4", "v5"] {
        assert_eq!(regex(p, key), (".*".to_string(), "i".to_string()));
    }
}

#[test]
fn field_indexed_removal_matches_on_given_field() {
    let rule = stored(["p", "alice", "data1", "read", "", "", ""]);
    let read = filtered_removal_query("p", 2, strings(&["read"])).unwrap();
    assert_eq!(read.get_str("ptype").unwrap(), "p");
    assert_eq!(read.get_str("v2").unwrap(), "read");
    assert!(!read.contains_key("v0"));
    assert!(!read.contains_key("v3"));
    assert!(selects(&read, &rule));
    let write = filtered_removal_query("p", 2, strings(&["write"])).unwrap();
    assert!(!selects(&write, &rule));
}

#[test]
fn field_indexed_removal_skips_empty_values() {
    let query = filtered_removal_query("g", 0, strings(&["alice", "", "domain1"])).unwrap();
    assert_eq!(query.len(), 3);
    assert_eq!(query.get_str("v0").unwrap(), "alice");
    assert!(!query.contains_key("v1"));
    assert_eq!(query.get_str("v2").unwrap(), "domain1");
    assert!(selects(&query, &stored(["g", "alice", "admin", "domain1", "", "", ""])));
    assert!(!selects(&query, &stored(["p", "alice", "admin", "domain1", "", "", ""])));
}

#[test]
fn field_indexed_removal_rejects_index_past_fields() {
    assert!(filtered_removal_query("p", 7, strings(&["read"])).is_none());
    let all = filtered_removal_query("p", 6, strings(&["read"])).unwrap();
    assert_eq!(all.len(), 1);
}

#[test]
fn rule_removal_matches_every_field() {
    let query = rule_removal_query("p", strings(&["alice", "data1", "read"]));
    assert_eq!(query.len(), 7);
    assert_eq!(query.get_str("v2").unwrap(), "read");
    assert_eq!(query.get_str("v3").unwrap(), "");
    assert!(selects(&query, &stored(["p", "alice", "data1", "read", "", "", ""])));
    assert!(!selects(&query, &stored(["p", "alice", "data1", "read", "x", "", ""])));
}

#[test]
fn stored_rule_reads_back() {
    let fields = ["p", "alice", "data1", "read", "", "", "deny"];
    let id = ObjectId::new();
    let mut d = new_rule(fields).into_document();
    d.insert("_id", id.clone());
    let rule = CasbinRule::from_document(&d).unwrap();
    assert_eq!(rule.id, id);
    let read = [
        rule.ptype.clone(),
        rule.v0.clone(),
        rule.v1.clone(),
        rule.v2.clone(),
        rule.v3.clone(),
        rule.v4.clone(),
        rule.v5.clone(),
    ];
    assert_eq!(read, fields.map(|s| s.to_string()));
}

#[test]
fn document_without_id_does_not_read() {
    let d = new_rule(["p", "alice", "data1", "read", "", "", ""]).into_document();
    assert!(CasbinRule::from_document(&d).is_err());
    let mut wrong = stored(["p", "alice", "data1", "read", "", "", ""]);
    wrong.insert("v4", 3);
    assert!(CasbinRule::from_document(&wrong).is_err());
}

#[test]
fn save_then_load_keeps_rules() {
    let saved = [
        ["p", "alice", "data1", "read", "", "", ""],
        ["p", "bob", "data2", "write", "", "", ""],
        ["g", "alice", "admin", "", "", "", ""],
    ];
    let docs: Vec<Document> = saved.iter().map(|f| stored(*f)).collect();
    let out = rules_from_documents(&docs);
    assert!(out.failures.is_empty());
    let loaded: Vec<[String; 7]> = out
        .rules
        .iter()
        .map(|r| {
            [
                r.ptype.clone(),
                r.v0.clone(),
                r.v1.clone(),
                r.v2.clone(),
                r.v3.clone(),
                r.v4.clone(),
                r.v5.clone(),
            ]
        })
        .collect();
    let expected: Vec<[String; 7]> = saved.iter().map(|f| f.map(|s| s.to_string())).collect();
    assert_eq!(loaded, expected);
}

#[test]
fn undecodable_documents_are_reported() {
    let mut bad = Document::new();
    bad.insert("ptype", "p");
    let docs = vec![
        stored(["p", "alice", "data1", "read", "", "", ""]),
        bad,
        stored(["g", "bob", "admin", "", "", "", ""]),
    ];
    let out = rules_from_documents(&docs);
    assert_eq!(out.rules.len(), 2);
    assert_eq!(out.rules[1].v0, "bob");
    assert_eq!(out.failures, vec![1]);
}

#[test]
fn index_command_declares_unique_rule_key() {
    let command = unique_index_command();
    assert_eq!(command.get_str("createIndexes").unwrap(), "casbin_rule");
    let indexes = command.get_array("indexes").unwrap();
    assert_eq!(indexes.len(), 1);
    let index = indexes[0].as_document().unwrap();
    assert_eq!(index.get_str("name").unwrap(), "unique_key_mongo_adapter");
    assert!(index.get_bool("unique").unwrap());
    let keys = index.get_document("key").unwrap();
    let names: Vec<&String> = keys.keys().collect();
    assert_eq!(names, vec!["ptype", "v0", "v1", "v2", "v3", "v4", "v5"]);
    for key in ["ptype", "v0", "v1", "v2", "v3", "v4", "v5"] {
        assert_eq!(keys.get_i32(key).unwrap(), 1);
    }
}

#[test]
fn rule_document_keys_are_ordered() {
    let d = new_rule(["p", "alice", "data1", "read", "", "", ""]).into_document();
    let names: Vec<&String> = d.keys().collect();
    assert_eq!(names, vec!["ptype", "v0", "v1", "v2", "v3", "v4", "v5"]);
    let command = unique_index_command();
    let names: Vec<&String> = command.keys().collect();
    assert_eq!(names, vec!["createIndexes", "indexes"]);
}

#[test]
fn missing_field_is_not_present() {
    let mut d = stored(["p", "alice", "data1", "read", "", "", ""]);
    d.remove("v5");
    assert!(CasbinRule::from_document(&d).err() == Some(ValueAccessError::NotPresent));
    let mut wrong = stored(["p", "alice", "data1", "read", "", "", ""]);
    wrong.insert("v1", true);
    wrong.remove("v5");
    assert!(CasbinRule::from_document(&wrong).err() == Some(ValueAccessError::UnexpectedType));
}
