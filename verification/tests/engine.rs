//! Collection lifecycle against an in-memory SQLite database.

use moosedb::builder::create_collection;
use moosedb::catalog::{collection_id_to_name, collection_name_to_id, fields_of};
use moosedb::codec::JsonValue;
use moosedb::errors::MooseError;
use moosedb::mapper::Field;
use moosedb::registry::{create_record, delete_collection, get_records, list_collections};

fn conn() -> rusqlite::Connection {
    rusqlite::Connection::open_in_memory().unwrap()
}

fn field(title: &str, ftype: &str, unique: bool, nullable: bool) -> Field {
    Field {
        title: title.to_string(),
        field_type: ftype.to_string(),
        unique,
        nullable,
        min: None,
        max: None,
    }
}

fn value_of(record: &[(String, JsonValue)], key: &str) -> JsonValue {
    record
        .iter()
        .find(|(k, _)| k == key)
        .map(|(_, v)| v.clone())
        .unwrap()
}

#[test]
fn create_then_list_and_empty_records() {
    let c = conn();
    let fields = vec![field("title", "VARCHAR", false, false), field("count", "INTEGER", false, true)];
    let id = create_collection(&c, "notes2", &fields).unwrap();
    assert!(id.starts_with("moo_"));
    assert_eq!(id.len(), 13);

    let listed = list_collections(&c).unwrap();
    let hits: Vec<_> = listed.iter().filter(|(i, n)| i == &id && n == "notes2").collect();
    assert_eq!(hits.len(), 1);
    assert_eq!(listed.len(), 1);

    let (cols, records) = get_records(&c, &id).unwrap();
    assert_eq!(cols, vec!["id", "title", "count", "created_at", "updated_at"]);
    assert_eq!(records.len(), 0);
}

#[test]
fn empty_name_is_invalid_input() {
    let c = conn();
    let r = create_collection(&c, "", &vec![field("a", "TEXT", false, true)]);
    assert!(matches!(r, Err(MooseError::InvalidInput)));
}

#[test]
fn existing_name_is_already_exists_and_catalog_unchanged() {
    let c = conn();
    let fields = vec![field("a", "TEXT", false, true)];
    let _id = create_collection(&c, "dup", &fields).unwrap();
    let before = fields_of(&c, "dup").unwrap();
    let listed_before = list_collections(&c).unwrap();

    let again = create_collection(&c, "dup", &vec![field("b", "TEXT", false, true)]);
    assert!(matches!(again, Err(MooseError::AlreadyExists)));

    let after = fields_of(&c, "dup").unwrap();
    assert_eq!(before, after);
    assert_eq!(listed_before, list_collections(&c).unwrap());
    assert_eq!(before, vec![("a".to_string(), "TEXT".to_string())]);
}

#[test]
fn collision_with_internal_table_is_already_exists() {
    let c = conn();
    let fields = vec![field("a", "TEXT", false, true)];
    let _ = create_collection(&c, "first", &fields).unwrap();
    let r = create_collection(&c, "_collections", &fields);
    assert!(matches!(r, Err(MooseError::AlreadyExists)));
}

#[test]
fn record_round_trip_over_every_type() {
    let c = conn();
    let fields = vec![
        field("s", "VARCHAR", false, false),
        field("t", "TEXT", false, false),
        field("n", "INTEGER", false, false),
        field("d", "DECIMAL", false, false),
        field("b", "BOOLEAN", false, false),
        field("dt", "DATETIME", false, false),
        field("ts", "TIMESTAMP", false, false),
    ];
    let id = create_collection(&c, "vals", &fields).unwrap();
    let record = vec![
        ("s".to_string(), JsonValue::Str("héllo".to_string())),
        ("t".to_string(), JsonValue::Str("plain".to_string())),
        ("n".to_string(), JsonValue::Int(-42)),
        ("d".to_string(), JsonValue::Real("3.25".to_string())),
        ("b".to_string(), JsonValue::Bool(true)),
        ("dt".to_string(), JsonValue::Str("2024-01-02 03:04:05".to_string())),
        ("ts".to_string(), JsonValue::Str("2024-01-02 03:04:06".to_string())),
    ];
    create_record(&c, &id, &record).unwrap();

    let (cols, records) = get_records(&c, &id).unwrap();
    assert_eq!(
        cols,
        vec!["id", "s", "t", "n", "d", "b", "dt", "ts", "created_at", "updated_at"]
    );
    assert_eq!(records.len(), 1);
    let rec = &records[0];
    assert_eq!(value_of(rec, "id"), JsonValue::Int(1));
    assert_eq!(value_of(rec, "s"), JsonValue::Str("héllo".to_string()));
    assert_eq!(value_of(rec, "t"), JsonValue::Str("plain".to_string()));
    assert_eq!(value_of(rec, "n"), JsonValue::Int(-42));
    assert_eq!(value_of(rec, "d"), JsonValue::Real("3.25".to_string()));
    assert_eq!(value_of(rec, "b"), JsonValue::Int(1));
    assert_eq!(value_of(rec, "dt"), JsonValue::Str("2024-01-02 03:04:05".to_string()));
    assert_eq!(value_of(rec, "ts"), JsonValue::Str("2024-01-02 03:04:06".to_string()));
}

#[test]
fn missing_not_null_field_is_storage_error_and_adds_no_row() {
    let c = conn();
    let fields = vec![field("body", "TEXT", false, false)];
    let id = create_collection(&c, "strict", &fields).unwrap();

    let r = create_record(&c, &id, &vec![]);
    assert!(matches!(r, Err(MooseError::StorageError(_))));

    let (_, records) = get_records(&c, &id).unwrap();
    assert_eq!(records.len(), 0);
}

#[test]
fn type_mismatch_encodes_null() {
    let c = conn();
    let fields = vec![field("n", "INTEGER", false, true)];
    let id = create_collection(&c, "loose", &fields).unwrap();
    let record = vec![("n".to_string(), JsonValue::Str("5".to_string()))];
    create_record(&c, &id, &record).unwrap();
    let (_, records) = get_records(&c, &id).unwrap();
    assert_eq!(value_of(&records[0], "n"), JsonValue::Null);
}

#[test]
fn length_and_value_bounds_are_enforced_by_storage() {
    let c = conn();
    let fields = vec![
        Field {
            title: "name".to_string(),
            field_type: "VARCHAR".to_string(),
            unique: false,
            nullable: false,
            min: Some(2),
            max: Some(5),
        },
        Field {
            title: "qty".to_string(),
            field_type: "INTEGER".to_string(),
            unique: false,
            nullable: false,
            min: Some(0),
            max: Some(10),
        },
    ];
    let id = create_collection(&c, "bnd", &fields).unwrap();

    let ok = vec![
        ("name".to_string(), JsonValue::Str("abc".to_string())),
        ("qty".to_string(), JsonValue::Int(5)),
    ];
    create_record(&c, &id, &ok).unwrap();

    let short = vec![
        ("name".to_string(), JsonValue::Str("a".to_string())),
        ("qty".to_string(), JsonValue::Int(5)),
    ];
    assert!(matches!(create_record(&c, &id, &short), Err(MooseError::StorageError(_))));

    let high = vec![
        ("name".to_string(), JsonValue::Str("abc".to_string())),
        ("qty".to_string(), JsonValue::Int(50)),
    ];
    assert!(matches!(create_record(&c, &id, &high), Err(MooseError::StorageError(_))));

    let (_, records) = get_records(&c, &id).unwrap();
    assert_eq!(records.len(), 1);
}

#[test]
fn unique_field_rejects_duplicates() {
    let c = conn();
    let fields = vec![field("email", "VARCHAR", true, false)];
    let id = create_collection(&c, "uniq", &fields).unwrap();
    let rec = vec![("email".to_string(), JsonValue::Str("a@b".to_string()))];
    create_record(&c, &id, &rec).unwrap();
    assert!(matches!(create_record(&c, &id, &rec), Err(MooseError::StorageError(_))));
}

#[test]
fn unknown_type_falls_back_to_text() {
    let c = conn();
    let fields = vec![field("kind", "FANCY", false, true)];
    let id = create_collection(&c, "misc", &fields).unwrap();
    let rec = vec![("kind".to_string(), JsonValue::Str("zebra".to_string()))];
    create_record(&c, &id, &rec).unwrap();
    let (_, records) = get_records(&c, &id).unwrap();
    assert_eq!(value_of(&records[0], "kind"), JsonValue::Str("zebra".to_string()));
}

#[test]
fn delete_collection_removes_catalog_and_storage() {
    let c = conn();
    let fields = vec![field("a", "TEXT", false, true)];
    let id = create_collection(&c, "gone", &fields).unwrap();

    delete_collection(&c, &id).unwrap();

    assert_eq!(fields_of(&c, "gone").unwrap(), vec![]);
    assert!(matches!(get_records(&c, &id), Err(MooseError::NotFound)));
    assert!(matches!(create_record(&c, &id, &vec![]), Err(MooseError::NotFound)));
    assert!(matches!(delete_collection(&c, &id), Err(MooseError::NotFound)));

    let listed = list_collections(&c).unwrap();
    assert!(listed.iter().all(|(i, _)| i != &id));

    let again = create_collection(&c, "gone", &fields).unwrap();
    assert_ne!(again, id);
}

#[test]
fn unknown_identifier_is_not_found() {
    let c = conn();
    let _ = create_collection(&c, "there", &vec![field("a", "TEXT", false, true)]).unwrap();
    assert!(matches!(get_records(&c, "moo_000000000"), Err(MooseError::NotFound)));
    assert!(matches!(create_record(&c, "moo_000000000", &vec![]), Err(MooseError::NotFound)));
    assert!(matches!(delete_collection(&c, "moo_000000000"), Err(MooseError::NotFound)));
}

#[test]
fn quoted_identifiers_survive_strange_names() {
    let c = conn();
    let fields = vec![field("we\"ird", "TEXT", false, false)];
    let id = create_collection(&c, "na\"me; DROP TABLE \"_collections\"", &fields).unwrap();
    let rec = vec![("we\"ird".to_string(), JsonValue::Str("v".to_string()))];
    create_record(&c, &id, &rec).unwrap();
    let (cols, records) = get_records(&c, &id).unwrap();
    assert_eq!(cols[1], "we\"ird");
    assert_eq!(value_of(&records[0], "we\"ird"), JsonValue::Str("v".to_string()));
    delete_collection(&c, &id).unwrap();
    assert_eq!(list_collections(&c).unwrap(), vec![]);
}

#[test]
fn catalog_resolves_names_and_identifiers_both_ways() {
    let c = conn();
    let id = create_collection(&c, "pair", &vec![field("a", "TEXT", false, true)]).unwrap();
    assert_eq!(collection_name_to_id(&c, "pair").unwrap(), Some(id.clone()));
    assert_eq!(collection_id_to_name(&c, &id).unwrap(), Some("pair".to_string()));
    assert_eq!(collection_name_to_id(&c, "absent").unwrap(), None);
}

#[test]
fn fields_come_back_in_declaration_order() {
    let c = conn();
    let fields = vec![
        field("zeta", "TEXT", false, true),
        field("alpha", "INTEGER", false, true),
        field("mid", "BOOLEAN", false, true),
        field("beta", "DECIMAL", false, true),
        field("omega", "VARCHAR", false, true),
    ];
    let id = create_collection(&c, "ordered", &fields).unwrap();
    assert_eq!(
        fields_of(&c, "ordered").unwrap(),
        vec![
            ("zeta".to_string(), "TEXT".to_string()),
            ("alpha".to_string(), "INTEGER".to_string()),
            ("mid".to_string(), "BOOLEAN".to_string()),
            ("beta".to_string(), "DECIMAL".to_string()),
            ("omega".to_string(), "VARCHAR".to_string()),
        ]
    );
    let (cols, _) = get_records(&c, &id).unwrap();
    assert_eq!(
        cols,
        vec!["id", "zeta", "alpha", "mid", "beta", "omega", "created_at", "updated_at"]
    );
}

#[test]
fn list_collections_without_catalog_is_empty() {
    let c = conn();
    assert_eq!(list_collections(&c).unwrap(), vec![]);
}

#[test]
fn notes_scenario() {
    let c = conn();
    let fields = vec![field("body", "TEXT", false, false)];
    let id = create_collection(&c, "notes", &fields).unwrap();

    let rec = vec![("body".to_string(), JsonValue::Str("hello".to_string()))];
    create_record(&c, &id, &rec).unwrap();

    let (_, records) = get_records(&c, &id).unwrap();
    assert_eq!(records.len(), 1);
    assert_eq!(value_of(&records[0], "body"), JsonValue::Str("hello".to_string()));

    assert!(matches!(create_record(&c, &id, &vec![]), Err(MooseError::StorageError(_))));

    delete_collection(&c, &id).unwrap();
    let listed = list_collections(&c).unwrap();
    assert!(listed.iter().all(|(_, n)| n != "notes"));
}
