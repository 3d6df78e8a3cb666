//! Unit tests of the pure pieces: mapper, codec, statement builders,
//! numerals, identifiers, asset keys.

use moosedb::assets::asset_key;
use moosedb::builder::create_table_sql;
use moosedb::catalog::first_text_cell;
use moosedb::registry::decode_rows;
use moosedb::codec::{decode, decode_cell, encode, encode_field, lookup, JsonValue};
use moosedb::errors::MooseError;
use moosedb::mapper::{constraint_clause, physical_type, quote_ident, Field};
use moosedb::random::{generate_secret, generate_uid, new_collection_id, random_numbers, simple_uid};
use moosedb::registry::{column_list, drop_sql, insert_sql, placeholder_list, select_sql};
use moosedb::store::SqlValue;
use moosedb::text::{i64_dec, u64_dec};

fn field(title: &str, ftype: &str, unique: bool, nullable: bool, min: Option<i64>, max: Option<i64>) -> Field {
    Field {
        title: title.to_string(),
        field_type: ftype.to_string(),
        unique,
        nullable,
        min,
        max,
    }
}

#[test]
fn physical_types_of_the_closed_set() {
    assert_eq!(physical_type("VARCHAR"), "VARCHAR(255)");
    assert_eq!(physical_type("TEXT"), "TEXT");
    assert_eq!(physical_type("INTEGER"), "INTEGER");
    assert_eq!(physical_type("DECIMAL"), "REAL");
    assert_eq!(physical_type("BOOLEAN"), "BOOLEAN");
    assert_eq!(physical_type("DATETIME"), "DATETIME");
    assert_eq!(physical_type("TIMESTAMP"), "TIMESTAMP");
}

#[test]
fn unknown_physical_type_falls_back_to_text() {
    assert_eq!(physical_type("FANCY"), "TEXT");
    assert_eq!(physical_type(""), "TEXT");
    assert_eq!(physical_type("varchar"), "TEXT");
}

#[test]
fn constraint_clause_fragments() {
    assert_eq!(constraint_clause(&field("t", "TEXT", false, true, None, None)), "");
    assert_eq!(constraint_clause(&field("t", "TEXT", false, false, None, None)), " NOT NULL");
    assert_eq!(constraint_clause(&field("t", "TEXT", true, true, None, None)), " UNIQUE");
    assert_eq!(
        constraint_clause(&field("t", "VARCHAR", true, false, Some(1), Some(3))),
        " NOT NULL UNIQUE CHECK(length(\"t\") >= 1 AND length(\"t\") <= 3)"
    );
    assert_eq!(
        constraint_clause(&field("q", "INTEGER", false, true, Some(-5), None)),
        " CHECK(\"q\" >= -5)"
    );
    assert_eq!(
        constraint_clause(&field("q", "DECIMAL", false, true, None, Some(10))),
        " CHECK(\"q\" <= 10)"
    );
    // Bounds on a non-textual, non-numeric type produce no clause.
    assert_eq!(constraint_clause(&field("b", "BOOLEAN", false, true, Some(0), Some(1))), "");
    assert_eq!(constraint_clause(&field("b", "FANCY", false, true, Some(0), Some(1))), "");
}

#[test]
fn create_table_statement_text() {
    let fields = vec![
        field("title", "VARCHAR", false, false, None, None),
        field("count", "INTEGER", false, true, None, None),
    ];
    assert_eq!(
        create_table_sql("notes", &fields),
        "CREATE TABLE \"notes\" (id INTEGER PRIMARY KEY AUTOINCREMENT, \
         \"title\" VARCHAR(255) NOT NULL, \"count\" INTEGER, \
         created_at TIMESTAMP DEFAULT CURRENT_TIMESTAMP, updated_at TIMESTAMP DEFAULT CURRENT_TIMESTAMP)"
    );
}

#[test]
fn insert_select_drop_statement_text() {
    let fields = vec![
        ("a".to_string(), "TEXT".to_string()),
        ("b".to_string(), "INTEGER".to_string()),
    ];
    assert_eq!(insert_sql("c", &fields), "INSERT INTO \"c\" (\"a\", \"b\") VALUES (?1, ?2)");
    assert_eq!(insert_sql("c", &vec![]), "INSERT INTO \"c\" DEFAULT VALUES");
    let cols = column_list(&fields);
    assert_eq!(cols, vec!["id", "a", "b", "created_at", "updated_at"]);
    assert_eq!(
        select_sql("c", &cols),
        "SELECT \"id\", \"a\", \"b\", \"created_at\", \"updated_at\" FROM \"c\""
    );
    assert_eq!(drop_sql("c"), "DROP TABLE IF EXISTS \"c\"");
    assert_eq!(placeholder_list(0), "");
    assert_eq!(placeholder_list(1), "?1");
    assert_eq!(placeholder_list(3), "?1, ?2, ?3");
    assert_eq!(quote_ident("x"), "\"x\"");
    assert_eq!(quote_ident("a\"b"), "\"a\"\"b\"");
    assert_eq!(quote_ident("\"\""), "\"\"\"\"\"\"");
}

#[test]
fn decimal_numerals() {
    assert_eq!(u64_dec(0), "0");
    assert_eq!(u64_dec(7), "7");
    assert_eq!(u64_dec(10), "10");
    assert_eq!(u64_dec(u64::MAX), "18446744073709551615");
    assert_eq!(i64_dec(0), "0");
    assert_eq!(i64_dec(42), "42");
    assert_eq!(i64_dec(-17), "-17");
    assert_eq!(i64_dec(i64::MAX), "9223372036854775807");
    assert_eq!(i64_dec(i64::MIN), "-9223372036854775808");
}

#[test]
fn encode_field_matches_runtime_types() {
    assert_eq!(encode_field("INTEGER", Some(&JsonValue::Int(7))), SqlValue::Int(7));
    assert_eq!(encode_field("BOOLEAN", Some(&JsonValue::Bool(true))), SqlValue::Int(1));
    assert_eq!(encode_field("BOOLEAN", Some(&JsonValue::Bool(false))), SqlValue::Int(0));
    assert_eq!(
        encode_field("DECIMAL", Some(&JsonValue::Real("2.5".to_string()))),
        SqlValue::Real("2.5".to_string())
    );
    assert_eq!(
        encode_field("VARCHAR", Some(&JsonValue::Str("x".to_string()))),
        SqlValue::Text("x".to_string())
    );
    assert_eq!(
        encode_field("FANCY", Some(&JsonValue::Str("x".to_string()))),
        SqlValue::Text("x".to_string())
    );
    // Mismatches and absences become NULL.
    assert_eq!(encode_field("INTEGER", None), SqlValue::Null);
    assert_eq!(encode_field("INTEGER", Some(&JsonValue::Str("5".to_string()))), SqlValue::Null);
    assert_eq!(encode_field("INTEGER", Some(&JsonValue::Bool(true))), SqlValue::Null);
    assert_eq!(encode_field("BOOLEAN", Some(&JsonValue::Int(1))), SqlValue::Null);
    assert_eq!(encode_field("DECIMAL", Some(&JsonValue::Int(1))), SqlValue::Null);
    assert_eq!(encode_field("TEXT", Some(&JsonValue::Int(1))), SqlValue::Null);
    assert_eq!(encode_field("VARCHAR", Some(&JsonValue::Null)), SqlValue::Null);
}

#[test]
fn encode_walks_fields_in_order() {
    let fields = vec![
        ("a".to_string(), "INTEGER".to_string()),
        ("b".to_string(), "TEXT".to_string()),
        ("c".to_string(), "BOOLEAN".to_string()),
    ];
    let obj = vec![
        ("b".to_string(), JsonValue::Str("hi".to_string())),
        ("a".to_string(), JsonValue::Int(3)),
    ];
    assert_eq!(
        encode(&fields, &obj),
        vec![SqlValue::Int(3), SqlValue::Text("hi".to_string()), SqlValue::Null]
    );
}

#[test]
fn lookup_takes_the_first_match() {
    let obj = vec![
        ("k".to_string(), JsonValue::Int(1)),
        ("k".to_string(), JsonValue::Int(2)),
    ];
    assert_eq!(lookup(&obj, "k"), Some(&JsonValue::Int(1)));
    assert_eq!(lookup(&obj, "missing"), None);
}

#[test]
fn decode_pairs_names_and_cells() {
    assert_eq!(decode_cell(&SqlValue::Null), JsonValue::Null);
    assert_eq!(decode_cell(&SqlValue::Int(-3)), JsonValue::Int(-3));
    assert_eq!(decode_cell(&SqlValue::Real("1.5".to_string())), JsonValue::Real("1.5".to_string()));
    assert_eq!(decode_cell(&SqlValue::Text("t".to_string())), JsonValue::Str("t".to_string()));
    assert_eq!(decode_cell(&SqlValue::Blob(vec![1, 2])), JsonValue::Null);

    let names = vec!["id".to_string(), "v".to_string()];
    let row = vec![SqlValue::Int(1), SqlValue::Text("x".to_string())];
    assert_eq!(
        decode(&names, &row),
        vec![
            ("id".to_string(), JsonValue::Int(1)),
            ("v".to_string(), JsonValue::Str("x".to_string())),
        ]
    );
}

#[test]
fn first_text_cell_interprets_lookup_rows() {
    assert_eq!(first_text_cell(&vec![]).unwrap(), None);
    assert_eq!(
        first_text_cell(&vec![vec![SqlValue::Text("hit".to_string())]]).unwrap(),
        Some("hit".to_string())
    );
    assert_eq!(
        first_text_cell(&vec![
            vec![SqlValue::Text("first".to_string())],
            vec![SqlValue::Text("second".to_string())],
        ])
        .unwrap(),
        Some("first".to_string())
    );
    assert!(matches!(
        first_text_cell(&vec![vec![SqlValue::Int(1)]]),
        Err(MooseError::StorageError(_))
    ));
    assert!(matches!(
        first_text_cell(&vec![vec![
            SqlValue::Text("a".to_string()),
            SqlValue::Text("b".to_string())
        ]]),
        Err(MooseError::StorageError(_))
    ));
}

#[test]
fn decode_rows_accepts_exactly_matching_widths() {
    let cols = vec!["id".to_string(), "v".to_string()];
    let rows = vec![
        vec![SqlValue::Int(1), SqlValue::Text("x".to_string())],
        vec![SqlValue::Int(2), SqlValue::Null],
    ];
    assert_eq!(
        decode_rows(&cols, &rows).unwrap(),
        vec![
            vec![
                ("id".to_string(), JsonValue::Int(1)),
                ("v".to_string(), JsonValue::Str("x".to_string())),
            ],
            vec![("id".to_string(), JsonValue::Int(2)), ("v".to_string(), JsonValue::Null)],
        ]
    );
    assert!(matches!(
        decode_rows(&cols, &vec![vec![SqlValue::Int(1)]]),
        Err(MooseError::StorageError(_))
    ));
}

#[test]
fn generated_identifiers_have_the_stated_shape() {
    let charset = "ABCDEFGHIJKLMNOPQRSTUVWXYZabcdefghijklmnopqrstuvwxyz0123456789)(*&^%$#@!~";
    let uid = generate_uid(30);
    assert_eq!(uid.chars().count(), 30);
    assert!(uid.chars().all(|c| charset.contains(c)));

    let secret = generate_secret();
    let n = secret.chars().count();
    assert!((80..100).contains(&n));
    assert!(secret.chars().all(|c| charset.contains(c)));

    let simple = simple_uid(12);
    assert_eq!(simple.chars().count(), 12);
    assert!(simple.chars().all(|c| c.is_ascii_alphanumeric()));

    let nums = random_numbers(9);
    assert_eq!(nums.chars().count(), 9);
    assert!(nums.chars().all(|c| c.is_ascii_digit()));

    let id = new_collection_id();
    assert_eq!(id.len(), 13);
    assert!(id.starts_with("moo_"));
    assert!(id[4..].chars().all(|c| c.is_ascii_digit()));
    assert_ne!(new_collection_id(), id);
}

#[test]
fn asset_keys_resolve_like_the_server() {
    assert_eq!(asset_key(""), "index.html");
    assert_eq!(asset_key("/"), "index.html");
    assert_eq!(asset_key("///"), "index.html");
    assert_eq!(asset_key("/foo/bar.js"), "foo/bar.js");
    assert_eq!(asset_key("index.css"), "index.css");
    assert_eq!(asset_key("//x"), "x");
}

#[test]
fn error_labels() {
    assert_eq!(MooseError::InvalidInput.label(), "invalid input");
    assert_eq!(MooseError::AlreadyExists.label(), "already exists");
    assert_eq!(MooseError::NotFound.label(), "not found");
    assert_eq!(MooseError::StorageError("m".to_string()).label(), "storage error");
    assert_eq!(MooseError::InconsistentCatalog("m".to_string()).label(), "inconsistent catalog");
}
