//! Bootstrap of a fresh database: settings, secret, default administrator.

use moosedb::admin::{initialize_db, load_configs};
use moosedb::errors::MooseError;

fn conn() -> rusqlite::Connection {
    rusqlite::Connection::open_in_memory().unwrap()
}

#[test]
fn initialize_db_creates_settings_and_admin() {
    let c = conn();
    initialize_db(&c, true).unwrap();

    let configs = load_configs(&c).unwrap();
    let secret = configs.get("secret").unwrap();
    assert_eq!(secret.chars().count(), 70);
    assert!(configs.get("missing").is_none());

    let secret_rows: i64 = c
        .query_row("SELECT COUNT(*) FROM _configs WHERE key = 'secret'", [], |row| row.get(0))
        .unwrap();
    assert_eq!(secret_rows, 1);

    let (email, hash): (String, String) = c
        .query_row("SELECT email, password FROM _super_admins", [], |row| {
            Ok((row.get(0)?, row.get(1)?))
        })
        .unwrap();
    assert_eq!(email, "admin@moosedb");
    assert_ne!(hash, "moosedb");
    assert!(bcrypt::verify("moosedb", &hash).unwrap());
    assert!(!bcrypt::verify("wrong", &hash).unwrap());
}

#[test]
fn initialize_db_does_nothing_on_an_existing_database() {
    let c = conn();
    assert!(initialize_db(&c, false).is_ok());
    assert!(matches!(load_configs(&c), Err(MooseError::StorageError(_))));
}

#[test]
fn config_lookup_lets_a_later_duplicate_overwrite() {
    let c = conn();
    initialize_db(&c, true).unwrap();
    c.execute(
        "INSERT INTO _configs (key, value) VALUES ('secret', 'overwritten')",
        [],
    )
    .unwrap();
    let configs = load_configs(&c).unwrap();
    assert_eq!(configs.get("secret").unwrap(), "overwritten");
}
