//! Bootstrap and process-wide configuration.
//!
//! On a fresh database this creates the settings table `_configs` with a
//! generated secret, and the `_super_admins` table with the default
//! administrator, whose password is hashed by the authentication
//! collaborator.  `load_configs` reads the persisted settings back as a
//! small key/value map.

use vstd::prelude::*;
use crate::catalog::rows_to_pairs;
use crate::errors::MooseError;
use crate::random::generate_uid;
use crate::store::{SqlValue, exec_sql, query_sql};
use crate::text::str_eq;

verus! {

const CONFIGS_DDL: &'static str =
    "CREATE TABLE IF NOT EXISTS _configs (id INTEGER PRIMARY KEY, key VARCHAR(255) NOT NULL, value TEXT NOT NULL, created_at TIMESTAMP DEFAULT CURRENT_TIMESTAMP, updated_at TIMESTAMP DEFAULT CURRENT_TIMESTAMP)";

const ADMINS_DDL: &'static str =
    "CREATE TABLE IF NOT EXISTS _super_admins (id INTEGER PRIMARY KEY, name VARCHAR(255) NOT NULL, email VARCHAR(255) NOT NULL, password VARCHAR(255) NOT NULL, created_at TIMESTAMP DEFAULT CURRENT_TIMESTAMP, updated_at TIMESTAMP DEFAULT CURRENT_TIMESTAMP)";

const INSERT_CONFIG_SQL: &'static str = "INSERT INTO _configs (key, value) VALUES (?1, ?2)";

const INSERT_ADMIN_SQL: &'static str =
    "INSERT INTO _super_admins (name, email, password) VALUES (?1, ?2, ?3)";

const LOAD_CONFIGS_SQL: &'static str = "SELECT key, value FROM _configs";

/// Relies on `bcrypt::hash` at the default cost: a salted digest of the
/// secret, or the library's error rendered as its message.  The digest is
/// salted at random, so nothing more is promised of it.
#[verifier::external_body]
fn hash_secret(secret: &str) -> (r: Result<String, String>) {
    match bcrypt::hash(secret, bcrypt::DEFAULT_COST) {
        Ok(h) => Ok(h),
        Err(e) => Err(e.to_string()),
    }
}

/// The persisted process-wide settings, read-mostly, as ordered key/value
/// pairs.
pub struct ConfigMap {
    pub entries: Vec<(String, String)>,
}

/// The model of the settings map.
pub open spec fn config_model(s: Seq<(String, String)>) -> Seq<(Seq<char>, Seq<char>)> {
    s.map_values(|p: (String, String)| (p.0@, p.1@))
}

/// The value under `key` in the settings map, or `None`.  A later entry
/// under the same key overwrites an earlier one, as a map built by
/// inserting the rows in order would have it.
pub open spec fn spec_config_lookup(m: Seq<(Seq<char>, Seq<char>)>, key: Seq<char>) -> Option<
    Seq<char>,
>
    decreases m.len(),
{
    if m.len() == 0 {
        None
    } else if m.last().0 == key {
        Some(m.last().1)
    } else {
        spec_config_lookup(m.drop_last(), key)
    }
}

impl ConfigMap {
    /// Looks up the value under `key`; a later duplicate of the key
    /// overwrites an earlier one.
    pub fn get<'a>(&'a self, key: &str) -> (r: Option<&'a String>)
        ensures
            match r {
                Option::Some(v) => spec_config_lookup(config_model(self.entries@), key@) == Some(
                    v@,
                ),
                Option::None => spec_config_lookup(config_model(self.entries@), key@) is None,
            },
    {
        let ghost m = config_model(self.entries@);
        let mut found: Option<&'a String> = None;
        let mut i: usize = 0;
        while i < self.entries.len()
            invariant
                0 <= i <= self.entries.len(),
                m == config_model(self.entries@),
                m.len() == self.entries@.len(),
                forall|j: int|
                    0 <= j < self.entries@.len() ==> m[j] == (
                        self.entries@[j].0@,
                        self.entries@[j].1@,
                    ),
                match found {
                    Option::Some(v) => spec_config_lookup(m.take(i as int), key@) == Some(v@),
                    Option::None => spec_config_lookup(m.take(i as int), key@) is None,
                },
            decreases self.entries.len() - i,
        {
            if str_eq(self.entries[i].0.as_str(), key) {
                found = Some(&self.entries[i].1);
            }
            proof {
                assert(m.take(i as int + 1).drop_last() =~= m.take(i as int));
                assert(m.take(i as int + 1).last() == m[i as int]);
            }
            i += 1;
        }
        proof {
            assert(m.take(m.len() as int) =~= m);
        }
        found
    }
}

/// A settings table holding exactly one row gives, for every key and value,
/// a map whose lookup of that key yields that value: writing one setting
/// and reading it back returns it, the string preserved.
pub proof fn lemma_single_setting_lookup(key: Seq<char>, value: Seq<char>)
    ensures
        spec_config_lookup(seq![(key, value)], key) == Some(value),
{
}

/// A key that occurs exactly once in the settings, wherever it stands and
/// whatever rows stand around it, looks up to exactly its value: a written
/// setting is read back equal, the string preserved.
pub proof fn lemma_unique_setting_lookup(m: Seq<(Seq<char>, Seq<char>)>, i: int)
    requires
        0 <= i < m.len(),
        forall|j: int| 0 <= j < m.len() && j != i ==> (#[trigger] m[j]).0 != m[i].0,
    ensures
        spec_config_lookup(m, m[i].0) == Some(m[i].1),
    decreases m.len(),
{
    if i < m.len() - 1 {
        assert(m[m.len() - 1].0 != m[i].0);
        let d = m.drop_last();
        assert(d[i] == m[i]);
        assert forall|j: int| 0 <= j < d.len() && j != i implies (#[trigger] d[j]).0 != d[i].0 by {
            assert(d[j] == m[j]);
        }
        lemma_unique_setting_lookup(d, i);
    }
}

/// Prepares a fresh database: the settings table with a generated
/// 70-character secret, and the administrators table with the default
/// administrator, password hashed by the authentication collaborator.  Does
/// nothing, successfully, when `create_new_db` is false.
pub fn initialize_db(conn: &rusqlite::Connection, create_new_db: bool) -> (r: Result<
    (),
    MooseError,
>)
    ensures
        !create_new_db ==> r == Result::<(), MooseError>::Ok(()),
        r matches Err(e) ==> e is StorageError,
{
    if !create_new_db {
        return Ok(());
    }
    let no_params: Vec<SqlValue> = Vec::new();
    match exec_sql(conn, CONFIGS_DDL, &no_params) {
        Ok(_) => (),
        Err(e) => {
            return Err(MooseError::StorageError(e));
        },
    }
    let secret = generate_uid(70);
    let config_params: Vec<SqlValue> = vec![
        SqlValue::Text(String::from_str("secret")),
        SqlValue::Text(secret),
    ];
    match exec_sql(conn, INSERT_CONFIG_SQL, &config_params) {
        Ok(_) => (),
        Err(e) => {
            return Err(MooseError::StorageError(e));
        },
    }
    match exec_sql(conn, ADMINS_DDL, &no_params) {
        Ok(_) => (),
        Err(e) => {
            return Err(MooseError::StorageError(e));
        },
    }
    let hashed = match hash_secret("moosedb") {
        Ok(h) => h,
        Err(e) => {
            let mut m = String::from_str("password hashing failed: ");
            m.append(e.as_str());
            return Err(MooseError::StorageError(m));
        },
    };
    let admin_params: Vec<SqlValue> = vec![
        SqlValue::Text(String::from_str("Admin")),
        SqlValue::Text(String::from_str("admin@moosedb")),
        SqlValue::Text(hashed),
    ];
    match exec_sql(conn, INSERT_ADMIN_SQL, &admin_params) {
        Ok(_) => Ok(()),
        Err(e) => Err(MooseError::StorageError(e)),
    }
}

/// Loads every persisted setting into a key/value map.
pub fn load_configs(conn: &rusqlite::Connection) -> (r: Result<ConfigMap, MooseError>)
    ensures
        r matches Err(e) ==> e is StorageError,
{
    let no_params: Vec<SqlValue> = Vec::new();
    let rows = match query_sql(conn, LOAD_CONFIGS_SQL, &no_params) {
        Ok(rs) => rs,
        Err(e) => {
            return Err(MooseError::StorageError(e));
        },
    };
    match rows_to_pairs(&rows) {
        Ok(entries) => Ok(ConfigMap { entries }),
        Err(e) => Err(e),
    }
}

} // verus!
