//! The metadata catalog.
//!
//! One physical table, `_collections`, records for every user collection its
//! generated identifier, its name, and one row per field with the field's
//! type, uniqueness, nullability and bounds.  The catalog is created lazily:
//! its absence is the valid "zero collections" state.  Field rows are read
//! back in declaration order, which the record codec relies on.

use vstd::prelude::*;
use crate::errors::MooseError;
use crate::mapper::Field;
use crate::store::{SqlValue, SqlV, cells_model, exec_sql, query_sql};
use crate::codec::fields_model;

verus! {

/// The name of the catalog table.
pub const CATALOG_TABLE: &'static str = "_collections";

/// The catalog's physical shape: one row per field, keyed by
/// (collection name, field name), with the column order the codecs rely on.
pub const CATALOG_DDL: &'static str =
    "CREATE TABLE IF NOT EXISTS _collections (collection_id TEXT NOT NULL, collection_name TEXT NOT NULL, field_name TEXT NOT NULL, field_type TEXT NOT NULL, unique_field BOOLEAN NOT NULL, nullable BOOLEAN NOT NULL, min INTEGER, max INTEGER, created_at TIMESTAMP DEFAULT CURRENT_TIMESTAMP, updated_at TIMESTAMP DEFAULT CURRENT_TIMESTAMP, PRIMARY KEY (collection_name, field_name))";

const INSERT_FIELD_SQL: &'static str =
    "INSERT INTO _collections (collection_id, collection_name, field_name, field_type, unique_field, nullable, min, max) VALUES (?1, ?2, ?3, ?4, ?5, ?6, ?7, ?8)";

const FIELDS_OF_SQL: &'static str =
    "SELECT field_name, field_type FROM _collections WHERE collection_name = ?1 ORDER BY rowid";

const ID_TO_NAME_SQL: &'static str =
    "SELECT collection_name FROM _collections WHERE collection_id = ?1 LIMIT 1";

const NAME_TO_ID_SQL: &'static str =
    "SELECT collection_id FROM _collections WHERE collection_name = ?1 LIMIT 1";

const LIST_SQL: &'static str =
    "SELECT collection_id, collection_name FROM _collections GROUP BY collection_id, collection_name ORDER BY MIN(rowid)";

const DELETE_ROWS_SQL: &'static str = "DELETE FROM _collections WHERE collection_id = ?1";

const TABLE_EXISTS_SQL: &'static str =
    "SELECT name FROM sqlite_master WHERE type = 'table' AND name = ?1";

/// The model of an optional integer bound as a catalog cell.
pub open spec fn spec_bound_cell(b: Option<i64>) -> SqlV {
    match b {
        Option::Some(a) => SqlV::Int(a as int),
        Option::None => SqlV::Null,
    }
}

/// The catalog row of one field: the persisted projection of the field plus
/// its owning collection's identifier and name, in the catalog's column
/// order.
pub open spec fn spec_field_row(id: Seq<char>, name: Seq<char>, f: Field) -> Seq<SqlV> {
    seq![
        SqlV::Text(id),
        SqlV::Text(name),
        SqlV::Text(f.title@),
        SqlV::Text(f.field_type@),
        SqlV::Int(
            if f.unique {
                1
            } else {
                0
            },
        ),
        SqlV::Int(
            if f.nullable {
                1
            } else {
                0
            },
        ),
        spec_bound_cell(f.min),
        spec_bound_cell(f.max),
    ]
}

/// Builds the positional parameter list that persists one field.
pub fn field_params(id: &str, name: &str, f: &Field) -> (r: Vec<SqlValue>)
    ensures
        cells_model(r@) == spec_field_row(id@, name@, *f),
{
    let minc = match f.min {
        Option::Some(a) => SqlValue::Int(a),
        Option::None => SqlValue::Null,
    };
    let maxc = match f.max {
        Option::Some(a) => SqlValue::Int(a),
        Option::None => SqlValue::Null,
    };
    let r: Vec<SqlValue> = vec![
        SqlValue::Text(id.to_owned()),
        SqlValue::Text(name.to_owned()),
        SqlValue::Text(f.title.clone()),
        SqlValue::Text(f.field_type.clone()),
        SqlValue::Int(
            if f.unique {
                1
            } else {
                0
            },
        ),
        SqlValue::Int(
            if f.nullable {
                1
            } else {
                0
            },
        ),
        minc,
        maxc,
    ];
    proof {
        assert(cells_model(r@) =~= spec_field_row(id@, name@, *f));
    }
    r
}

/// The model of a returned row set.
pub open spec fn rows_model(rs: Seq<Vec<SqlValue>>) -> Seq<Seq<SqlV>> {
    rs.map_values(|r: Vec<SqlValue>| cells_model(r@))
}

/// Whether every row of a returned row set is a pair of text cells.
pub open spec fn spec_all_text_pairs(m: Seq<Seq<SqlV>>) -> bool {
    forall|i: int|
        0 <= i < m.len() ==> (#[trigger] m[i]).len() == 2 && m[i][0] is Text && m[i][1] is Text
}

/// Converts a returned row set into (text, text) pairs.  Succeeds exactly
/// when every row is a pair of text cells, as every catalog projection the
/// engine asks for is; anything else is a storage fault, reported with the
/// offending shape left unread.
pub fn rows_to_pairs(rows: &Vec<Vec<SqlValue>>) -> (r: Result<Vec<(String, String)>, MooseError>)
    ensures
        r is Ok <==> spec_all_text_pairs(rows_model(rows@)),
        r matches Ok(ps) ==> {
            &&& ps@.len() == rows@.len()
            &&& forall|i: int|
                0 <= i < ps@.len() ==> #[trigger] fields_model(ps@)[i] == (
                    rows_model(rows@)[i][0]->Text_0,
                    rows_model(rows@)[i][1]->Text_0,
                )
        },
        r matches Err(e) ==> e is StorageError,
{
    proof {
        reveal_strlit("unexpected row shape in catalog");
    }
    let ghost m = rows_model(rows@);
    let mut out: Vec<(String, String)> = Vec::new();
    let mut i: usize = 0;
    while i < rows.len()
        invariant
            0 <= i <= rows.len(),
            m == rows_model(rows@),
            m.len() == rows@.len(),
            forall|j: int| 0 <= j < rows@.len() ==> m[j] == cells_model(rows@[j]@),
            out@.len() == i,
            forall|j: int|
                0 <= j < i ==> (#[trigger] m[j]).len() == 2 && m[j][0] is Text
                    && m[j][1] is Text,
            forall|j: int|
                0 <= j < i ==> #[trigger] fields_model(out@)[j] == (
                    m[j][0]->Text_0,
                    m[j][1]->Text_0,
                ),
        decreases rows.len() - i,
    {
        let row = &rows[i];
        proof {
            assert(m[i as int] == cells_model(rows@[i as int]@));
            assert(m[i as int].len() == rows@[i as int]@.len());
        }
        if row.len() != 2 {
            proof {
                assert(!spec_all_text_pairs(m));
            }
            return Err(MooseError::StorageError(String::from_str(
                "unexpected row shape in catalog",
            )));
        }
        let a = match &row[0] {
            SqlValue::Text(s) => s.clone(),
            _ => {
                proof {
                    assert(m[i as int][0] == rows@[i as int]@[0]@);
                    assert(!(m[i as int][0] is Text));
                    assert(!spec_all_text_pairs(m));
                }
                return Err(MooseError::StorageError(String::from_str(
                    "unexpected row shape in catalog",
                )));
            },
        };
        let b = match &row[1] {
            SqlValue::Text(s) => s.clone(),
            _ => {
                proof {
                    assert(m[i as int][1] == rows@[i as int]@[1]@);
                    assert(!(m[i as int][1] is Text));
                    assert(!spec_all_text_pairs(m));
                }
                return Err(MooseError::StorageError(String::from_str(
                    "unexpected row shape in catalog",
                )));
            },
        };
        let ghost out0 = out@;
        out.push((a, b));
        proof {
            assert forall|j: int| 0 <= j <= i as int implies #[trigger] fields_model(out@)[j] == (
                m[j][0]->Text_0,
                m[j][1]->Text_0,
            ) by {
                assert(fields_model(out@)[j] == (out@[j].0@, out@[j].1@));
                if j < i as int {
                    assert(out@[j] == out0[j]);
                    assert(fields_model(out0)[j] == (out0[j].0@, out0[j].1@));
                }
            }
        }
        i += 1;
    }
    Ok(out)
}

/// Ensures the catalog table exists; idempotent create-if-absent.
pub fn ensure_catalog(conn: &rusqlite::Connection) -> (r: Result<(), MooseError>)
    ensures
        r matches Err(e) ==> e is StorageError,
{
    let params: Vec<SqlValue> = Vec::new();
    match exec_sql(conn, CATALOG_DDL, &params) {
        Ok(_) => Ok(()),
        Err(e) => Err(MooseError::StorageError(e)),
    }
}

/// Writes one catalog row: the given field, tagged with its owning
/// collection's identifier and name, with the parameter list pinned by
/// [`field_params`].
pub fn record_field(conn: &rusqlite::Connection, id: &str, name: &str, f: &Field) -> (r: Result<
    (),
    MooseError,
>)
    ensures
        r matches Err(e) ==> e is StorageError,
{
    let params = field_params(id, name, f);
    match exec_sql(conn, INSERT_FIELD_SQL, &params) {
        Ok(_) => Ok(()),
        Err(e) => Err(MooseError::StorageError(e)),
    }
}

/// Reads the ordered (field name, field type) sequence of a collection, in
/// the order the fields were declared at creation time.
pub fn fields_of(conn: &rusqlite::Connection, name: &str) -> (r: Result<
    Vec<(String, String)>,
    MooseError,
>)
    ensures
        r matches Err(e) ==> e is StorageError,
{
    let params: Vec<SqlValue> = vec![SqlValue::Text(name.to_owned())];
    match query_sql(conn, FIELDS_OF_SQL, &params) {
        Ok(rows) => rows_to_pairs(&rows),
        Err(e) => Err(MooseError::StorageError(e)),
    }
}

/// Whether a returned row is a single text cell: the shape of a hit in a
/// one-column lookup.
pub open spec fn spec_single_text(row: Seq<SqlV>) -> bool {
    row.len() == 1 && row[0] is Text
}

/// Interprets the row set of a one-column lookup: no rows is a miss, a
/// single text cell in the first row is the hit and yields that text, and
/// any other shape is a storage fault.
pub fn first_text_cell(rows: &Vec<Vec<SqlValue>>) -> (r: Result<Option<String>, MooseError>)
    ensures
        rows@.len() == 0 ==> r == Result::<Option<String>, MooseError>::Ok(None),
        rows@.len() > 0 && spec_single_text(rows_model(rows@)[0]) ==> (r matches Ok(o)
            && o matches Some(s) && s@ == rows_model(rows@)[0][0]->Text_0),
        rows@.len() > 0 && !spec_single_text(rows_model(rows@)[0]) ==> (r matches Err(e)
            && e is StorageError),
{
    proof {
        reveal_strlit("unexpected row shape in catalog");
    }
    if rows.len() == 0 {
        return Ok(None);
    }
    let row = &rows[0];
    proof {
        assert(rows_model(rows@)[0] == cells_model(rows@[0]@));
        assert(rows_model(rows@)[0].len() == rows@[0]@.len());
    }
    if row.len() != 1 {
        return Err(MooseError::StorageError(String::from_str(
            "unexpected row shape in catalog",
        )));
    }
    proof {
        assert(rows_model(rows@)[0][0] == rows@[0]@[0]@);
    }
    match &row[0] {
        SqlValue::Text(s) => Ok(Some(s.clone())),
        _ => Err(MooseError::StorageError(String::from_str("unexpected row shape in catalog"))),
    }
}

/// Resolves a collection identifier to the collection's name, or `None`
/// when the catalog holds no row for it; the returned rows are interpreted
/// by [`first_text_cell`].
pub fn collection_id_to_name(conn: &rusqlite::Connection, id: &str) -> (r: Result<
    Option<String>,
    MooseError,
>)
    ensures
        r matches Err(e) ==> e is StorageError,
{
    let params: Vec<SqlValue> = vec![SqlValue::Text(id.to_owned())];
    match query_sql(conn, ID_TO_NAME_SQL, &params) {
        Ok(rows) => first_text_cell(&rows),
        Err(e) => Err(MooseError::StorageError(e)),
    }
}

/// Resolves a collection name to the collection's identifier, or `None`
/// when the catalog holds no row for it; the returned rows are interpreted
/// by [`first_text_cell`].
pub fn collection_name_to_id(conn: &rusqlite::Connection, name: &str) -> (r: Result<
    Option<String>,
    MooseError,
>)
    ensures
        r matches Err(e) ==> e is StorageError,
{
    let params: Vec<SqlValue> = vec![SqlValue::Text(name.to_owned())];
    match query_sql(conn, NAME_TO_ID_SQL, &params) {
        Ok(rows) => first_text_cell(&rows),
        Err(e) => Err(MooseError::StorageError(e)),
    }
}

/// Reads every collection the catalog records, as (identifier, name)
/// pairs, each exactly once, in creation order.
pub fn list_catalog(conn: &rusqlite::Connection) -> (r: Result<
    Vec<(String, String)>,
    MooseError,
>)
    ensures
        r matches Err(e) ==> e is StorageError,
{
    let params: Vec<SqlValue> = Vec::new();
    match query_sql(conn, LIST_SQL, &params) {
        Ok(rows) => rows_to_pairs(&rows),
        Err(e) => Err(MooseError::StorageError(e)),
    }
}

/// Deletes every catalog row of one collection identifier; reports how many
/// rows the storage engine removed.
pub fn delete_catalog_rows(conn: &rusqlite::Connection, id: &str) -> (r: Result<
    usize,
    MooseError,
>)
    ensures
        r matches Err(e) ==> e is StorageError,
{
    let params: Vec<SqlValue> = vec![SqlValue::Text(id.to_owned())];
    match exec_sql(conn, DELETE_ROWS_SQL, &params) {
        Ok(n) => Ok(n),
        Err(e) => Err(MooseError::StorageError(e)),
    }
}

/// The decision on the storage engine's answer to an existence query: the
/// object exists exactly when a row came back.
fn rows_nonempty(rows: &Vec<Vec<SqlValue>>) -> (r: bool)
    ensures
        r == (rows@.len() > 0),
{
    rows.len() > 0
}

/// Whether a physical storage object with the given name exists, by the
/// storage engine's own catalog of its tables; the returned rows are
/// interpreted by the contracted [`rows_nonempty`] decision.
pub fn table_exists(conn: &rusqlite::Connection, name: &str) -> (r: Result<bool, MooseError>)
    ensures
        r matches Err(e) ==> e is StorageError,
{
    let params: Vec<SqlValue> = vec![SqlValue::Text(name.to_owned())];
    match query_sql(conn, TABLE_EXISTS_SQL, &params) {
        Ok(rows) => Ok(rows_nonempty(&rows)),
        Err(e) => Err(MooseError::StorageError(e)),
    }
}

} // verus!
