//! The storage substrate: SQLite, reached through trusted wrappers.
//!
//! Everything the engine asks of the storage engine goes through the two
//! operations here: `exec_sql` for statements and `query_sql` for queries.
//! Values cross the boundary as [`SqlValue`], the engine's own plain form of
//! a physical cell, so that all logic above this module is verified.

use vstd::prelude::*;

verus! {

/// One physical storage cell, as the engine sees it.
///
/// A `Real` carries the decimal rendering of the floating-point cell; the
/// rendering round-trips exactly, and the engine itself never computes with
/// it, so the engine stays free of floating point.  A `Real` holding
/// anything but such a rendering is bound to the storage engine as zero.
#[derive(Debug, Clone, PartialEq, Eq)]
pub enum SqlValue {
    Null,
    Int(i64),
    Real(String),
    Text(String),
    Blob(Vec<u8>),
}

/// The mathematical model of a physical cell: integers unbounded, strings
/// and blobs as sequences.
pub enum SqlV {
    Null,
    Int(int),
    Real(Seq<char>),
    Text(Seq<char>),
    Blob(Seq<u8>),
}

impl View for SqlValue {
    type V = SqlV;

    open spec fn view(&self) -> SqlV {
        match self {
            SqlValue::Null => SqlV::Null,
            SqlValue::Int(i) => SqlV::Int(*i as int),
            SqlValue::Real(s) => SqlV::Real(s@),
            SqlValue::Text(s) => SqlV::Text(s@),
            SqlValue::Blob(b) => SqlV::Blob(b@),
        }
    }
}

/// The models of a row of cells.
pub open spec fn cells_model(s: Seq<SqlValue>) -> Seq<SqlV> {
    s.map_values(|c: SqlValue| c@)
}

#[verifier::external_type_specification]
#[verifier::external_body]
pub struct ExConnection(rusqlite::Connection);

#[verifier::external_type_specification]
#[verifier::external_body]
pub struct ExValue(rusqlite::types::Value);

#[verifier::external_type_specification]
#[verifier::external_body]
pub struct ExValueRef<'a>(rusqlite::types::ValueRef<'a>);

/// Relies on `rusqlite::types::Value`'s constructors: converts one cell of
/// the engine's own form into the storage engine's form, variant for
/// variant.  A `Real` is parsed back into the floating-point number whose
/// rendering it is.
#[verifier::external_body]
fn to_sql_value(v: &SqlValue) -> (r: rusqlite::types::Value) {
    match v {
        SqlValue::Null => rusqlite::types::Value::Null,
        SqlValue::Int(i) => rusqlite::types::Value::Integer(*i),
        SqlValue::Real(s) => rusqlite::types::Value::Real(s.parse().unwrap_or_default()),
        SqlValue::Text(s) => rusqlite::types::Value::Text(s.clone()),
        SqlValue::Blob(b) => rusqlite::types::Value::Blob(b.clone()),
    }
}

/// Relies on `rusqlite::types::ValueRef`: converts one cell of a returned
/// row into the engine's own form, variant for variant.  A floating-point
/// cell becomes its decimal rendering; text with invalid byte sequences is
/// replaced, never fatal.
#[verifier::external_body]
fn cell_value(v: rusqlite::types::ValueRef<'_>) -> (r: SqlValue) {
    match v {
        rusqlite::types::ValueRef::Null => SqlValue::Null,
        rusqlite::types::ValueRef::Integer(i) => SqlValue::Int(i),
        rusqlite::types::ValueRef::Real(f) => SqlValue::Real(f.to_string()),
        rusqlite::types::ValueRef::Text(t) => SqlValue::Text(String::from_utf8_lossy(t).into_owned()),
        rusqlite::types::ValueRef::Blob(b) => SqlValue::Blob(b.to_vec()),
    }
}

/// Relies on `rusqlite::Connection::execute`: runs one statement with the
/// given positional parameters and reports the storage engine's answer.  On
/// failure the engine's message is carried verbatim.
#[verifier::external_body]
pub(crate) fn exec_sql(conn: &rusqlite::Connection, sql: &str, params: &Vec<SqlValue>) -> (r: Result<
    usize,
    String,
>) {
    let vals: Vec<rusqlite::types::Value> = params.iter().map(to_sql_value).collect();
    match conn.execute(sql, rusqlite::params_from_iter(vals)) {
        Ok(n) => Ok(n),
        Err(e) => Err(e.to_string()),
    }
}

/// Relies on `rusqlite::Connection::prepare`, `Statement::query` and
/// `Rows::next`: runs one query with the given positional parameters and
/// hands back every returned row, cell for cell, in the engine's own form.
/// On failure the engine's message is carried verbatim.
#[verifier::external_body]
pub(crate) fn query_sql(conn: &rusqlite::Connection, sql: &str, params: &Vec<SqlValue>) -> (r:
    Result<Vec<Vec<SqlValue>>, String>) {
    let vals: Vec<rusqlite::types::Value> = params.iter().map(to_sql_value).collect();
    let mut stmt = conn.prepare(sql).map_err(|e| e.to_string())?;
    let ncols = stmt.column_count();
    let mut rows = stmt.query(rusqlite::params_from_iter(vals)).map_err(|e| e.to_string())?;
    let mut out: Vec<Vec<SqlValue>> = Vec::new();
    while let Some(row) = rows.next().map_err(|e| e.to_string())? {
        let mut cells: Vec<SqlValue> = Vec::new();
        for i in 0..ncols {
            cells.push(cell_value(row.get_ref(i).map_err(|e| e.to_string())?));
        }
        out.push(cells);
    }
    Ok(out)
}

} // verus!
