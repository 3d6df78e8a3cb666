//! The collection registry.
//!
//! The generic operations over user collections: list them, fetch a
//! collection's records with its column metadata, insert a record from a
//! JSON object, and delete a collection (catalog rows first, physical
//! storage second, so a partial failure leaves a detectable orphan, never
//! invisible data loss).

use vstd::prelude::*;
use crate::catalog::{
    CATALOG_TABLE, collection_id_to_name, delete_catalog_rows, fields_of, rows_model,
    table_exists,
};
use crate::codec::{JsonValue, decode, encode, fields_model, obj_model, spec_decode};
use crate::errors::MooseError;
use crate::mapper::{quote_ident, spec_quoted};
use crate::store::{SqlValue, cells_model, exec_sql, query_sql};
use crate::text::{spec_u64_dec, u64_dec};

verus! {

/// The field names of an ordered field list.
pub open spec fn spec_field_names(fm: Seq<(Seq<char>, Seq<char>)>) -> Seq<Seq<char>> {
    fm.map_values(|f: (Seq<char>, Seq<char>)| f.0)
}

/// A comma-separated list of quoted column names.
pub open spec fn spec_name_list(names: Seq<Seq<char>>) -> Seq<char>
    decreases names.len(),
{
    if names.len() == 0 {
        Seq::empty()
    } else if names.len() == 1 {
        spec_quoted(names[0])
    } else {
        spec_name_list(names.drop_last()) + ", "@ + spec_quoted(names.last())
    }
}

/// A comma-separated list of the first `n` positional placeholders.
pub open spec fn spec_placeholder_list(n: int) -> Seq<char>
    decreases n,
{
    if n <= 0 {
        Seq::empty()
    } else if n == 1 {
        "?1"@
    } else {
        spec_placeholder_list(n - 1) + ", ?"@ + spec_u64_dec(n)
    }
}

/// The column list a collection presents: the identifier column, one column
/// per field in catalog order, and the two engine-managed timestamps.
pub open spec fn spec_column_list(fm: Seq<(Seq<char>, Seq<char>)>) -> Seq<Seq<char>> {
    seq!["id"@] + spec_field_names(fm) + seq!["created_at"@, "updated_at"@]
}

/// The statement that reads every record of a collection, naming each
/// column in presentation order.
pub open spec fn spec_select_sql(name: Seq<char>, cols: Seq<Seq<char>>) -> Seq<char> {
    "SELECT "@ + spec_name_list(cols) + " FROM "@ + spec_quoted(name)
}

/// The statement that inserts one record positionally: one placeholder per
/// field in catalog order; with no fields at all, a default-values insert.
pub open spec fn spec_insert_sql(name: Seq<char>, names: Seq<Seq<char>>) -> Seq<char> {
    if names.len() == 0 {
        "INSERT INTO "@ + spec_quoted(name) + " DEFAULT VALUES"@
    } else {
        "INSERT INTO "@ + spec_quoted(name) + " ("@ + spec_name_list(names) + ") VALUES ("@
            + spec_placeholder_list(names.len() as int) + ")"@
    }
}

/// The statement that drops a collection's physical storage, idempotently.
pub open spec fn spec_drop_sql(name: Seq<char>) -> Seq<char> {
    "DROP TABLE IF EXISTS "@ + spec_quoted(name)
}

/// Builds the column list a collection presents.
pub fn column_list(fields: &Vec<(String, String)>) -> (r: Vec<String>)
    ensures
        r@.map_values(|s: String| s@) == spec_column_list(fields_model(fields@)),
        r@.len() == fields@.len() + 3,
{
    let ghost fm = fields_model(fields@);
    let mut r: Vec<String> = Vec::new();
    r.push(String::from_str("id"));
    let mut i: usize = 0;
    while i < fields.len()
        invariant
            0 <= i <= fields.len(),
            fm == fields_model(fields@),
            fm.len() == fields@.len(),
            forall|j: int| 0 <= j < fields@.len() ==> fm[j] == (fields@[j].0@, fields@[j].1@),
            r@.len() == i + 1,
            r@[0]@ == "id"@,
            forall|j: int| 0 <= j < i ==> #[trigger] r@[j + 1]@ == spec_field_names(fm)[j],
        decreases fields.len() - i,
    {
        r.push(fields[i].0.clone());
        i += 1;
    }
    r.push(String::from_str("created_at"));
    r.push(String::from_str("updated_at"));
    proof {
        let lhs = r@.map_values(|s: String| s@);
        let rhs = spec_column_list(fm);
        assert(lhs.len() == fm.len() + 3);
        assert forall|j: int| 0 <= j < lhs.len() implies lhs[j] == rhs[j] by {
            assert(lhs[j] == r@[j]@);
            if 1 <= j < fm.len() + 1 {
                assert(r@[(j - 1) + 1]@ == spec_field_names(fm)[j - 1]);
                assert(rhs[j] == spec_field_names(fm)[j - 1]);
            }
        }
        assert(lhs =~= rhs);
    }
    r
}

/// Builds a comma-separated list of quoted column names.
pub fn name_list(cols: &Vec<String>) -> (r: String)
    ensures
        r@ == spec_name_list(cols@.map_values(|s: String| s@)),
{
    let ghost nm = cols@.map_values(|s: String| s@);
    let mut r = String::new();
    let mut i: usize = 0;
    while i < cols.len()
        invariant
            0 <= i <= cols.len(),
            nm == cols@.map_values(|s: String| s@),
            nm.len() == cols@.len(),
            forall|j: int| 0 <= j < cols@.len() ==> nm[j] == cols@[j]@,
            r@ == spec_name_list(nm.take(i as int)),
        decreases cols.len() - i,
    {
        if i > 0 {
            r.append(", ");
        }
        r.append(quote_ident(cols[i].as_str()).as_str());
        proof {
            assert(nm.take(i as int + 1).drop_last() =~= nm.take(i as int));
            assert(nm.take(i as int + 1).last() == nm[i as int]);
            assert(r@ =~= spec_name_list(nm.take(i as int + 1)));
        }
        i += 1;
    }
    proof {
        assert(nm.take(nm.len() as int) =~= nm);
    }
    r
}

/// Builds a comma-separated list of the first `n` positional placeholders.
pub fn placeholder_list(n: usize) -> (r: String)
    ensures
        r@ == spec_placeholder_list(n as int),
{
    let mut r = String::new();
    let mut k: usize = 0;
    while k < n
        invariant
            0 <= k <= n,
            r@ == spec_placeholder_list(k as int),
        decreases n - k,
    {
        if k == 0 {
            r.append("?1");
        } else {
            r.append(", ?");
            r.append(u64_dec((k as u64) + 1).as_str());
        }
        proof {
            assert(r@ =~= spec_placeholder_list(k as int + 1));
        }
        k += 1;
    }
    r
}

/// Builds the statement that reads every record of a collection.
pub fn select_sql(name: &str, cols: &Vec<String>) -> (r: String)
    ensures
        r@ == spec_select_sql(name@, cols@.map_values(|s: String| s@)),
{
    let mut r = String::from_str("SELECT ");
    r.append(name_list(cols).as_str());
    r.append(" FROM ");
    r.append(quote_ident(name).as_str());
    proof {
        assert(r@ =~= spec_select_sql(name@, cols@.map_values(|s: String| s@)));
    }
    r
}

/// Builds the statement that inserts one record positionally.
pub fn insert_sql(name: &str, fields: &Vec<(String, String)>) -> (r: String)
    ensures
        r@ == spec_insert_sql(name@, spec_field_names(fields_model(fields@))),
{
    let ghost names = spec_field_names(fields_model(fields@));
    let mut r = String::from_str("INSERT INTO ");
    r.append(quote_ident(name).as_str());
    if fields.len() == 0 {
        r.append(" DEFAULT VALUES");
        proof {
            assert(r@ =~= spec_insert_sql(name@, names));
        }
        return r;
    }
    let mut cols: Vec<String> = Vec::new();
    let mut i: usize = 0;
    while i < fields.len()
        invariant
            0 <= i <= fields.len(),
            names == spec_field_names(fields_model(fields@)),
            names.len() == fields@.len(),
            forall|j: int| 0 <= j < fields@.len() ==> names[j] == fields@[j].0@,
            cols@.len() == i,
            forall|j: int| 0 <= j < i ==> #[trigger] cols@[j]@ == names[j],
        decreases fields.len() - i,
    {
        cols.push(fields[i].0.clone());
        i += 1;
    }
    r.append(" (");
    proof {
        assert(cols@.map_values(|s: String| s@) =~= names);
    }
    r.append(name_list(&cols).as_str());
    r.append(") VALUES (");
    r.append(placeholder_list(fields.len()).as_str());
    r.append(")");
    proof {
        assert(r@ =~= spec_insert_sql(name@, names));
    }
    r
}

/// Builds the statement that drops a collection's physical storage.
pub fn drop_sql(name: &str) -> (r: String)
    ensures
        r@ == spec_drop_sql(name@),
{
    let mut r = String::from_str("DROP TABLE IF EXISTS ");
    r.append(quote_ident(name).as_str());
    proof {
        assert(r@ =~= spec_drop_sql(name@));
    }
    r
}

/// The decision after resolving a collection identifier: an unknown
/// identifier is `NotFound`; a resolved name is passed through.
pub fn require_found(opt: Option<String>) -> (r: Result<String, MooseError>)
    ensures
        opt matches Some(n) ==> r == Result::<String, MooseError>::Ok(n),
        opt is None ==> r == Result::<String, MooseError>::Err(MooseError::NotFound),
{
    match opt {
        Option::Some(n) => Ok(n),
        Option::None => Err(MooseError::NotFound),
    }
}

/// The decision at the head of the listing: when the catalog table does
/// not yet exist, the listing is the empty sequence — the valid "zero
/// collections" state, not an error; when it exists, the catalog itself
/// answers.
pub fn plan_listing(present: bool) -> (r: Option<Vec<(String, String)>>)
    ensures
        present <==> r is None,
        r matches Some(v) ==> v@.len() == 0,
{
    if present {
        None
    } else {
        Some(Vec::new())
    }
}

/// Lists every collection as (identifier, name) pairs.  A catalog table
/// that does not yet exist yields the empty sequence, not an error, with
/// the decision pinned by [`plan_listing`].
pub fn list_collections(conn: &rusqlite::Connection) -> (r: Result<
    Vec<(String, String)>,
    MooseError,
>)
    ensures
        r matches Err(e) ==> e is StorageError,
{
    let present = match table_exists(conn, CATALOG_TABLE) {
        Ok(b) => b,
        Err(e) => {
            return Err(e);
        },
    };
    match plan_listing(present) {
        Option::Some(empty) => Ok(empty),
        Option::None => crate::catalog::list_catalog(conn),
    }
}

/// Decodes a returned row set under the given column names.  Succeeds
/// exactly when every row has one cell per column — a row of another width
/// is a storage fault — and each decoded record pairs the column names with
/// the row's cells positionally.
pub fn decode_rows(cols: &Vec<String>, rows: &Vec<Vec<SqlValue>>) -> (r: Result<
    Vec<Vec<(String, JsonValue)>>,
    MooseError,
>)
    ensures
        r is Ok <==> (forall|i: int|
            0 <= i < rows@.len() ==> (#[trigger] rows_model(rows@)[i]).len() == cols@.len()),
        r matches Ok(recs) ==> recs@.len() == rows@.len() && (forall|i: int|
            0 <= i < rows@.len() ==> obj_model(#[trigger] recs@[i]@) == spec_decode(
                cols@.map_values(|n: String| n@),
                rows_model(rows@)[i],
            )),
        r matches Err(e) ==> e is StorageError,
{
    proof {
        reveal_strlit("unexpected row shape in collection");
    }
    let ghost rm = rows_model(rows@);
    let ghost nm = cols@.map_values(|n: String| n@);
    let mut recs: Vec<Vec<(String, JsonValue)>> = Vec::new();
    let mut i: usize = 0;
    while i < rows.len()
        invariant
            0 <= i <= rows.len(),
            rm == rows_model(rows@),
            nm == cols@.map_values(|n: String| n@),
            rm.len() == rows@.len(),
            nm.len() == cols@.len(),
            forall|j: int| 0 <= j < rows@.len() ==> rm[j] == cells_model(rows@[j]@),
            recs@.len() == i,
            forall|j: int| 0 <= j < i ==> (#[trigger] rm[j]).len() == cols@.len(),
            forall|j: int| 0 <= j < i ==> obj_model(#[trigger] recs@[j]@) == spec_decode(nm, rm[j]),
        decreases rows.len() - i,
    {
        let row = &rows[i];
        proof {
            assert(rm[i as int] == cells_model(rows@[i as int]@));
            assert(rm[i as int].len() == rows@[i as int]@.len());
        }
        if row.len() != cols.len() {
            proof {
                assert(rm[i as int].len() != cols@.len());
            }
            return Err(MooseError::StorageError(String::from_str(
                "unexpected row shape in collection",
            )));
        }
        let rec = decode(cols, row);
        let ghost recs0 = recs@;
        recs.push(rec);
        proof {
            assert forall|j: int| 0 <= j < i as int + 1 implies obj_model(#[trigger] recs@[j]@)
                == spec_decode(nm, rm[j]) by {
                if j < i as int {
                    assert(recs@[j] == recs0[j]);
                }
            }
        }
        i += 1;
    }
    Ok(recs)
}

/// Fetches every record of a collection, decoded into JSON objects, along
/// with the resolved column list: the identifier column, each field in
/// catalog order, and the two timestamp columns.  Fails with `NotFound`
/// when the identifier resolves to no collection.
pub fn get_records(conn: &rusqlite::Connection, collection_id: &str) -> (r: Result<
    (Vec<String>, Vec<Vec<(String, JsonValue)>>),
    MooseError,
>)
    ensures
        r matches Err(e) ==> (e is NotFound || e is StorageError),
        r matches Ok(p) ==> p.0@.len() >= 3 && p.0@[0]@ == "id"@ && p.0@[p.0@.len() - 2]@
            == "created_at"@ && p.0@[p.0@.len() - 1]@ == "updated_at"@,
        r matches Ok(p) ==> forall|i: int|
            0 <= i < p.1@.len() ==> (#[trigger] obj_model(p.1@[i]@)).len() == p.0@.len() && (
            forall|j: int| 0 <= j < p.0@.len() ==> obj_model(p.1@[i]@)[j].0 == p.0@[j]@),
{
    let resolved = match collection_id_to_name(conn, collection_id) {
        Ok(o) => o,
        Err(e) => {
            return Err(e);
        },
    };
    let name = match require_found(resolved) {
        Ok(n) => n,
        Err(e) => {
            return Err(e);
        },
    };
    let fields = match fields_of(conn, name.as_str()) {
        Ok(fs) => fs,
        Err(e) => {
            return Err(e);
        },
    };
    let cols = column_list(&fields);
    proof {
        let cm = cols@.map_values(|s: String| s@);
        let fm = fields_model(fields@);
        assert(cm.len() == cols@.len());
        assert(cm == spec_column_list(fm));
        assert(cm[0] == "id"@);
        assert(cm[cm.len() - 2] == "created_at"@);
        assert(cm[cm.len() - 1] == "updated_at"@);
        assert(cols@[0]@ == cm[0]);
        assert(cols@[cols@.len() - 2]@ == cm[cm.len() - 2]);
        assert(cols@[cols@.len() - 1]@ == cm[cm.len() - 1]);
    }
    let sql = select_sql(name.as_str(), &cols);
    let params: Vec<SqlValue> = Vec::new();
    let rows = match query_sql(conn, sql.as_str(), &params) {
        Ok(rs) => rs,
        Err(e) => {
            return Err(MooseError::StorageError(e));
        },
    };
    let records = match decode_rows(&cols, &rows) {
        Ok(recs) => recs,
        Err(e) => {
            return Err(e);
        },
    };
    proof {
        let nm = cols@.map_values(|n: String| n@);
        assert forall|i: int| 0 <= i < records@.len() implies (#[trigger] obj_model(
            records@[i]@,
        )).len() == cols@.len() && (forall|j: int|
            0 <= j < cols@.len() ==> obj_model(records@[i]@)[j].0 == cols@[j]@) by {
            assert(obj_model(records@[i]@) == spec_decode(nm, rows_model(rows@)[i]));
            assert forall|j: int| 0 <= j < cols@.len() implies obj_model(records@[i]@)[j].0
                == cols@[j]@ by {
                assert(nm[j] == cols@[j]@);
            }
        }
    }
    Ok((cols, records))
}

/// Inserts one record into a collection: resolves the identifier, loads the
/// catalog fields, encodes the JSON object positionally (missing or
/// mismatched fields become NULL), and lets the storage engine's own
/// constraints accept or reject the row.  Fails with `NotFound` for an
/// unknown identifier and `StorageError`, message verbatim, for a rejected
/// insertion.
pub fn create_record(conn: &rusqlite::Connection, collection_id: &str, record: &Vec<
    (String, JsonValue),
>) -> (r: Result<(), MooseError>)
    ensures
        r matches Err(e) ==> (e is NotFound || e is StorageError),
{
    let resolved = match collection_id_to_name(conn, collection_id) {
        Ok(o) => o,
        Err(e) => {
            return Err(e);
        },
    };
    let name = match require_found(resolved) {
        Ok(n) => n,
        Err(e) => {
            return Err(e);
        },
    };
    let fields = match fields_of(conn, name.as_str()) {
        Ok(fs) => fs,
        Err(e) => {
            return Err(e);
        },
    };
    let params = encode(&fields, record);
    let sql = insert_sql(name.as_str(), &fields);
    match exec_sql(conn, sql.as_str(), &params) {
        Ok(_) => Ok(()),
        Err(e) => Err(MooseError::StorageError(e)),
    }
}

/// Deletes a collection: resolves the identifier (`NotFound` when unknown,
/// a second deletion included), removes every catalog row first, then drops
/// the physical storage idempotently.  When the drop fails after the
/// catalog rows were removed, the split is reported as
/// `InconsistentCatalog`, never hidden.
pub fn delete_collection(conn: &rusqlite::Connection, collection_id: &str) -> (r: Result<
    (),
    MooseError,
>)
    ensures
        r matches Err(e) ==> (e is NotFound || e is StorageError || e is InconsistentCatalog),
{
    let resolved = match collection_id_to_name(conn, collection_id) {
        Ok(o) => o,
        Err(e) => {
            return Err(e);
        },
    };
    let name = match require_found(resolved) {
        Ok(n) => n,
        Err(e) => {
            return Err(e);
        },
    };
    match delete_catalog_rows(conn, collection_id) {
        Ok(_) => (),
        Err(e) => {
            return Err(e);
        },
    }
    let sql = drop_sql(name.as_str());
    let params: Vec<SqlValue> = Vec::new();
    match exec_sql(conn, sql.as_str(), &params) {
        Ok(_) => Ok(()),
        Err(e) => Err(MooseError::InconsistentCatalog(e)),
    }
}

} // verus!
