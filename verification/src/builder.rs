//! The collection builder.
//!
//! Turns a collection name and an ordered field list into physical storage
//! and catalog rows: one statement creates the table (an auto-incrementing
//! identifier column, one physical column per field in declaration order,
//! two engine-managed timestamp columns), then one catalog row is written
//! per field, tagged with a freshly drawn collection identifier.

use vstd::prelude::*;
use crate::catalog::{ensure_catalog, record_field, table_exists};
use crate::errors::MooseError;
use crate::mapper::{
    Field, constraint_clause, physical_type, quote_ident, spec_constraint_clause,
    spec_physical_type, spec_quoted,
};
use crate::store::{SqlValue, exec_sql};
use crate::random::{DIGIT_CHARSET, new_collection_id};

verus! {

/// The column definition of one field: the quoted column name, the physical
/// type from the mapper, and the field's constraint clause.
pub open spec fn spec_column_def(f: Field) -> Seq<char> {
    spec_quoted(f.title@) + " "@ + spec_physical_type(f.field_type@) + spec_constraint_clause(f)
}

/// The concatenation of `, <column definition>` over a field list, in
/// declaration order.
pub open spec fn spec_column_defs(fields: Seq<Field>) -> Seq<char>
    decreases fields.len(),
{
    if fields.len() == 0 {
        Seq::empty()
    } else {
        spec_column_defs(fields.drop_last()) + ", "@ + spec_column_def(fields.last())
    }
}

/// The single statement that creates a collection's physical storage.
pub open spec fn spec_create_table_sql(name: Seq<char>, fields: Seq<Field>) -> Seq<char> {
    "CREATE TABLE "@ + spec_quoted(name) + " (id INTEGER PRIMARY KEY AUTOINCREMENT"@
        + spec_column_defs(fields)
        + ", created_at TIMESTAMP DEFAULT CURRENT_TIMESTAMP, updated_at TIMESTAMP DEFAULT CURRENT_TIMESTAMP)"@
}

/// The column definition of one field.
pub fn column_def(f: &Field) -> (r: String)
    ensures
        r@ == spec_column_def(*f),
{
    let mut r = quote_ident(f.title.as_str());
    r.append(" ");
    r.append(physical_type(f.field_type.as_str()));
    r.append(constraint_clause(f).as_str());
    proof {
        assert(r@ =~= spec_column_def(*f));
    }
    r
}

/// Builds the statement that creates a collection's physical storage.
pub fn create_table_sql(name: &str, fields: &Vec<Field>) -> (r: String)
    ensures
        r@ == spec_create_table_sql(name@, fields@),
{
    let ghost head = "CREATE TABLE "@ + spec_quoted(name@)
        + " (id INTEGER PRIMARY KEY AUTOINCREMENT"@;
    let mut r = String::from_str("CREATE TABLE ");
    r.append(quote_ident(name).as_str());
    r.append(" (id INTEGER PRIMARY KEY AUTOINCREMENT");
    proof {
        assert(r@ =~= head + spec_column_defs(fields@.take(0)));
    }
    let mut i: usize = 0;
    while i < fields.len()
        invariant
            0 <= i <= fields.len(),
            r@ == head + spec_column_defs(fields@.take(i as int)),
        decreases fields.len() - i,
    {
        r.append(", ");
        r.append(column_def(&fields[i]).as_str());
        proof {
            assert(fields@.take(i as int + 1).drop_last() =~= fields@.take(i as int));
            assert(fields@.take(i as int + 1).last() == fields@[i as int]);
            assert(r@ =~= head + spec_column_defs(fields@.take(i as int + 1)));
        }
        i += 1;
    }
    r.append(
        ", created_at TIMESTAMP DEFAULT CURRENT_TIMESTAMP, updated_at TIMESTAMP DEFAULT CURRENT_TIMESTAMP)",
    );
    proof {
        assert(fields@.take(fields@.len() as int) =~= fields@);
        assert(r@ =~= spec_create_table_sql(name@, fields@));
    }
    r
}

/// The decision at the head of collection creation: an empty name is
/// invalid input; a name whose physical storage already exists collides;
/// anything else may proceed.
pub fn plan_create(name: &str, exists: bool) -> (r: Result<(), MooseError>)
    ensures
        name@.len() == 0 ==> r == Result::<(), MooseError>::Err(MooseError::InvalidInput),
        name@.len() > 0 && exists ==> r == Result::<(), MooseError>::Err(
            MooseError::AlreadyExists,
        ),
        name@.len() > 0 && !exists ==> r == Result::<(), MooseError>::Ok(()),
{
    if name.is_empty() {
        Err(MooseError::InvalidInput)
    } else if exists {
        Err(MooseError::AlreadyExists)
    } else {
        Ok(())
    }
}

/// Creates a collection: fails with `InvalidInput` exactly when the name is
/// empty, with `AlreadyExists` when physical storage of that name exists;
/// otherwise ensures the catalog table, draws a fresh identifier, creates
/// the physical storage, and writes one catalog row per field.  When a
/// catalog row fails after the physical storage was created, the split is
/// reported as `InconsistentCatalog`, never hidden.  On success the new
/// identifier is returned: `moo_` and nine digits.
pub fn create_collection(conn: &rusqlite::Connection, name: &str, fields: &Vec<Field>) -> (r:
    Result<String, MooseError>)
    ensures
        r == Result::<String, MooseError>::Err(MooseError::InvalidInput) <==> name@.len() == 0,
        r matches Ok(id) ==> id@.len() == 13 && id@.subrange(0, 4) == "moo_"@ && (forall|i: int|
            4 <= i < 13 ==> DIGIT_CHARSET@.contains(#[trigger] id@[i])),
        r matches Err(e) ==> (e is InvalidInput || e is AlreadyExists || e is StorageError
            || e is InconsistentCatalog),
{
    if name.is_empty() {
        return Err(MooseError::InvalidInput);
    }
    let exists = match table_exists(conn, name) {
        Ok(b) => b,
        Err(e) => {
            return Err(e);
        },
    };
    match plan_create(name, exists) {
        Ok(_) => (),
        Err(e) => {
            return Err(e);
        },
    }
    match ensure_catalog(conn) {
        Ok(_) => (),
        Err(e) => {
            return Err(e);
        },
    }
    let id = new_collection_id();
    let sql = create_table_sql(name, fields);
    let params: Vec<SqlValue> = Vec::new();
    match exec_sql(conn, sql.as_str(), &params) {
        Ok(_) => (),
        Err(e) => {
            return Err(MooseError::StorageError(e));
        },
    }
    let mut i: usize = 0;
    while i < fields.len()
        invariant
            name@.len() > 0,
            id@.len() == 13,
            id@.subrange(0, 4) == "moo_"@,
            forall|j: int| 4 <= j < 13 ==> DIGIT_CHARSET@.contains(#[trigger] id@[j]),
        decreases fields.len() - i,
    {
        match record_field(conn, id.as_str(), name, &fields[i]) {
            Ok(_) => (),
            Err(e) => {
                let m = match e {
                    MooseError::StorageError(m) => m,
                    _ => String::new(),
                };
                return Err(MooseError::InconsistentCatalog(m));
            },
        }
        i += 1;
    }
    Ok(id)
}

} // verus!
