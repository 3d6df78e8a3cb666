//! The constraint and type mapper.
//!
//! A pure mapping from an abstract field definition to the storage
//! engine's physical column type and declarative constraint clause.

use vstd::prelude::*;
use crate::text::{str_eq, i64_dec, spec_i64_dec};

verus! {

/// One named, typed, constrained attribute of a collection.
#[derive(Debug, Clone, PartialEq, Eq)]
pub struct Field {
    /// The field's name; used as the physical column name.
    pub title: String,
    /// The abstract type: one of VARCHAR, TEXT, INTEGER, DECIMAL, BOOLEAN,
    /// DATETIME, TIMESTAMP.  Any other value falls back to the generic text
    /// physical type; that is deliberate, not an error.
    pub field_type: String,
    /// Whether the column gets a UNIQUE constraint.
    pub unique: bool,
    /// Whether the column may hold NULL; `false` adds NOT NULL.
    pub nullable: bool,
    /// Lower bound: a length bound for textual types, a value bound for
    /// numeric types, ignored for the rest.
    pub min: Option<i64>,
    /// Upper bound, same semantics as `min`.
    pub max: Option<i64>,
}

/// The abstract types whose bounds are length bounds.
pub open spec fn spec_is_textual(t: Seq<char>) -> bool {
    t == "VARCHAR"@ || t == "TEXT"@
}

/// The abstract types whose bounds are value bounds.
pub open spec fn spec_is_numeric(t: Seq<char>) -> bool {
    t == "INTEGER"@ || t == "DECIMAL"@
}

/// The storage engine's column type keyword for an abstract type.  Unknown
/// abstract types map to the generic text type: a permissive fallback.
pub open spec fn spec_physical_type(t: Seq<char>) -> Seq<char> {
    if t == "VARCHAR"@ {
        "VARCHAR(255)"@
    } else if t == "TEXT"@ {
        "TEXT"@
    } else if t == "INTEGER"@ {
        "INTEGER"@
    } else if t == "DECIMAL"@ {
        "REAL"@
    } else if t == "BOOLEAN"@ {
        "BOOLEAN"@
    } else if t == "DATETIME"@ {
        "DATETIME"@
    } else if t == "TIMESTAMP"@ {
        "TIMESTAMP"@
    } else {
        "TEXT"@
    }
}

/// A name with every double quote doubled, so that it can stand between
/// double quotes as one identifier.
pub open spec fn spec_escape_quotes(s: Seq<char>) -> Seq<char>
    decreases s.len(),
{
    if s.len() == 0 {
        Seq::empty()
    } else {
        spec_escape_quotes(s.drop_last()) + (if s.last() == '"' {
            seq!['"', '"']
        } else {
            seq![s.last()]
        })
    }
}

/// A column name between double quotes, embedded double quotes doubled.
pub open spec fn spec_quoted(name: Seq<char>) -> Seq<char> {
    "\""@ + spec_escape_quotes(name) + "\""@
}

/// The term the bound clause constrains: the column's length for textual
/// types, the column's value for the rest.
pub open spec fn spec_bound_term(f: Field) -> Seq<char> {
    if spec_is_textual(f.field_type@) {
        "length("@ + spec_quoted(f.title@) + ")"@
    } else {
        spec_quoted(f.title@)
    }
}

/// The conjunction inside the CHECK clause, over whichever bounds are
/// present.  Empty when neither bound is present.
pub open spec fn spec_bound_conj(f: Field) -> Seq<char> {
    match (f.min, f.max) {
        (Some(a), Some(b)) => spec_bound_term(f) + " >= "@ + spec_i64_dec(a as int) + " AND "@
            + spec_bound_term(f) + " <= "@ + spec_i64_dec(b as int),
        (Some(a), None) => spec_bound_term(f) + " >= "@ + spec_i64_dec(a as int),
        (None, Some(b)) => spec_bound_term(f) + " <= "@ + spec_i64_dec(b as int),
        (None, None) => Seq::empty(),
    }
}

/// True when the field's type and bounds call for a CHECK clause: a textual
/// or numeric abstract type with at least one bound present.
pub open spec fn spec_has_bounds(f: Field) -> bool {
    (spec_is_textual(f.field_type@) || spec_is_numeric(f.field_type@)) && (f.min is Some
        || f.max is Some)
}

/// The whole declarative constraint clause of a field: a NOT NULL fragment
/// when not nullable, a UNIQUE fragment when unique, and a bound CHECK
/// fragment when the type is textual or numeric and a bound is present.
pub open spec fn spec_constraint_clause(f: Field) -> Seq<char> {
    (if !f.nullable {
        " NOT NULL"@
    } else {
        Seq::empty()
    }) + (if f.unique {
        " UNIQUE"@
    } else {
        Seq::empty()
    }) + (if spec_has_bounds(f) {
        " CHECK("@ + spec_bound_conj(f) + ")"@
    } else {
        Seq::empty()
    })
}

/// Maps an abstract field type to the storage engine's column type
/// keyword.  Pure; unknown types fall back to the generic text type.
pub fn physical_type(t: &str) -> (r: &'static str)
    ensures
        r@ == spec_physical_type(t@),
{
    if str_eq(t, "VARCHAR") {
        "VARCHAR(255)"
    } else if str_eq(t, "TEXT") {
        "TEXT"
    } else if str_eq(t, "INTEGER") {
        "INTEGER"
    } else if str_eq(t, "DECIMAL") {
        "REAL"
    } else if str_eq(t, "BOOLEAN") {
        "BOOLEAN"
    } else if str_eq(t, "DATETIME") {
        "DATETIME"
    } else if str_eq(t, "TIMESTAMP") {
        "TIMESTAMP"
    } else {
        "TEXT"
    }
}

/// The column name between double quotes, embedded double quotes doubled,
/// so that any name stays one identifier in the built statement.
pub fn quote_ident(name: &str) -> (r: String)
    ensures
        r@ == spec_quoted(name@),
{
    proof {
        reveal_strlit("\"");
    }
    let n = name.unicode_len();
    let mut r = String::from_str("\"");
    proof {
        assert(r@ =~= "\""@ + spec_escape_quotes(name@.take(0)));
    }
    let mut i: usize = 0;
    while i < n
        invariant
            n == name@.len(),
            0 <= i <= n,
            "\""@ =~= seq!['"'],
            r@ == "\""@ + spec_escape_quotes(name@.take(i as int)),
        decreases n - i,
    {
        let c = name.substring_char(i, i + 1);
        r.append(c);
        if name.get_char(i) == '"' {
            r.append("\"");
        }
        proof {
            assert(name@.take(i as int + 1).drop_last() =~= name@.take(i as int));
            assert(name@.take(i as int + 1).last() == name@[i as int]);
            assert(c@ =~= seq![name@[i as int]]);
            assert(r@ =~= "\""@ + spec_escape_quotes(name@.take(i as int + 1)));
        }
        i += 1;
    }
    r.append("\"");
    proof {
        assert(name@.take(n as int) =~= name@);
        assert(r@ =~= spec_quoted(name@));
    }
    r
}

/// The term the bound clause constrains.
fn bound_term(f: &Field) -> (r: String)
    ensures
        r@ == spec_bound_term(*f),
{
    if str_eq(f.field_type.as_str(), "VARCHAR") || str_eq(f.field_type.as_str(), "TEXT") {
        let mut r = String::from_str("length(");
        r.append(quote_ident(f.title.as_str()).as_str());
        r.append(")");
        proof {
            assert(r@ =~= spec_bound_term(*f));
        }
        r
    } else {
        quote_ident(f.title.as_str())
    }
}

/// The conjunction inside the CHECK clause, over whichever bounds are
/// present.
fn bound_conj(f: &Field) -> (r: String)
    ensures
        r@ == spec_bound_conj(*f),
{
    let term = bound_term(f);
    let mut r = String::new();
    match (f.min, f.max) {
        (Some(a), Some(b)) => {
            r.append(term.as_str());
            r.append(" >= ");
            r.append(i64_dec(a).as_str());
            r.append(" AND ");
            r.append(term.as_str());
            r.append(" <= ");
            r.append(i64_dec(b).as_str());
            proof {
                assert(r@ =~= spec_bound_conj(*f));
            }
        },
        (Some(a), None) => {
            r.append(term.as_str());
            r.append(" >= ");
            r.append(i64_dec(a).as_str());
            proof {
                assert(r@ =~= spec_bound_conj(*f));
            }
        },
        (None, Some(b)) => {
            r.append(term.as_str());
            r.append(" <= ");
            r.append(i64_dec(b).as_str());
            proof {
                assert(r@ =~= spec_bound_conj(*f));
            }
        },
        (None, None) => {
            proof {
                assert(r@ =~= spec_bound_conj(*f));
            }
        },
    }
    r
}

/// Builds a field's declarative constraint clause.  Pure function of the
/// field definition; no side effects.
pub fn constraint_clause(f: &Field) -> (r: String)
    ensures
        r@ == spec_constraint_clause(*f),
{
    let mut r = String::new();
    if !f.nullable {
        r.append(" NOT NULL");
    }
    if f.unique {
        r.append(" UNIQUE");
    }
    let textual = str_eq(f.field_type.as_str(), "VARCHAR") || str_eq(
        f.field_type.as_str(),
        "TEXT",
    );
    let numeric = str_eq(f.field_type.as_str(), "INTEGER") || str_eq(
        f.field_type.as_str(),
        "DECIMAL",
    );
    if (textual || numeric) && (f.min.is_some() || f.max.is_some()) {
        assert(spec_has_bounds(*f));
        r.append(" CHECK(");
        r.append(bound_conj(f).as_str());
        r.append(")");
    } else {
        assert(!spec_has_bounds(*f));
    }
    proof {
        assert(r@ =~= spec_constraint_clause(*f));
    }
    r
}

} // verus!
