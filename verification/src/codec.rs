//! The record codec.
//!
//! Converts an untyped JSON object into a positional, type-checked parameter
//! list for insertion, and a physical row back into a JSON object, using the
//! catalog's field order as the source of truth.
//!
//! The codec is deliberately permissive: a missing key or a type mismatch
//! encodes a physical NULL, and the storage engine's own constraints decide
//! whether the record is acceptable.  The codec never itself rejects a
//! record.

use vstd::prelude::*;
use crate::store::{SqlValue, SqlV, cells_model};
use crate::text::str_eq;

verus! {

/// One untyped JSON value, as it reaches the codec.
///
/// A `Real` carries the decimal rendering of a floating-point JSON number;
/// the boundary that parses the payload renders the number, and the
/// rendering round-trips exactly, so the engine stays free of floating
/// point.
#[derive(Debug, Clone, PartialEq, Eq)]
pub enum JsonValue {
    Null,
    Bool(bool),
    Int(i64),
    Real(String),
    Str(String),
}

/// The mathematical model of a JSON value.
pub enum JsonV {
    Null,
    Bool(bool),
    Int(int),
    Real(Seq<char>),
    Str(Seq<char>),
}

impl View for JsonValue {
    type V = JsonV;

    open spec fn view(&self) -> JsonV {
        match self {
            JsonValue::Null => JsonV::Null,
            JsonValue::Bool(b) => JsonV::Bool(*b),
            JsonValue::Int(i) => JsonV::Int(*i as int),
            JsonValue::Real(s) => JsonV::Real(s@),
            JsonValue::Str(s) => JsonV::Str(s@),
        }
    }
}

/// The model of a JSON object: its key/value pairs, in order.
pub open spec fn obj_model(s: Seq<(String, JsonValue)>) -> Seq<(Seq<char>, JsonV)> {
    s.map_values(|p: (String, JsonValue)| (p.0@, p.1@))
}

/// The model of an ordered field list: (name, abstract type) pairs.
pub open spec fn fields_model(s: Seq<(String, String)>) -> Seq<(Seq<char>, Seq<char>)> {
    s.map_values(|p: (String, String)| (p.0@, p.1@))
}

/// The first value under `key`, scanning from position `i`.
pub open spec fn spec_lookup_from(obj: Seq<(Seq<char>, JsonV)>, key: Seq<char>, i: int) -> Option<
    JsonV,
>
    decreases obj.len() - i,
{
    if i < 0 || i >= obj.len() {
        None
    } else if obj[i].0 == key {
        Some(obj[i].1)
    } else {
        spec_lookup_from(obj, key, i + 1)
    }
}

/// The first value under `key` in a JSON object, or `None`.
pub open spec fn spec_lookup(obj: Seq<(Seq<char>, JsonV)>, key: Seq<char>) -> Option<JsonV> {
    spec_lookup_from(obj, key, 0)
}

/// How one looked-up JSON value is encoded for a field of abstract type
/// `ftype`: kept when its runtime type matches the abstract type
/// (integer with INTEGER, boolean with BOOLEAN as the 0/1 integer,
/// floating-point with DECIMAL, string with anything else), and a physical
/// NULL in every other case, a missing key included.
pub open spec fn spec_encode_field(ftype: Seq<char>, v: Option<JsonV>) -> SqlV {
    match v {
        Option::None => SqlV::Null,
        Option::Some(jv) => match jv {
            JsonV::Int(i) => if ftype == "INTEGER"@ {
                SqlV::Int(i)
            } else {
                SqlV::Null
            },
            JsonV::Bool(b) => if ftype == "BOOLEAN"@ {
                SqlV::Int(
                    if b {
                        1
                    } else {
                        0
                    },
                )
            } else {
                SqlV::Null
            },
            JsonV::Real(s) => if ftype == "DECIMAL"@ {
                SqlV::Real(s)
            } else {
                SqlV::Null
            },
            JsonV::Str(s) => if ftype != "INTEGER"@ && ftype != "BOOLEAN"@ && ftype
                != "DECIMAL"@ {
                SqlV::Text(s)
            } else {
                SqlV::Null
            },
            JsonV::Null => SqlV::Null,
        },
    }
}

/// The positional parameter list of a JSON object against an ordered field
/// list: one encoded value per field, in field order.
pub open spec fn spec_encode(fields: Seq<(Seq<char>, Seq<char>)>, obj: Seq<(Seq<char>, JsonV)>)
    -> Seq<SqlV> {
    Seq::new(fields.len(), |i: int| spec_encode_field(fields[i].1, spec_lookup(obj, fields[i].0)))
}

/// How one physical cell decodes into a JSON value: NULL to null, integers
/// and reals to numbers, text to a string.  A blob has no JSON form here and
/// decodes to null.
pub open spec fn spec_decode_cell(c: SqlV) -> JsonV {
    match c {
        SqlV::Null => JsonV::Null,
        SqlV::Int(i) => JsonV::Int(i),
        SqlV::Real(s) => JsonV::Real(s),
        SqlV::Text(s) => JsonV::Str(s),
        SqlV::Blob(_) => JsonV::Null,
    }
}

/// The JSON object of a physical row under the given column names: one pair
/// per column, positionally.
pub open spec fn spec_decode(names: Seq<Seq<char>>, row: Seq<SqlV>) -> Seq<(Seq<char>, JsonV)> {
    Seq::new(names.len(), |i: int| (names[i], spec_decode_cell(row[i])))
}

/// Whether a JSON value's runtime type matches an abstract field type:
/// integer with INTEGER, boolean with BOOLEAN, floating-point with DECIMAL,
/// string with anything else.  A JSON null matches nothing.
pub open spec fn spec_type_matches(ftype: Seq<char>, v: JsonV) -> bool {
    match v {
        JsonV::Int(_) => ftype == "INTEGER"@,
        JsonV::Bool(_) => ftype == "BOOLEAN"@,
        JsonV::Real(_) => ftype == "DECIMAL"@,
        JsonV::Str(_) => ftype != "INTEGER"@ && ftype != "BOOLEAN"@ && ftype != "DECIMAL"@,
        JsonV::Null => false,
    }
}

/// What a JSON value becomes after one trip through the physical encoding:
/// a boolean comes back as its 0/1 integer; every other matched value comes
/// back unchanged.
pub open spec fn spec_round_image(v: JsonV) -> JsonV {
    match v {
        JsonV::Bool(b) => JsonV::Int(
            if b {
                1
            } else {
                0
            },
        ),
        _ => v,
    }
}

/// Round trip of one value: encoding a value whose runtime type matches the
/// field's abstract type and decoding the resulting cell gives the value
/// back, up to the 0/1 integer encoding of booleans.
pub proof fn lemma_cell_round_trip(ftype: Seq<char>, v: JsonV)
    requires
        spec_type_matches(ftype, v),
    ensures
        spec_decode_cell(spec_encode_field(ftype, Some(v))) == spec_round_image(v),
{
}

/// Round trip of a record: when a JSON object holds, for every field of the
/// collection, a value whose runtime type matches the field's abstract
/// type, then encoding the object into its positional row and decoding that
/// row under the field names gives back, in field order, exactly the
/// looked-up values, up to the 0/1 integer encoding of booleans.
pub proof fn lemma_record_round_trip(
    fields: Seq<(Seq<char>, Seq<char>)>,
    obj: Seq<(Seq<char>, JsonV)>,
)
    requires
        forall|i: int|
            0 <= i < fields.len() ==> (#[trigger] spec_lookup(obj, fields[i].0) matches Some(v)
                && spec_type_matches(fields[i].1, v)),
    ensures
        spec_decode(
            fields.map_values(|f: (Seq<char>, Seq<char>)| f.0),
            spec_encode(fields, obj),
        ) == Seq::new(
            fields.len(),
            |i: int| (fields[i].0, spec_round_image(spec_lookup(obj, fields[i].0).unwrap())),
        ),
{
    let names = fields.map_values(|f: (Seq<char>, Seq<char>)| f.0);
    let row = spec_encode(fields, obj);
    assert forall|i: int| 0 <= i < fields.len() implies spec_decode(names, row)[i] == (
        fields[i].0,
        spec_round_image(spec_lookup(obj, fields[i].0).unwrap()),
    ) by {
        lemma_cell_round_trip(fields[i].1, spec_lookup(obj, fields[i].0).unwrap());
    }
    assert(spec_decode(names, row) =~= Seq::new(
        fields.len(),
        |i: int| (fields[i].0, spec_round_image(spec_lookup(obj, fields[i].0).unwrap())),
    ));
}

/// Looks up the first value under `key` in a JSON object.
pub fn lookup<'a>(obj: &'a Vec<(String, JsonValue)>, key: &str) -> (r: Option<&'a JsonValue>)
    ensures
        match r {
            Option::Some(v) => spec_lookup(obj_model(obj@), key@) == Some(v@),
            Option::None => spec_lookup(obj_model(obj@), key@) is None,
        },
{
    let ghost m = obj_model(obj@);
    let mut i: usize = 0;
    while i < obj.len()
        invariant
            0 <= i <= obj.len(),
            m == obj_model(obj@),
            m.len() == obj@.len(),
            forall|j: int| 0 <= j < obj@.len() ==> m[j] == (obj@[j].0@, obj@[j].1@),
            spec_lookup(m, key@) == spec_lookup_from(m, key@, i as int),
        decreases obj.len() - i,
    {
        if str_eq(obj[i].0.as_str(), key) {
            return Some(&obj[i].1);
        }
        i += 1;
    }
    None
}

/// Encodes one looked-up JSON value for a field of abstract type `ftype`.
pub fn encode_field(ftype: &str, v: Option<&JsonValue>) -> (r: SqlValue)
    ensures
        r@ == spec_encode_field(
            ftype@,
            match v {
                Option::Some(jv) => Some(jv@),
                Option::None => None::<JsonV>,
            },
        ),
{
    match v {
        Option::None => SqlValue::Null,
        Option::Some(jv) => match jv {
            JsonValue::Int(i) => if str_eq(ftype, "INTEGER") {
                SqlValue::Int(*i)
            } else {
                SqlValue::Null
            },
            JsonValue::Bool(b) => if str_eq(ftype, "BOOLEAN") {
                SqlValue::Int(
                    if *b {
                        1
                    } else {
                        0
                    },
                )
            } else {
                SqlValue::Null
            },
            JsonValue::Real(s) => if str_eq(ftype, "DECIMAL") {
                SqlValue::Real(s.clone())
            } else {
                SqlValue::Null
            },
            JsonValue::Str(s) => if !str_eq(ftype, "INTEGER") && !str_eq(ftype, "BOOLEAN")
                && !str_eq(ftype, "DECIMAL") {
                SqlValue::Text(s.clone())
            } else {
                SqlValue::Null
            },
            JsonValue::Null => SqlValue::Null,
        },
    }
}

/// Encodes a JSON object into the positional parameter list of an ordered
/// field list: for each field in catalog order, the matching value when its
/// runtime type matches the field's abstract type, and a physical NULL
/// otherwise.
pub fn encode(fields: &Vec<(String, String)>, obj: &Vec<(String, JsonValue)>) -> (r: Vec<SqlValue>)
    ensures
        cells_model(r@) == spec_encode(fields_model(fields@), obj_model(obj@)),
{
    let ghost fm = fields_model(fields@);
    let ghost om = obj_model(obj@);
    let mut r: Vec<SqlValue> = Vec::new();
    let mut i: usize = 0;
    while i < fields.len()
        invariant
            0 <= i <= fields.len(),
            fm == fields_model(fields@),
            om == obj_model(obj@),
            fm.len() == fields@.len(),
            forall|j: int| 0 <= j < fields@.len() ==> fm[j] == (fields@[j].0@, fields@[j].1@),
            r@.len() == i,
            forall|j: int| 0 <= j < i ==> r@[j]@ == spec_encode(fm, om)[j],
        decreases fields.len() - i,
    {
        let looked = lookup(obj, fields[i].0.as_str());
        let cell = encode_field(fields[i].1.as_str(), looked);
        r.push(cell);
        i += 1;
    }
    proof {
        assert(cells_model(r@) =~= spec_encode(fm, om));
    }
    r
}

/// Decodes one physical cell into a JSON value.
pub fn decode_cell(c: &SqlValue) -> (r: JsonValue)
    ensures
        r@ == spec_decode_cell(c@),
{
    match c {
        SqlValue::Null => JsonValue::Null,
        SqlValue::Int(i) => JsonValue::Int(*i),
        SqlValue::Real(s) => JsonValue::Real(s.clone()),
        SqlValue::Text(s) => JsonValue::Str(s.clone()),
        SqlValue::Blob(_) => JsonValue::Null,
    }
}

/// Decodes a physical row into a JSON object under the given column names,
/// pairing names and cells positionally.
pub fn decode(names: &Vec<String>, row: &Vec<SqlValue>) -> (r: Vec<(String, JsonValue)>)
    requires
        names@.len() == row@.len(),
    ensures
        obj_model(r@) == spec_decode(names@.map_values(|n: String| n@), cells_model(row@)),
{
    let ghost nm = names@.map_values(|n: String| n@);
    let ghost cm = cells_model(row@);
    let mut r: Vec<(String, JsonValue)> = Vec::new();
    let mut i: usize = 0;
    while i < names.len()
        invariant
            0 <= i <= names.len(),
            names@.len() == row@.len(),
            nm == names@.map_values(|n: String| n@),
            cm == cells_model(row@),
            nm.len() == names@.len(),
            cm.len() == row@.len(),
            forall|j: int| 0 <= j < names@.len() ==> nm[j] == names@[j]@,
            forall|j: int| 0 <= j < row@.len() ==> cm[j] == row@[j]@,
            r@.len() == i,
            forall|j: int| 0 <= j < i ==> (r@[j].0@, r@[j].1@) == spec_decode(nm, cm)[j],
        decreases names.len() - i,
    {
        let cell = decode_cell(&row[i]);
        r.push((names[i].clone(), cell));
        i += 1;
    }
    proof {
        assert(obj_model(r@) =~= spec_decode(nm, cm));
    }
    r
}

} // verus!
