//! The library's own JSON tree and its mathematical model.
//!
//! Incoming event payloads and list responses arrive as raw bytes.  One
//! trusted wrapper turns those bytes into a [`JsonValue`] of this module; all
//! reading of fields, defaults, and filtering is then done by verified code.

use vstd::prelude::*;

verus! {

#[verifier::external_type_specification]
#[verifier::external_body]
pub struct ExSerdeValue(serde_json::Value);

broadcast use vstd::std_specs::vec::axiom_vec_index_decreases;

/// An executable JSON document.  Numbers that fit an `i64` are kept exactly;
/// any other number is remembered only as [`JsonValue::OtherNum`], since the
/// reconciler treats a fractional value in an integer field as malformed.
pub enum JsonValue {
    Null,
    Bool(bool),
    Int(i64),
    OtherNum,
    Str(String),
    Arr(Vec<JsonValue>),
    Obj(Vec<(String, JsonValue)>),
}

/// The model of a JSON document: the same tree over `Seq<char>` and `Seq`.
pub enum JVal {
    Null,
    Bool(bool),
    Int(i64),
    OtherNum,
    Str(Seq<char>),
    Arr(Seq<JVal>),
    Obj(Seq<(Seq<char>, JVal)>),
}

/// The models of the elements of a JSON array.
pub open spec fn arr_model(a: Vec<JsonValue>) -> Seq<JVal>
    decreases a,
{
    Seq::new(a@.len(), |i: int| if 0 <= i < a.len() { a[i]@ } else { JVal::Null })
}

/// The models of the fields of a JSON object, in order.
pub open spec fn obj_model(o: Vec<(String, JsonValue)>) -> Seq<(Seq<char>, JVal)>
    decreases o,
{
    Seq::new(
        o@.len(),
        |i: int| if 0 <= i < o.len() { (o[i].0@, o[i].1@) } else { (Seq::empty(), JVal::Null) },
    )
}

impl View for JsonValue {
    type V = JVal;

    open spec fn view(&self) -> JVal
        decreases self,
    {
        match self {
            JsonValue::Null => JVal::Null,
            JsonValue::Bool(b) => JVal::Bool(*b),
            JsonValue::Int(i) => JVal::Int(*i),
            JsonValue::OtherNum => JVal::OtherNum,
            JsonValue::Str(s) => JVal::Str(s@),
            JsonValue::Arr(a) => JVal::Arr(arr_model(*a)),
            JsonValue::Obj(o) => JVal::Obj(obj_model(*o)),
        }
    }
}

/// The value at a key among an object's fields: the first field whose name
/// matches, or nothing.
pub open spec fn obj_lookup(fields: Seq<(Seq<char>, JVal)>, key: Seq<char>) -> Option<JVal>
    decreases fields.len(),
{
    if fields.len() == 0 {
        None
    } else if fields[0].0 == key {
        Some(fields[0].1)
    } else {
        obj_lookup(fields.drop_first(), key)
    }
}

/// The value at a key of a JSON value: nothing unless it is an object that
/// holds the key.
pub open spec fn jv_get(v: JVal, key: Seq<char>) -> Option<JVal> {
    match v {
        JVal::Obj(fields) => obj_lookup(fields, key),
        _ => None,
    }
}

/// Looks a key up in a JSON value.
pub fn obj_get<'a>(v: &'a JsonValue, key: &str) -> (r: Option<&'a JsonValue>)
    ensures
        match r {
            Some(x) => jv_get(v@, key@) == Some(x@),
            None => jv_get(v@, key@) is None,
        },
{
    match v {
        JsonValue::Obj(o) => {
            let ghost fields = obj_model(*o);
            proof {
                assert(fields.skip(0) =~= fields);
            }
            let mut i: usize = 0;
            while i < o.len()
                invariant
                    0 <= i <= o.len(),
                    fields == obj_model(*o),
                    v@ == JVal::Obj(fields),
                    fields.len() == o.len(),
                    obj_lookup(fields, key@) == obj_lookup(fields.skip(i as int), key@),
                decreases o.len() - i,
            {
                proof {
                    assert(fields.skip(i as int)[0] == fields[i as int]);
                    assert(fields.skip(i as int).drop_first() =~= fields.skip(i as int + 1));
                }
                if crate::textfmt::str_eq(o[i].0.as_str(), key) {
                    proof {
                        assert(fields[i as int] == (o[i as int].0@, o[i as int].1@));
                        assert(obj_lookup(fields.skip(i as int), key@) == Some(
                            fields[i as int].1,
                        ));
                    }
                    return Some(&o[i].1);
                }
                i = i + 1;
            }
            proof {
                assert(fields.skip(i as int) =~= Seq::empty());
            }
            None
        },
        _ => None,
    }
}

/// Whether the value is the JSON null.
pub fn is_null(v: &JsonValue) -> (r: bool)
    ensures
        r == (v@ is Null),
{
    match v {
        JsonValue::Null => true,
        _ => false,
    }
}

/// Reads a JSON boolean.
pub fn as_bool(v: &JsonValue) -> (r: Option<bool>)
    ensures
        match r {
            Some(b) => v@ == JVal::Bool(b),
            None => !(v@ is Bool),
        },
{
    match v {
        JsonValue::Bool(b) => Some(*b),
        _ => None,
    }
}

/// Reads a JSON integer.
pub fn as_i64(v: &JsonValue) -> (r: Option<i64>)
    ensures
        match r {
            Some(i) => v@ == JVal::Int(i),
            None => !(v@ is Int),
        },
{
    match v {
        JsonValue::Int(i) => Some(*i),
        _ => None,
    }
}

/// Reads a JSON string.
pub fn as_str<'a>(v: &'a JsonValue) -> (r: Option<&'a String>)
    ensures
        match r {
            Some(s) => v@ == JVal::Str(s@),
            None => !(v@ is Str),
        },
{
    match v {
        JsonValue::Str(s) => Some(s),
        _ => None,
    }
}

/// Reads a JSON array.
pub fn as_array<'a>(v: &'a JsonValue) -> (r: Option<&'a Vec<JsonValue>>)
    ensures
        match r {
            Some(a) => v@ == JVal::Arr(arr_model(*a)),
            None => !(v@ is Arr),
        },
{
    match v {
        JsonValue::Arr(a) => Some(a),
        _ => None,
    }
}

/// What `serde_json` parses the given bytes into, translated to the model:
/// `None` where the bytes are not a JSON document.
pub uninterp spec fn json_of(bytes: Seq<u8>) -> Option<JVal>;

/// Relies on the variants of `serde_json::Value` and on
/// `serde_json::Number::as_i64`: translates a parsed outside document into
/// the library's own tree, one arm per variant, moving values only.
#[verifier::external_body]
fn convert_value(v: &serde_json::Value) -> JsonValue {
    match v {
        serde_json::Value::Null => JsonValue::Null,
        serde_json::Value::Bool(b) => JsonValue::Bool(*b),
        serde_json::Value::Number(n) => match n.as_i64() {
            Some(i) => JsonValue::Int(i),
            None => JsonValue::OtherNum,
        },
        serde_json::Value::String(s) => JsonValue::Str(s.clone()),
        serde_json::Value::Array(a) => JsonValue::Arr(a.iter().map(convert_value).collect()),
        serde_json::Value::Object(m) => {
            JsonValue::Obj(m.iter().map(|(k, x)| (k.clone(), convert_value(x))).collect())
        },
    }
}

/// Relies on `serde_json::from_slice::<serde_json::Value>`: parses the bytes
/// as one JSON document, or fails; the outcome depends on the bytes alone.
#[verifier::external_body]
pub(crate) fn parse_json(bytes: &[u8]) -> (r: Option<JsonValue>)
    ensures
        match r {
            Some(v) => json_of(bytes@) == Some(v@),
            None => json_of(bytes@) is None,
        },
{
    match serde_json::from_slice::<serde_json::Value>(bytes) {
        Ok(v) => Some(convert_value(&v)),
        Err(_) => None,
    }
}

} // verus!
