//! A plain JSON tree: the library's own value type for a parsed JSON
//! document, with verified lookup and typed extraction. A number is carried
//! as its decimal text, so that no floating-point value enters the library.

use vstd::prelude::*;
use crate::numtext::{spec_parse_u32, spec_parse_i32, parse_u32, parse_i32};

verus! {

/// One node of a parsed JSON document. Object fields keep the order in which
/// the parser hands them over; a lookup takes the first field with the key.
pub enum JsonValue {
    Null,
    Bool(bool),
    /// A JSON number, held as the decimal text the parser rendered it to.
    Number(String),
    Text(String),
    Array(Vec<JsonValue>),
    Object(Vec<(String, JsonValue)>),
}

/// serde_json's generic tree type, declared so that the conversion below may
/// take it; the library states nothing about a value of it.
#[verifier::external_type_specification]
#[verifier::external_body]
pub struct ExValue(serde_json::Value);

/// The tree that a byte string parses to, or nothing when the bytes are
/// not valid JSON. The parse is a function of the bytes alone, so its
/// result can be named; nothing is assumed about the tree itself, and
/// every function that reads one is verified for every `JsonValue`.
pub uninterp spec fn spec_parse_json(bytes: Seq<u8>) -> Option<JsonValue>;

/// Relies on serde_json::from_slice::<serde_json::Value>: parses a JSON
/// text into serde_json's generic tree, or fails when the bytes are not
/// valid JSON. The parse is deterministic in the bytes (recursion capped,
/// each number rendered to its one decimal text), so the result carries
/// the name `spec_parse_json` and nothing more.
#[verifier::external_body]
pub fn parse_json(bytes: &[u8]) -> (r: Option<JsonValue>)
    ensures
        r == spec_parse_json(bytes@),
{
    match serde_json::from_slice::<serde_json::Value>(bytes) {
        Ok(v) => Some(from_serde(v)),
        Err(_) => None,
    }
}

/// Relies on serde_json::Value: one arm per variant of serde_json's tree,
/// moving each payload into the matching variant of `JsonValue`. A number is
/// carried over as the decimal text that serde_json's `Number` renders to.
#[verifier::external_body]
fn from_serde(v: serde_json::Value) -> JsonValue {
    match v {
        serde_json::Value::Null => JsonValue::Null,
        serde_json::Value::Bool(b) => JsonValue::Bool(b),
        serde_json::Value::Number(n) => JsonValue::Number(n.to_string()),
        serde_json::Value::String(s) => JsonValue::Text(s),
        serde_json::Value::Array(a) => JsonValue::Array(a.into_iter().map(from_serde).collect()),
        serde_json::Value::Object(m) => JsonValue::Object(
            m.into_iter().map(|(k, x)| (k, from_serde(x))).collect(),
        ),
    }
}

/// The first field of `fields` whose key is `key`, if any.
pub open spec fn spec_lookup(fields: Seq<(String, JsonValue)>, key: Seq<char>) -> Option<
    JsonValue,
>
    decreases fields.len(),
{
    if fields.len() == 0 {
        None
    } else if fields[0].0@ == key {
        Some(fields[0].1)
    } else {
        spec_lookup(fields.drop_first(), key)
    }
}

/// The field `key` of an object node; nothing on any other node.
pub open spec fn spec_field(v: JsonValue, key: Seq<char>) -> Option<JsonValue> {
    match v {
        JsonValue::Object(fields) => spec_lookup(fields@, key),
        _ => None,
    }
}

/// Look a key up in an object node.
pub fn json_field<'a>(v: &'a JsonValue, key: &String) -> (r: Option<&'a JsonValue>)
    ensures
        match r {
            Some(f) => spec_field(*v, key@) == Some(*f),
            None => spec_field(*v, key@) is None,
        },
{
    match v {
        JsonValue::Object(fields) => {
            proof {
                assert(*v == JsonValue::Object(*fields));
                assert(fields@.skip(0) =~= fields@);
            }
            let mut i: usize = 0;
            while i < fields.len()
                invariant
                    *v == JsonValue::Object(*fields),
                    0 <= i <= fields@.len(),
                    spec_lookup(fields@, key@) == spec_lookup(fields@.skip(i as int), key@),
                decreases fields@.len() - i,
            {
                let f = &fields[i];
                if f.0 == *key {
                    proof {
                        assert(fields@.skip(i as int)[0] == fields@[i as int]);
                        assert(spec_lookup(fields@.skip(i as int), key@) == Some(
                            fields@[i as int].1,
                        ));
                    }
                    return Some(&f.1);
                }
                proof {
                    assert(fields@.skip(i as int).drop_first() =~= fields@.skip(i as int + 1));
                }
                i = i + 1;
            }
            proof {
                assert(fields@.skip(i as int).len() == 0);
            }
            None
        },
        _ => None,
    }
}

/// Whether a node is a number whose text reads as a `u32`.
pub open spec fn is_num_u32(v: JsonValue) -> bool {
    match v {
        JsonValue::Number(t) => spec_parse_u32(t@) is Some,
        _ => false,
    }
}

/// The `u32` a number node reads as (immaterial on any other node).
pub open spec fn num_val_u32(v: JsonValue) -> u32 {
    match v {
        JsonValue::Number(t) => match spec_parse_u32(t@) {
            Some(n) => n,
            None => 0,
        },
        _ => 0,
    }
}

/// Read a node as a `u32` number.
pub fn json_u32(v: &JsonValue) -> (r: Option<u32>)
    ensures
        match r {
            Some(n) => is_num_u32(*v) && n == num_val_u32(*v),
            None => !is_num_u32(*v),
        },
{
    match v {
        JsonValue::Number(t) => parse_u32(t.as_str()),
        _ => None,
    }
}

/// Whether a node is a number whose text reads as an `i32`.
pub open spec fn is_num_i32(v: JsonValue) -> bool {
    match v {
        JsonValue::Number(t) => spec_parse_i32(t@) is Some,
        _ => false,
    }
}

/// The `i32` a number node reads as (immaterial on any other node).
pub open spec fn num_val_i32(v: JsonValue) -> i32 {
    match v {
        JsonValue::Number(t) => match spec_parse_i32(t@) {
            Some(n) => n,
            None => 0,
        },
        _ => 0,
    }
}

/// Read a node as an `i32` number.
pub fn json_i32(v: &JsonValue) -> (r: Option<i32>)
    ensures
        match r {
            Some(n) => is_num_i32(*v) && n == num_val_i32(*v),
            None => !is_num_i32(*v),
        },
{
    match v {
        JsonValue::Number(t) => parse_i32(t.as_str()),
        _ => None,
    }
}

/// Whether a node is a number (of any value).
pub open spec fn is_num(v: JsonValue) -> bool {
    v matches JsonValue::Number(_)
}

/// The decimal text of a number node (empty on any other node).
pub open spec fn num_text(v: JsonValue) -> Seq<char> {
    match v {
        JsonValue::Number(t) => t@,
        _ => Seq::empty(),
    }
}

/// Whether every element of a sequence of nodes reads as a `u32` number.
pub open spec fn is_u32_items(items: Seq<JsonValue>) -> bool {
    forall|i: int| 0 <= i < items.len() ==> is_num_u32(#[trigger] items[i])
}

/// Whether every element of an array node reads as a `u32` number.
pub open spec fn is_u32_array(v: JsonValue) -> bool {
    match v {
        JsonValue::Array(items) => is_u32_items(items@),
        _ => false,
    }
}

/// The values of a `u32` array node.
pub open spec fn u32_array_vals(v: JsonValue) -> Seq<u32> {
    match v {
        JsonValue::Array(items) => Seq::new(items@.len(), |i: int| num_val_u32(items@[i])),
        _ => Seq::empty(),
    }
}

/// Read a node as an array of `u32` numbers.
pub fn json_u32_array(v: &JsonValue) -> (r: Option<Vec<u32>>)
    ensures
        match r {
            Some(xs) => is_u32_array(*v) && xs@ == u32_array_vals(*v),
            None => !is_u32_array(*v),
        },
{
    match v {
        JsonValue::Array(items) => {
            proof {
                assert(*v == JsonValue::Array(*items));
            }
            let mut out: Vec<u32> = Vec::new();
            let mut i: usize = 0;
            while i < items.len()
                invariant
                    *v == JsonValue::Array(*items),
                    0 <= i <= items@.len(),
                    out@.len() == i,
                    forall|j: int| 0 <= j < i ==> is_num_u32(#[trigger] items@[j]),
                    forall|j: int| 0 <= j < i ==> out@[j] == num_val_u32(#[trigger] items@[j]),
                decreases items@.len() - i,
            {
                match json_u32(&items[i]) {
                    Some(n) => {
                        out.push(n);
                    },
                    None => {
                        proof {
                            assert(!is_num_u32(items@[i as int]));
                            assert(!is_u32_items(items@));
                        }
                        return None;
                    },
                }
                i = i + 1;
            }
            proof {
                assert(out@ =~= u32_array_vals(*v));
            }
            Some(out)
        },
        _ => None,
    }
}

/// Whether every element of a sequence of nodes is a number.
pub open spec fn is_num_items(items: Seq<JsonValue>) -> bool {
    forall|i: int| 0 <= i < items.len() ==> is_num(#[trigger] items[i])
}

/// Whether every element of an array node is a number.
pub open spec fn is_num_array(v: JsonValue) -> bool {
    match v {
        JsonValue::Array(items) => is_num_items(items@),
        _ => false,
    }
}

/// The decimal texts of a number array node.
pub open spec fn num_array_texts(v: JsonValue) -> Seq<Seq<char>> {
    match v {
        JsonValue::Array(items) => Seq::new(items@.len(), |i: int| num_text(items@[i])),
        _ => Seq::empty(),
    }
}

/// Read a node as an array of numbers, keeping each number's decimal text.
pub fn json_num_array(v: &JsonValue) -> (r: Option<Vec<String>>)
    ensures
        match r {
            Some(xs) => is_num_array(*v) && xs@.map_values(|s: String| s@) == num_array_texts(*v),
            None => !is_num_array(*v),
        },
{
    match v {
        JsonValue::Array(items) => {
            proof {
                assert(*v == JsonValue::Array(*items));
            }
            let mut out: Vec<String> = Vec::new();
            let mut i: usize = 0;
            while i < items.len()
                invariant
                    *v == JsonValue::Array(*items),
                    0 <= i <= items@.len(),
                    out@.len() == i,
                    forall|j: int| 0 <= j < i ==> is_num(#[trigger] items@[j]),
                    forall|j: int| 0 <= j < i ==> out@.map_values(|s: String| s@)[j] == num_text(
                        #[trigger] items@[j],
                    ),
                decreases items@.len() - i,
            {
                match &items[i] {
                    JsonValue::Number(t) => {
                        out.push(t.clone());
                    },
                    _ => {
                        proof {
                            assert(!is_num(items@[i as int]));
                            assert(!is_num_items(items@));
                        }
                        return None;
                    },
                }
                i = i + 1;
            }
            proof {
                assert(out@.map_values(|s: String| s@) =~= num_array_texts(*v));
            }
            Some(out)
        },
        _ => None,
    }
}

} // verus!
