//! Mapping a parsed JSON document onto the typed [`Compound`] model.
//!
//! A compound record is a JSON object. Every field of it is independently
//! optional: an absent or null field decodes as "not present". A field that
//! is present with a value of the wrong shape fails that record's decode.
//! The response root wraps a list of compound objects under the collection
//! key `PC_Compounds`; a root without that key, or whose value under it is
//! not a list, is the "no match" outcome, distinct from a decode failure.
//! Within the list, an element that fails to decode is skipped; the others
//! are still taken.

use vstd::prelude::*;
use crate::json::{JsonValue, spec_field, json_field, is_num_u32, num_val_u32, json_u32,
    is_num_i32, num_val_i32, json_i32, is_u32_array, u32_array_vals, json_u32_array,
    is_num_array, num_array_texts, json_num_array};
use crate::model::{AtomInfo, AtomsV, BondInfo, BondsV, Conformer, ConformerV, Coords, CoordsV,
    Urn, UrnV, PropertyValue, PropValueV, Props, PropsV, Tetrahedral, Stereo, IUPACName,
    Compound, CompoundV, opt_text_view, compound_wf, atoms_wf, bonds_wf, conformer_wf,
    coords_wf};

verus! {

// ---------------------------------------------------------------------------
// Optional scalar fields of an object node
// ---------------------------------------------------------------------------

/// Whether an optional `u32` field is acceptable: absent, null, or a number
/// that reads as a `u32`.
pub open spec fn u32_field_ok(v: JsonValue, key: Seq<char>) -> bool {
    match spec_field(v, key) {
        None => true,
        Some(f) => f is Null || is_num_u32(f),
    }
}

/// The value of an optional `u32` field.
pub open spec fn u32_field_val(v: JsonValue, key: Seq<char>) -> Option<u32> {
    match spec_field(v, key) {
        None => None,
        Some(f) => if f is Null {
            None
        } else {
            Some(num_val_u32(f))
        },
    }
}

/// Whether an optional `i32` field is acceptable.
pub open spec fn i32_field_ok(v: JsonValue, key: Seq<char>) -> bool {
    match spec_field(v, key) {
        None => true,
        Some(f) => f is Null || is_num_i32(f),
    }
}

/// The value of an optional `i32` field.
pub open spec fn i32_field_val(v: JsonValue, key: Seq<char>) -> Option<i32> {
    match spec_field(v, key) {
        None => None,
        Some(f) => if f is Null {
            None
        } else {
            Some(num_val_i32(f))
        },
    }
}

/// Whether an optional text field is acceptable: absent, null, or a string.
pub open spec fn text_field_ok(v: JsonValue, key: Seq<char>) -> bool {
    match spec_field(v, key) {
        None => true,
        Some(f) => f is Null || f is Text,
    }
}

/// The value of an optional text field.
pub open spec fn text_field_val(v: JsonValue, key: Seq<char>) -> Option<Seq<char>> {
    match spec_field(v, key) {
        Some(JsonValue::Text(s)) => Some(s@),
        _ => None,
    }
}

/// Whether an optional decimal field is acceptable: absent, null, or a
/// number (whose decimal text is kept).
pub open spec fn numtext_field_ok(v: JsonValue, key: Seq<char>) -> bool {
    match spec_field(v, key) {
        None => true,
        Some(f) => f is Null || f is Number,
    }
}

/// The decimal text of an optional decimal field.
pub open spec fn numtext_field_val(v: JsonValue, key: Seq<char>) -> Option<Seq<char>> {
    match spec_field(v, key) {
        Some(JsonValue::Number(t)) => Some(t@),
        _ => None,
    }
}

/// Read an optional `u32` field of an object node.
pub fn u32_field(v: &JsonValue, key: &String) -> (r: Option<Option<u32>>)
    ensures
        match r {
            Some(o) => u32_field_ok(*v, key@) && o == u32_field_val(*v, key@),
            None => !u32_field_ok(*v, key@),
        },
{
    match json_field(v, key) {
        None => Some(None),
        Some(f) => match f {
            JsonValue::Null => Some(None),
            _ => match json_u32(f) {
                Some(n) => Some(Some(n)),
                None => None,
            },
        },
    }
}

/// Read an optional `i32` field of an object node.
pub fn i32_field(v: &JsonValue, key: &String) -> (r: Option<Option<i32>>)
    ensures
        match r {
            Some(o) => i32_field_ok(*v, key@) && o == i32_field_val(*v, key@),
            None => !i32_field_ok(*v, key@),
        },
{
    match json_field(v, key) {
        None => Some(None),
        Some(f) => match f {
            JsonValue::Null => Some(None),
            _ => match json_i32(f) {
                Some(n) => Some(Some(n)),
                None => None,
            },
        },
    }
}

/// Read an optional text field of an object node.
pub fn text_field(v: &JsonValue, key: &String) -> (r: Option<Option<String>>)
    ensures
        match r {
            Some(o) => text_field_ok(*v, key@) && opt_text_view(o) == text_field_val(*v, key@),
            None => !text_field_ok(*v, key@),
        },
{
    match json_field(v, key) {
        None => Some(None),
        Some(f) => match f {
            JsonValue::Null => Some(None),
            JsonValue::Text(s) => Some(Some(s.clone())),
            _ => None,
        },
    }
}

/// Read an optional decimal field of an object node, keeping its text.
pub fn numtext_field(v: &JsonValue, key: &String) -> (r: Option<Option<String>>)
    ensures
        match r {
            Some(o) => numtext_field_ok(*v, key@) && opt_text_view(o) == numtext_field_val(
                *v,
                key@,
            ),
            None => !numtext_field_ok(*v, key@),
        },
{
    match json_field(v, key) {
        None => Some(None),
        Some(f) => match f {
            JsonValue::Null => Some(None),
            JsonValue::Number(t) => Some(Some(t.clone())),
            _ => None,
        },
    }
}

// ---------------------------------------------------------------------------
// Atoms
// ---------------------------------------------------------------------------

/// The exact decode of an atom table: an object with `u32` arrays `aid` and
/// `element` of equal length.
pub open spec fn spec_decode_atoms(v: JsonValue) -> Option<AtomsV> {
    match (spec_field(v, "aid"@), spec_field(v, "element"@)) {
        (Some(av), Some(ev)) => if is_u32_array(av) && is_u32_array(ev) && u32_array_vals(
            av,
        ).len() == u32_array_vals(ev).len() {
            Some(AtomsV { aid: u32_array_vals(av), element: u32_array_vals(ev) })
        } else {
            None
        },
        _ => None,
    }
}

/// Decode an atom table.
pub fn decode_atoms(v: &JsonValue) -> (r: Option<AtomInfo>)
    ensures
        match r {
            Some(a) => spec_decode_atoms(*v) == Some(a@),
            None => spec_decode_atoms(*v) is None,
        },
{
    let aid_key = "aid".to_owned();
    let element_key = "element".to_owned();
    let av = match json_field(v, &aid_key) {
        Some(f) => f,
        None => {
            return None;
        },
    };
    let ev = match json_field(v, &element_key) {
        Some(f) => f,
        None => {
            return None;
        },
    };
    let aid = match json_u32_array(av) {
        Some(xs) => xs,
        None => {
            return None;
        },
    };
    let element = match json_u32_array(ev) {
        Some(xs) => xs,
        None => {
            return None;
        },
    };
    if aid.len() != element.len() {
        return None;
    }
    Some(AtomInfo { aid, element })
}

// ---------------------------------------------------------------------------
// Bonds
// ---------------------------------------------------------------------------

/// The exact decode of one bond table: an object with `u32` arrays `aid1`,
/// `aid2` and `order` of equal length.
pub open spec fn spec_decode_bond_table(v: JsonValue) -> Option<BondsV> {
    match (spec_field(v, "aid1"@), spec_field(v, "aid2"@), spec_field(v, "order"@)) {
        (Some(v1), Some(v2), Some(vo)) => if is_u32_array(v1) && is_u32_array(v2) && is_u32_array(
            vo,
        ) && u32_array_vals(v1).len() == u32_array_vals(v2).len() && u32_array_vals(v1).len()
            == u32_array_vals(vo).len() {
            Some(
                BondsV {
                    aid1: u32_array_vals(v1),
                    aid2: u32_array_vals(v2),
                    order: u32_array_vals(vo),
                },
            )
        } else {
            None
        },
        _ => None,
    }
}

/// Decode one bond table.
pub fn decode_bond_table(v: &JsonValue) -> (r: Option<BondInfo>)
    ensures
        match r {
            Some(b) => spec_decode_bond_table(*v) == Some(b@),
            None => spec_decode_bond_table(*v) is None,
        },
{
    let k1 = "aid1".to_owned();
    let k2 = "aid2".to_owned();
    let ko = "order".to_owned();
    let v1 = match json_field(v, &k1) {
        Some(f) => f,
        None => {
            return None;
        },
    };
    let v2 = match json_field(v, &k2) {
        Some(f) => f,
        None => {
            return None;
        },
    };
    let vo = match json_field(v, &ko) {
        Some(f) => f,
        None => {
            return None;
        },
    };
    let aid1 = match json_u32_array(v1) {
        Some(xs) => xs,
        None => {
            return None;
        },
    };
    let aid2 = match json_u32_array(v2) {
        Some(xs) => xs,
        None => {
            return None;
        },
    };
    let order = match json_u32_array(vo) {
        Some(xs) => xs,
        None => {
            return None;
        },
    };
    if aid1.len() != aid2.len() || aid1.len() != order.len() {
        return None;
    }
    Some(BondInfo { aid1, aid2, order })
}

/// Whether every element of a sequence decodes as a bond table.
pub open spec fn bond_items_ok(items: Seq<JsonValue>) -> bool {
    forall|i: int| 0 <= i < items.len() ==> spec_decode_bond_table(#[trigger] items[i]) is Some
}

/// The bond tables a sequence of nodes decodes to.
pub open spec fn bond_items_vals(items: Seq<JsonValue>) -> Seq<BondsV> {
    Seq::new(
        items.len(),
        |i: int|
            match spec_decode_bond_table(items[i]) {
                Some(b) => b,
                None => BondsV { aid1: Seq::empty(), aid2: Seq::empty(), order: Seq::empty() },
            },
    )
}

/// The exact decode of a bond list: an array whose every element decodes as
/// a bond table.
pub open spec fn spec_decode_bonds(v: JsonValue) -> Option<Seq<BondsV>> {
    match v {
        JsonValue::Array(items) => if bond_items_ok(items@) {
            Some(bond_items_vals(items@))
        } else {
            None
        },
        _ => None,
    }
}

/// Decode a bond list.
pub fn decode_bonds(v: &JsonValue) -> (r: Option<Vec<BondInfo>>)
    ensures
        match r {
            Some(ts) => spec_decode_bonds(*v) == Some(ts@.map_values(|b: BondInfo| b@)),
            None => spec_decode_bonds(*v) is None,
        },
{
    match v {
        JsonValue::Array(items) => {
            let mut out: Vec<BondInfo> = Vec::new();
            let mut i: usize = 0;
            while i < items.len()
                invariant
                    *v == JsonValue::Array(*items),
                    0 <= i <= items@.len(),
                    out@.len() == i,
                    forall|j: int|
                        0 <= j < i ==> spec_decode_bond_table(#[trigger] items@[j]) is Some,
                    forall|j: int|
                        0 <= j < i ==> spec_decode_bond_table(#[trigger] items@[j]) == Some(
                            out@.map_values(|b: BondInfo| b@)[j],
                        ),
                decreases items@.len() - i,
            {
                match decode_bond_table(&items[i]) {
                    Some(b) => {
                        out.push(b);
                    },
                    None => {
                        proof {
                            assert(!bond_items_ok(items@));
                        }
                        return None;
                    },
                }
                i = i + 1;
            }
            proof {
                assert(out@.map_values(|b: BondInfo| b@) =~= bond_items_vals(items@));
            }
            Some(out)
        },
        _ => None,
    }
}

// ---------------------------------------------------------------------------
// Coordinates
// ---------------------------------------------------------------------------

/// The exact decode of one conformer: an object with number arrays `x` and
/// `y` of equal length, each number kept as its decimal text.
pub open spec fn spec_decode_conformer(v: JsonValue) -> Option<ConformerV> {
    match (spec_field(v, "x"@), spec_field(v, "y"@)) {
        (Some(xv), Some(yv)) => if is_num_array(xv) && is_num_array(yv) && num_array_texts(
            xv,
        ).len() == num_array_texts(yv).len() {
            Some(ConformerV { x: num_array_texts(xv), y: num_array_texts(yv) })
        } else {
            None
        },
        _ => None,
    }
}

/// Decode one conformer.
pub fn decode_conformer(v: &JsonValue) -> (r: Option<Conformer>)
    ensures
        match r {
            Some(c) => spec_decode_conformer(*v) == Some(c@),
            None => spec_decode_conformer(*v) is None,
        },
{
    let xk = "x".to_owned();
    let yk = "y".to_owned();
    let xv = match json_field(v, &xk) {
        Some(f) => f,
        None => {
            return None;
        },
    };
    let yv = match json_field(v, &yk) {
        Some(f) => f,
        None => {
            return None;
        },
    };
    let x = match json_num_array(xv) {
        Some(xs) => xs,
        None => {
            return None;
        },
    };
    let y = match json_num_array(yv) {
        Some(ys) => ys,
        None => {
            return None;
        },
    };
    if x.len() != y.len() {
        return None;
    }
    Some(Conformer { x, y })
}

/// Whether every element of a sequence decodes as a conformer.
pub open spec fn conformer_items_ok(items: Seq<JsonValue>) -> bool {
    forall|i: int| 0 <= i < items.len() ==> spec_decode_conformer(#[trigger] items[i]) is Some
}

/// The conformers a sequence of nodes decodes to.
pub open spec fn conformer_items_vals(items: Seq<JsonValue>) -> Seq<ConformerV> {
    Seq::new(
        items.len(),
        |i: int|
            match spec_decode_conformer(items[i]) {
                Some(c) => c,
                None => ConformerV { x: Seq::empty(), y: Seq::empty() },
            },
    )
}

/// The exact decode of one coordinate set: an object whose `conformers`
/// field is an array of conformers.
pub open spec fn spec_decode_coords_set(v: JsonValue) -> Option<CoordsV> {
    match spec_field(v, "conformers"@) {
        Some(JsonValue::Array(items)) => if conformer_items_ok(items@) {
            Some(CoordsV { conformers: conformer_items_vals(items@) })
        } else {
            None
        },
        _ => None,
    }
}

/// Decode one coordinate set.
pub fn decode_coords_set(v: &JsonValue) -> (r: Option<Coords>)
    ensures
        match r {
            Some(c) => spec_decode_coords_set(*v) == Some(c@),
            None => spec_decode_coords_set(*v) is None,
        },
{
    let ck = "conformers".to_owned();
    let cv = match json_field(v, &ck) {
        Some(f) => f,
        None => {
            return None;
        },
    };
    match cv {
        JsonValue::Array(items) => {
            let mut out: Vec<Conformer> = Vec::new();
            let mut i: usize = 0;
            while i < items.len()
                invariant
                    *cv == JsonValue::Array(*items),
                    spec_field(*v, "conformers"@) == Some(*cv),
                    0 <= i <= items@.len(),
                    out@.len() == i,
                    forall|j: int|
                        0 <= j < i ==> spec_decode_conformer(#[trigger] items@[j]) is Some,
                    forall|j: int|
                        0 <= j < i ==> spec_decode_conformer(#[trigger] items@[j]) == Some(
                            out@.map_values(|c: Conformer| c@)[j],
                        ),
                decreases items@.len() - i,
            {
                match decode_conformer(&items[i]) {
                    Some(c) => {
                        out.push(c);
                    },
                    None => {
                        proof {
                            assert(!conformer_items_ok(items@));
                        }
                        return None;
                    },
                }
                i = i + 1;
            }
            proof {
                assert(out@.map_values(|c: Conformer| c@) =~= conformer_items_vals(items@));
            }
            Some(Coords { conformers: out })
        },
        _ => None,
    }
}

/// Whether every element of a sequence decodes as a coordinate set.
pub open spec fn coords_items_ok(items: Seq<JsonValue>) -> bool {
    forall|i: int| 0 <= i < items.len() ==> spec_decode_coords_set(#[trigger] items[i]) is Some
}

/// The coordinate sets a sequence of nodes decodes to.
pub open spec fn coords_items_vals(items: Seq<JsonValue>) -> Seq<CoordsV> {
    Seq::new(
        items.len(),
        |i: int|
            match spec_decode_coords_set(items[i]) {
                Some(c) => c,
                None => CoordsV { conformers: Seq::empty() },
            },
    )
}

/// The exact decode of the coordinate-set list.
pub open spec fn spec_decode_coords(v: JsonValue) -> Option<Seq<CoordsV>> {
    match v {
        JsonValue::Array(items) => if coords_items_ok(items@) {
            Some(coords_items_vals(items@))
        } else {
            None
        },
        _ => None,
    }
}

/// Decode the coordinate-set list.
pub fn decode_coords(v: &JsonValue) -> (r: Option<Vec<Coords>>)
    ensures
        match r {
            Some(cs) => spec_decode_coords(*v) == Some(cs@.map_values(|c: Coords| c@)),
            None => spec_decode_coords(*v) is None,
        },
{
    match v {
        JsonValue::Array(items) => {
            let mut out: Vec<Coords> = Vec::new();
            let mut i: usize = 0;
            while i < items.len()
                invariant
                    *v == JsonValue::Array(*items),
                    0 <= i <= items@.len(),
                    out@.len() == i,
                    forall|j: int|
                        0 <= j < i ==> spec_decode_coords_set(#[trigger] items@[j]) is Some,
                    forall|j: int|
                        0 <= j < i ==> spec_decode_coords_set(#[trigger] items@[j]) == Some(
                            out@.map_values(|c: Coords| c@)[j],
                        ),
                decreases items@.len() - i,
            {
                match decode_coords_set(&items[i]) {
                    Some(c) => {
                        out.push(c);
                    },
                    None => {
                        proof {
                            assert(!coords_items_ok(items@));
                        }
                        return None;
                    },
                }
                i = i + 1;
            }
            proof {
                assert(out@.map_values(|c: Coords| c@) =~= coords_items_vals(items@));
            }
            Some(out)
        },
        _ => None,
    }
}


// ---------------------------------------------------------------------------
// Properties
// ---------------------------------------------------------------------------

/// The exact decode of a provenance descriptor: an object whose fields are
/// all optional.
pub open spec fn spec_decode_urn(v: JsonValue) -> Option<UrnV> {
    if !(v matches JsonValue::Object(_)) {
        None
    } else if u32_field_ok(v, "datatype"@) && text_field_ok(v, "label"@) && text_field_ok(
        v,
        "name"@,
    ) && text_field_ok(v, "release"@) && text_field_ok(v, "software"@) && text_field_ok(
        v,
        "source"@,
    ) && text_field_ok(v, "version"@) {
        Some(
            UrnV {
                datatype: u32_field_val(v, "datatype"@),
                label: text_field_val(v, "label"@),
                name: text_field_val(v, "name"@),
                release: text_field_val(v, "release"@),
                software: text_field_val(v, "software"@),
                source: text_field_val(v, "source"@),
                version: text_field_val(v, "version"@),
            },
        )
    } else {
        None
    }
}

/// Decode a provenance descriptor.
pub fn decode_urn(v: &JsonValue) -> (r: Option<Urn>)
    ensures
        match r {
            Some(u) => spec_decode_urn(*v) == Some(u@),
            None => spec_decode_urn(*v) is None,
        },
{
    match v {
        JsonValue::Object(_) => {},
        _ => {
            return None;
        },
    }
    let datatype = match u32_field(v, &"datatype".to_owned()) {
        Some(o) => o,
        None => {
            return None;
        },
    };
    let label = match text_field(v, &"label".to_owned()) {
        Some(o) => o,
        None => {
            return None;
        },
    };
    let name = match text_field(v, &"name".to_owned()) {
        Some(o) => o,
        None => {
            return None;
        },
    };
    let release = match text_field(v, &"release".to_owned()) {
        Some(o) => o,
        None => {
            return None;
        },
    };
    let software = match text_field(v, &"software".to_owned()) {
        Some(o) => o,
        None => {
            return None;
        },
    };
    let source = match text_field(v, &"source".to_owned()) {
        Some(o) => o,
        None => {
            return None;
        },
    };
    let version = match text_field(v, &"version".to_owned()) {
        Some(o) => o,
        None => {
            return None;
        },
    };
    Some(Urn { datatype, label, name, release, software, source, version })
}

/// The exact decode of a typed property value: an object whose fields are
/// all optional.
pub open spec fn spec_decode_pvalue(v: JsonValue) -> Option<PropValueV> {
    if !(v matches JsonValue::Object(_)) {
        None
    } else if numtext_field_ok(v, "fval"@) && u32_field_ok(v, "ival"@) && text_field_ok(
        v,
        "sval"@,
    ) && text_field_ok(v, "binary"@) {
        Some(
            PropValueV {
                fval: numtext_field_val(v, "fval"@),
                ival: u32_field_val(v, "ival"@),
                sval: text_field_val(v, "sval"@),
                binary: text_field_val(v, "binary"@),
            },
        )
    } else {
        None
    }
}

/// Decode a typed property value.
pub fn decode_pvalue(v: &JsonValue) -> (r: Option<PropertyValue>)
    ensures
        match r {
            Some(p) => spec_decode_pvalue(*v) == Some(p@),
            None => spec_decode_pvalue(*v) is None,
        },
{
    match v {
        JsonValue::Object(_) => {},
        _ => {
            return None;
        },
    }
    let fval = match numtext_field(v, &"fval".to_owned()) {
        Some(o) => o,
        None => {
            return None;
        },
    };
    let ival = match u32_field(v, &"ival".to_owned()) {
        Some(o) => o,
        None => {
            return None;
        },
    };
    let sval = match text_field(v, &"sval".to_owned()) {
        Some(o) => o,
        None => {
            return None;
        },
    };
    let binary = match text_field(v, &"binary".to_owned()) {
        Some(o) => o,
        None => {
            return None;
        },
    };
    Some(PropertyValue { fval, ival, sval, binary })
}

/// The exact decode of one named property: an object whose `urn` and
/// `value` fields are both present and decode.
pub open spec fn spec_decode_prop(v: JsonValue) -> Option<PropsV> {
    match (spec_field(v, "urn"@), spec_field(v, "value"@)) {
        (Some(uv), Some(vv)) => match (spec_decode_urn(uv), spec_decode_pvalue(vv)) {
            (Some(u), Some(p)) => Some(PropsV { urn: u, value: p }),
            _ => None,
        },
        _ => None,
    }
}

/// Decode one named property.
pub fn decode_prop(v: &JsonValue) -> (r: Option<Props>)
    ensures
        match r {
            Some(p) => spec_decode_prop(*v) == Some(p@),
            None => spec_decode_prop(*v) is None,
        },
{
    let uv = match json_field(v, &"urn".to_owned()) {
        Some(f) => f,
        None => {
            return None;
        },
    };
    let vv = match json_field(v, &"value".to_owned()) {
        Some(f) => f,
        None => {
            return None;
        },
    };
    let urn = match decode_urn(uv) {
        Some(u) => u,
        None => {
            return None;
        },
    };
    let value = match decode_pvalue(vv) {
        Some(p) => p,
        None => {
            return None;
        },
    };
    Some(Props { urn, value })
}

/// Whether every element of a sequence decodes as a named property.
pub open spec fn prop_items_ok(items: Seq<JsonValue>) -> bool {
    forall|i: int| 0 <= i < items.len() ==> spec_decode_prop(#[trigger] items[i]) is Some
}

/// The named properties a sequence of nodes decodes to.
pub open spec fn prop_items_vals(items: Seq<JsonValue>) -> Seq<PropsV> {
    Seq::new(
        items.len(),
        |i: int|
            match spec_decode_prop(items[i]) {
                Some(p) => p,
                None => PropsV {
                    urn: UrnV {
                        datatype: None,
                        label: None,
                        name: None,
                        release: None,
                        software: None,
                        source: None,
                        version: None,
                    },
                    value: PropValueV { fval: None, ival: None, sval: None, binary: None },
                },
            },
    )
}

/// The exact decode of the property list.
pub open spec fn spec_decode_props(v: JsonValue) -> Option<Seq<PropsV>> {
    match v {
        JsonValue::Array(items) => if prop_items_ok(items@) {
            Some(prop_items_vals(items@))
        } else {
            None
        },
        _ => None,
    }
}

/// Decode the property list.
pub fn decode_props(v: &JsonValue) -> (r: Option<Vec<Props>>)
    ensures
        match r {
            Some(ps) => spec_decode_props(*v) == Some(ps@.map_values(|p: Props| p@)),
            None => spec_decode_props(*v) is None,
        },
{
    match v {
        JsonValue::Array(items) => {
            let mut out: Vec<Props> = Vec::new();
            let mut i: usize = 0;
            while i < items.len()
                invariant
                    *v == JsonValue::Array(*items),
                    0 <= i <= items@.len(),
                    out@.len() == i,
                    forall|j: int| 0 <= j < i ==> spec_decode_prop(#[trigger] items@[j]) is Some,
                    forall|j: int|
                        0 <= j < i ==> spec_decode_prop(#[trigger] items@[j]) == Some(
                            out@.map_values(|p: Props| p@)[j],
                        ),
                decreases items@.len() - i,
            {
                match decode_prop(&items[i]) {
                    Some(p) => {
                        out.push(p);
                    },
                    None => {
                        proof {
                            assert(!prop_items_ok(items@));
                        }
                        return None;
                    },
                }
                i = i + 1;
            }
            proof {
                assert(out@.map_values(|p: Props| p@) =~= prop_items_vals(items@));
            }
            Some(out)
        },
        _ => None,
    }
}

// ---------------------------------------------------------------------------
// Stereo
// ---------------------------------------------------------------------------

/// The exact decode of a tetrahedral-center record: an object with seven
/// required integer fields, the type code keyed `type` on the wire.
pub open spec fn spec_decode_tetra(v: JsonValue) -> Option<Tetrahedral> {
    match (
        spec_field(v, "above"@),
        spec_field(v, "below"@),
        spec_field(v, "bottom"@),
        spec_field(v, "center"@),
        spec_field(v, "parity"@),
        spec_field(v, "top"@),
        spec_field(v, "type"@),
    ) {
        (Some(a), Some(b), Some(bo), Some(c), Some(p), Some(t), Some(ty)) => if is_num_u32(a)
            && is_num_u32(b) && is_num_u32(bo) && is_num_u32(c) && is_num_u32(p) && is_num_u32(t)
            && is_num_u32(ty) {
            Some(
                Tetrahedral {
                    above: num_val_u32(a),
                    below: num_val_u32(b),
                    bottom: num_val_u32(bo),
                    center: num_val_u32(c),
                    parity: num_val_u32(p),
                    top: num_val_u32(t),
                    ttype: num_val_u32(ty),
                },
            )
        } else {
            None
        },
        _ => None,
    }
}

fn required_u32_field(v: &JsonValue, key: &String) -> (r: Option<u32>)
    ensures
        match r {
            Some(n) => spec_field(*v, key@) matches Some(f) && is_num_u32(f) && n == num_val_u32(
                f,
            ),
            None => !(spec_field(*v, key@) matches Some(f) && is_num_u32(f)),
        },
{
    match json_field(v, key) {
        Some(f) => json_u32(f),
        None => None,
    }
}

/// Decode a tetrahedral-center record.
pub fn decode_tetra(v: &JsonValue) -> (r: Option<Tetrahedral>)
    ensures
        match r {
            Some(t) => spec_decode_tetra(*v) == Some(t),
            None => spec_decode_tetra(*v) is None,
        },
{
    let above = match required_u32_field(v, &"above".to_owned()) {
        Some(n) => n,
        None => {
            return None;
        },
    };
    let below = match required_u32_field(v, &"below".to_owned()) {
        Some(n) => n,
        None => {
            return None;
        },
    };
    let bottom = match required_u32_field(v, &"bottom".to_owned()) {
        Some(n) => n,
        None => {
            return None;
        },
    };
    let center = match required_u32_field(v, &"center".to_owned()) {
        Some(n) => n,
        None => {
            return None;
        },
    };
    let parity = match required_u32_field(v, &"parity".to_owned()) {
        Some(n) => n,
        None => {
            return None;
        },
    };
    let top = match required_u32_field(v, &"top".to_owned()) {
        Some(n) => n,
        None => {
            return None;
        },
    };
    let ttype = match required_u32_field(v, &"type".to_owned()) {
        Some(n) => n,
        None => {
            return None;
        },
    };
    Some(Tetrahedral { above, below, bottom, center, parity, top, ttype })
}

/// The exact decode of one stereo descriptor: an object whose
/// `tetrahedral` field is optional.
pub open spec fn spec_decode_stereo(v: JsonValue) -> Option<Stereo> {
    if !(v matches JsonValue::Object(_)) {
        None
    } else {
        match spec_field(v, "tetrahedral"@) {
            None => Some(Stereo { tetrahedral: None }),
            Some(f) => if f is Null {
                Some(Stereo { tetrahedral: None })
            } else {
                match spec_decode_tetra(f) {
                    Some(t) => Some(Stereo { tetrahedral: Some(t) }),
                    None => None,
                }
            },
        }
    }
}

/// Decode one stereo descriptor.
pub fn decode_stereo(v: &JsonValue) -> (r: Option<Stereo>)
    ensures
        match r {
            Some(s) => spec_decode_stereo(*v) == Some(s),
            None => spec_decode_stereo(*v) is None,
        },
{
    match v {
        JsonValue::Object(_) => {},
        _ => {
            return None;
        },
    }
    match json_field(v, &"tetrahedral".to_owned()) {
        None => Some(Stereo { tetrahedral: None }),
        Some(f) => match f {
            JsonValue::Null => Some(Stereo { tetrahedral: None }),
            _ => match decode_tetra(f) {
                Some(t) => Some(Stereo { tetrahedral: Some(t) }),
                None => None,
            },
        },
    }
}

/// Whether every element of a sequence decodes as a stereo descriptor.
pub open spec fn stereo_items_ok(items: Seq<JsonValue>) -> bool {
    forall|i: int| 0 <= i < items.len() ==> spec_decode_stereo(#[trigger] items[i]) is Some
}

/// The stereo descriptors a sequence of nodes decodes to.
pub open spec fn stereo_items_vals(items: Seq<JsonValue>) -> Seq<Stereo> {
    Seq::new(
        items.len(),
        |i: int|
            match spec_decode_stereo(items[i]) {
                Some(s) => s,
                None => Stereo { tetrahedral: None },
            },
    )
}

/// The exact decode of the stereo list.
pub open spec fn spec_decode_stereos(v: JsonValue) -> Option<Seq<Stereo>> {
    match v {
        JsonValue::Array(items) => if stereo_items_ok(items@) {
            Some(stereo_items_vals(items@))
        } else {
            None
        },
        _ => None,
    }
}

/// Decode the stereo list.
pub fn decode_stereos(v: &JsonValue) -> (r: Option<Vec<Stereo>>)
    ensures
        match r {
            Some(ss) => spec_decode_stereos(*v) == Some(ss@),
            None => spec_decode_stereos(*v) is None,
        },
{
    match v {
        JsonValue::Array(items) => {
            let mut out: Vec<Stereo> = Vec::new();
            let mut i: usize = 0;
            while i < items.len()
                invariant
                    *v == JsonValue::Array(*items),
                    0 <= i <= items@.len(),
                    out@.len() == i,
                    forall|j: int| 0 <= j < i ==> spec_decode_stereo(#[trigger] items@[j]) is Some,
                    forall|j: int|
                        0 <= j < i ==> spec_decode_stereo(#[trigger] items@[j]) == Some(out@[j]),
                decreases items@.len() - i,
            {
                match decode_stereo(&items[i]) {
                    Some(s) => {
                        out.push(s);
                    },
                    None => {
                        proof {
                            assert(!stereo_items_ok(items@));
                        }
                        return None;
                    },
                }
                i = i + 1;
            }
            proof {
                assert(out@ =~= stereo_items_vals(items@));
            }
            Some(out)
        },
        _ => None,
    }
}

// ---------------------------------------------------------------------------
// IUPAC names
// ---------------------------------------------------------------------------

/// The exact decode of one IUPAC name entry: an object whose name is keyed
/// `IUPACName` on the wire, optionally absent.
pub open spec fn spec_decode_iupac(v: JsonValue) -> Option<Option<Seq<char>>> {
    if !(v matches JsonValue::Object(_)) {
        None
    } else if text_field_ok(v, "IUPACName"@) {
        Some(text_field_val(v, "IUPACName"@))
    } else {
        None
    }
}

/// Decode one IUPAC name entry.
pub fn decode_iupac(v: &JsonValue) -> (r: Option<IUPACName>)
    ensures
        match r {
            Some(n) => spec_decode_iupac(*v) == Some(n@),
            None => spec_decode_iupac(*v) is None,
        },
{
    match v {
        JsonValue::Object(_) => {},
        _ => {
            return None;
        },
    }
    match text_field(v, &"IUPACName".to_owned()) {
        Some(o) => Some(IUPACName { name: o }),
        None => None,
    }
}

/// Whether every element of a sequence decodes as an IUPAC name entry.
pub open spec fn iupac_items_ok(items: Seq<JsonValue>) -> bool {
    forall|i: int| 0 <= i < items.len() ==> spec_decode_iupac(#[trigger] items[i]) is Some
}

/// The IUPAC name entries a sequence of nodes decodes to.
pub open spec fn iupac_items_vals(items: Seq<JsonValue>) -> Seq<Option<Seq<char>>> {
    Seq::new(
        items.len(),
        |i: int|
            match spec_decode_iupac(items[i]) {
                Some(n) => n,
                None => None,
            },
    )
}

/// The exact decode of the IUPAC name list.
pub open spec fn spec_decode_iupacs(v: JsonValue) -> Option<Seq<Option<Seq<char>>>> {
    match v {
        JsonValue::Array(items) => if iupac_items_ok(items@) {
            Some(iupac_items_vals(items@))
        } else {
            None
        },
        _ => None,
    }
}

/// Decode the IUPAC name list.
pub fn decode_iupacs(v: &JsonValue) -> (r: Option<Vec<IUPACName>>)
    ensures
        match r {
            Some(ns) => spec_decode_iupacs(*v) == Some(ns@.map_values(|n: IUPACName| n@)),
            None => spec_decode_iupacs(*v) is None,
        },
{
    match v {
        JsonValue::Array(items) => {
            let mut out: Vec<IUPACName> = Vec::new();
            let mut i: usize = 0;
            while i < items.len()
                invariant
                    *v == JsonValue::Array(*items),
                    0 <= i <= items@.len(),
                    out@.len() == i,
                    forall|j: int| 0 <= j < i ==> spec_decode_iupac(#[trigger] items@[j]) is Some,
                    forall|j: int|
                        0 <= j < i ==> spec_decode_iupac(#[trigger] items@[j]) == Some(
                            out@.map_values(|n: IUPACName| n@)[j],
                        ),
                decreases items@.len() - i,
            {
                match decode_iupac(&items[i]) {
                    Some(n) => {
                        out.push(n);
                    },
                    None => {
                        proof {
                            assert(!iupac_items_ok(items@));
                        }
                        return None;
                    },
                }
                i = i + 1;
            }
            proof {
                assert(out@.map_values(|n: IUPACName| n@) =~= iupac_items_vals(items@));
            }
            Some(out)
        },
        _ => None,
    }
}



// ---------------------------------------------------------------------------
// One compound record
// ---------------------------------------------------------------------------

/// Whether the optional `atoms` field is acceptable.
pub open spec fn atoms_field_ok(v: JsonValue) -> bool {
    match spec_field(v, "atoms"@) {
        None => true,
        Some(f) => f is Null || spec_decode_atoms(f) is Some,
    }
}

/// The value of the optional `atoms` field.
pub open spec fn atoms_field_val(v: JsonValue) -> Option<AtomsV> {
    match spec_field(v, "atoms"@) {
        None => None,
        Some(f) => if f is Null {
            None
        } else {
            spec_decode_atoms(f)
        },
    }
}

/// Whether the optional `bonds` field is acceptable.
pub open spec fn bonds_field_ok(v: JsonValue) -> bool {
    match spec_field(v, "bonds"@) {
        None => true,
        Some(f) => f is Null || spec_decode_bonds(f) is Some,
    }
}

/// The value of the optional `bonds` field.
pub open spec fn bonds_field_val(v: JsonValue) -> Option<Seq<BondsV>> {
    match spec_field(v, "bonds"@) {
        None => None,
        Some(f) => if f is Null {
            None
        } else {
            spec_decode_bonds(f)
        },
    }
}

/// Whether the optional `coords` field is acceptable.
pub open spec fn coords_field_ok(v: JsonValue) -> bool {
    match spec_field(v, "coords"@) {
        None => true,
        Some(f) => f is Null || spec_decode_coords(f) is Some,
    }
}

/// The value of the optional `coords` field.
pub open spec fn coords_field_val(v: JsonValue) -> Option<Seq<CoordsV>> {
    match spec_field(v, "coords"@) {
        None => None,
        Some(f) => if f is Null {
            None
        } else {
            spec_decode_coords(f)
        },
    }
}

/// Whether the optional `props` field is acceptable.
pub open spec fn props_field_ok(v: JsonValue) -> bool {
    match spec_field(v, "props"@) {
        None => true,
        Some(f) => f is Null || spec_decode_props(f) is Some,
    }
}

/// The value of the optional `props` field.
pub open spec fn props_field_val(v: JsonValue) -> Option<Seq<PropsV>> {
    match spec_field(v, "props"@) {
        None => None,
        Some(f) => if f is Null {
            None
        } else {
            spec_decode_props(f)
        },
    }
}

/// Whether the optional `stereo` field is acceptable.
pub open spec fn stereo_field_ok(v: JsonValue) -> bool {
    match spec_field(v, "stereo"@) {
        None => true,
        Some(f) => f is Null || spec_decode_stereos(f) is Some,
    }
}

/// The value of the optional `stereo` field.
pub open spec fn stereo_field_val(v: JsonValue) -> Option<Seq<Stereo>> {
    match spec_field(v, "stereo"@) {
        None => None,
        Some(f) => if f is Null {
            None
        } else {
            spec_decode_stereos(f)
        },
    }
}

/// Whether the optional `iupac` field is acceptable.
pub open spec fn iupac_field_ok(v: JsonValue) -> bool {
    match spec_field(v, "iupac"@) {
        None => true,
        Some(f) => f is Null || spec_decode_iupacs(f) is Some,
    }
}

/// The value of the optional `iupac` field.
pub open spec fn iupac_field_val(v: JsonValue) -> Option<Seq<Option<Seq<char>>>> {
    match spec_field(v, "iupac"@) {
        None => None,
        Some(f) => if f is Null {
            None
        } else {
            spec_decode_iupacs(f)
        },
    }
}

/// Whether a node decodes as a compound record: a JSON object whose every
/// recognised field, when present, has the right shape. Unrecognised fields
/// are ignored.
pub open spec fn compound_ok(v: JsonValue) -> bool {
    &&& v matches JsonValue::Object(_)
    &&& u32_field_ok(v, "cid"@)
    &&& atoms_field_ok(v)
    &&& bonds_field_ok(v)
    &&& coords_field_ok(v)
    &&& props_field_ok(v)
    &&& stereo_field_ok(v)
    &&& text_field_ok(v, "molecular_formula"@)
    &&& numtext_field_ok(v, "molecular_weight"@)
    &&& text_field_ok(v, "inchi"@)
    &&& text_field_ok(v, "inchikey"@)
    &&& text_field_ok(v, "isomeric_smiles"@)
    &&& numtext_field_ok(v, "tpsa"@)
    &&& numtext_field_ok(v, "xlogp"@)
    &&& numtext_field_ok(v, "exact_mass"@)
    &&& numtext_field_ok(v, "complexity"@)
    &&& u32_field_ok(v, "h_bond_donor_count"@)
    &&& u32_field_ok(v, "h_bond_acceptor_count"@)
    &&& u32_field_ok(v, "rotatable_bond_count"@)
    &&& u32_field_ok(v, "heavy_atom_count"@)
    &&& i32_field_ok(v, "charge"@)
    &&& iupac_field_ok(v)
}

/// The compound a node decodes to, when `compound_ok` holds of it.
pub open spec fn compound_val(v: JsonValue) -> CompoundV {
    CompoundV {
        cid: u32_field_val(v, "cid"@),
        atoms: atoms_field_val(v),
        bonds: bonds_field_val(v),
        coords: coords_field_val(v),
        props: props_field_val(v),
        stereo: stereo_field_val(v),
        molecular_formula: text_field_val(v, "molecular_formula"@),
        molecular_weight: numtext_field_val(v, "molecular_weight"@),
        inchi: text_field_val(v, "inchi"@),
        inchikey: text_field_val(v, "inchikey"@),
        isomeric_smiles: text_field_val(v, "isomeric_smiles"@),
        tpsa: numtext_field_val(v, "tpsa"@),
        xlogp: numtext_field_val(v, "xlogp"@),
        exact_mass: numtext_field_val(v, "exact_mass"@),
        complexity: numtext_field_val(v, "complexity"@),
        h_bond_donor_count: u32_field_val(v, "h_bond_donor_count"@),
        h_bond_acceptor_count: u32_field_val(v, "h_bond_acceptor_count"@),
        rotatable_bond_count: u32_field_val(v, "rotatable_bond_count"@),
        heavy_atom_count: u32_field_val(v, "heavy_atom_count"@),
        charge: i32_field_val(v, "charge"@),
        iupac: iupac_field_val(v),
    }
}

/// The exact decode of one compound record.
pub open spec fn spec_decode_compound(v: JsonValue) -> Option<CompoundV> {
    if compound_ok(v) {
        Some(compound_val(v))
    } else {
        None
    }
}

/// Decode one compound record.
pub fn decode_compound(v: &JsonValue) -> (r: Option<Compound>)
    ensures
        match r {
            Some(c) => spec_decode_compound(*v) == Some(c@),
            None => spec_decode_compound(*v) is None,
        },
{
    match v {
        JsonValue::Object(_) => {},
        _ => {
            return None;
        },
    }
    let cid = match u32_field(v, &"cid".to_owned()) {
        Some(o) => o,
        None => {
            return None;
        },
    };
    let atoms: Option<AtomInfo> = match json_field(v, &"atoms".to_owned()) {
        None => None,
        Some(f) => match f {
            JsonValue::Null => None,
            _ => match decode_atoms(f) {
                Some(a) => Some(a),
                None => {
                    return None;
                },
            },
        },
    };
    let bonds: Option<Vec<BondInfo>> = match json_field(v, &"bonds".to_owned()) {
        None => None,
        Some(f) => match f {
            JsonValue::Null => None,
            _ => match decode_bonds(f) {
                Some(ts) => Some(ts),
                None => {
                    return None;
                },
            },
        },
    };
    let coords: Option<Vec<Coords>> = match json_field(v, &"coords".to_owned()) {
        None => None,
        Some(f) => match f {
            JsonValue::Null => None,
            _ => match decode_coords(f) {
                Some(cs) => Some(cs),
                None => {
                    return None;
                },
            },
        },
    };
    let props: Option<Vec<Props>> = match json_field(v, &"props".to_owned()) {
        None => None,
        Some(f) => match f {
            JsonValue::Null => None,
            _ => match decode_props(f) {
                Some(ps) => Some(ps),
                None => {
                    return None;
                },
            },
        },
    };
    let stereo: Option<Vec<Stereo>> = match json_field(v, &"stereo".to_owned()) {
        None => None,
        Some(f) => match f {
            JsonValue::Null => None,
            _ => match decode_stereos(f) {
                Some(ss) => Some(ss),
                None => {
                    return None;
                },
            },
        },
    };
    let molecular_formula = match text_field(v, &"molecular_formula".to_owned()) {
        Some(o) => o,
        None => {
            return None;
        },
    };
    let molecular_weight = match numtext_field(v, &"molecular_weight".to_owned()) {
        Some(o) => o,
        None => {
            return None;
        },
    };
    let inchi = match text_field(v, &"inchi".to_owned()) {
        Some(o) => o,
        None => {
            return None;
        },
    };
    let inchikey = match text_field(v, &"inchikey".to_owned()) {
        Some(o) => o,
        None => {
            return None;
        },
    };
    let isomeric_smiles = match text_field(v, &"isomeric_smiles".to_owned()) {
        Some(o) => o,
        None => {
            return None;
        },
    };
    let tpsa = match numtext_field(v, &"tpsa".to_owned()) {
        Some(o) => o,
        None => {
            return None;
        },
    };
    let xlogp = match numtext_field(v, &"xlogp".to_owned()) {
        Some(o) => o,
        None => {
            return None;
        },
    };
    let exact_mass = match numtext_field(v, &"exact_mass".to_owned()) {
        Some(o) => o,
        None => {
            return None;
        },
    };
    let complexity = match numtext_field(v, &"complexity".to_owned()) {
        Some(o) => o,
        None => {
            return None;
        },
    };
    let h_bond_donor_count = match u32_field(v, &"h_bond_donor_count".to_owned()) {
        Some(o) => o,
        None => {
            return None;
        },
    };
    let h_bond_acceptor_count = match u32_field(v, &"h_bond_acceptor_count".to_owned()) {
        Some(o) => o,
        None => {
            return None;
        },
    };
    let rotatable_bond_count = match u32_field(v, &"rotatable_bond_count".to_owned()) {
        Some(o) => o,
        None => {
            return None;
        },
    };
    let heavy_atom_count = match u32_field(v, &"heavy_atom_count".to_owned()) {
        Some(o) => o,
        None => {
            return None;
        },
    };
    let charge = match i32_field(v, &"charge".to_owned()) {
        Some(o) => o,
        None => {
            return None;
        },
    };
    let iupac: Option<Vec<IUPACName>> = match json_field(v, &"iupac".to_owned()) {
        None => None,
        Some(f) => match f {
            JsonValue::Null => None,
            _ => match decode_iupacs(f) {
                Some(ns) => Some(ns),
                None => {
                    return None;
                },
            },
        },
    };
    Some(
        Compound {
            cid,
            atoms,
            bonds,
            coords,
            props,
            stereo,
            molecular_formula,
            molecular_weight,
            inchi,
            inchikey,
            isomeric_smiles,
            tpsa,
            xlogp,
            exact_mass,
            complexity,
            h_bond_donor_count,
            h_bond_acceptor_count,
            rotatable_bond_count,
            heavy_atom_count,
            charge,
            iupac,
        },
    )
}

/// A decoded compound satisfies the parallel-array invariant.
pub proof fn lemma_decode_wf(v: JsonValue)
    ensures
        spec_decode_compound(v) matches Some(c) ==> compound_wf(c),
{
    if compound_ok(v) {
        let c = compound_val(v);
        if c.atoms is Some {
            assert(atoms_wf(c.atoms->Some_0));
        }
        if c.bonds is Some {
            let ts = c.bonds->Some_0;
            assert forall|i: int| 0 <= i < ts.len() implies bonds_wf(#[trigger] ts[i]) by {
                assert(spec_decode_bond_table(
                    spec_field(v, "bonds"@)->Some_0->Array_0@[i],
                ) is Some);
            }
        }
        if c.coords is Some {
            let cs = c.coords->Some_0;
            assert forall|i: int| 0 <= i < cs.len() implies coords_wf(#[trigger] cs[i]) by {
                let f = spec_field(v, "coords"@)->Some_0;
                assert(spec_decode_coords_set(f->Array_0@[i]) is Some);
                let set_node = f->Array_0@[i];
                let items = spec_field(set_node, "conformers"@)->Some_0->Array_0;
                assert forall|j: int|
                    0 <= j < cs[i].conformers.len() implies conformer_wf(
                    #[trigger] cs[i].conformers[j],
                ) by {
                    assert(spec_decode_conformer(items@[j]) is Some);
                }
            }
        }
    }
}

// ---------------------------------------------------------------------------
// The response document
// ---------------------------------------------------------------------------

/// The tagged outcome of decoding one response document.
pub enum MatchOutcome {
    /// The collection key was absent, its value was not a list, or no
    /// element of the list decoded: no result for this query.
    Empty,
    /// Exactly one compound decoded.
    Single(Compound),
    /// Two or more compounds decoded.
    Collection(Vec<Compound>),
}

/// The abstract value of a [`MatchOutcome`].
pub enum OutcomeV {
    Empty,
    Single(CompoundV),
    Collection(Seq<CompoundV>),
}

impl View for MatchOutcome {
    type V = OutcomeV;

    open spec fn view(&self) -> OutcomeV {
        match self {
            MatchOutcome::Empty => OutcomeV::Empty,
            MatchOutcome::Single(c) => OutcomeV::Single(c@),
            MatchOutcome::Collection(cs) => OutcomeV::Collection(
                cs@.map_values(|c: Compound| c@),
            ),
        }
    }
}

/// The compounds a list of nodes decodes to, in order; an element that
/// fails to decode is skipped.
pub open spec fn spec_compound_list(items: Seq<JsonValue>) -> Seq<CompoundV>
    decreases items.len(),
{
    if items.len() == 0 {
        Seq::empty()
    } else {
        spec_compound_list(items.drop_last()) + (match spec_decode_compound(items.last()) {
            Some(c) => seq![c],
            None => Seq::empty(),
        })
    }
}

/// The exact outcome of one response document: the compounds under the
/// collection key `PC_Compounds`, tagged by how many decoded; no result
/// when the key is absent or its value is not a list.
pub open spec fn spec_outcome(v: JsonValue) -> OutcomeV {
    match spec_field(v, "PC_Compounds"@) {
        Some(JsonValue::Array(items)) => {
            let cs = spec_compound_list(items@);
            if cs.len() == 0 {
                OutcomeV::Empty
            } else if cs.len() == 1 {
                OutcomeV::Single(cs[0])
            } else {
                OutcomeV::Collection(cs)
            }
        },
        _ => OutcomeV::Empty,
    }
}

/// Map one parsed response document to its outcome.
pub fn map_document(v: &JsonValue) -> (r: MatchOutcome)
    ensures
        r@ == spec_outcome(*v),
{
    let key = "PC_Compounds".to_owned();
    match json_field(v, &key) {
        Some(f) => match f {
            JsonValue::Array(items) => {
                let mut out: Vec<Compound> = Vec::new();
                let mut i: usize = 0;
                while i < items.len()
                    invariant
                        *f == JsonValue::Array(*items),
                        0 <= i <= items@.len(),
                        out@.map_values(|c: Compound| c@) == spec_compound_list(
                            items@.take(i as int),
                        ),
                    decreases items@.len() - i,
                {
                    proof {
                        assert(items@.take(i as int + 1).drop_last() =~= items@.take(i as int));
                        assert(items@.take(i as int + 1).last() == items@[i as int]);
                    }
                    match decode_compound(&items[i]) {
                        Some(c) => {
                            let ghost prev = out@.map_values(|c: Compound| c@);
                            out.push(c);
                            proof {
                                assert(out@.map_values(|c: Compound| c@) =~= prev.push(c@));
                                assert(prev.push(c@) =~= prev + seq![c@]);
                            }
                        },
                        None => {
                            proof {
                                assert(spec_compound_list(items@.take(i as int + 1))
                                    =~= spec_compound_list(items@.take(i as int)));
                            }
                        },
                    }
                    i = i + 1;
                }
                proof {
                    assert(items@.take(items@.len() as int) =~= items@);
                }
                if out.len() == 0 {
                    MatchOutcome::Empty
                } else if out.len() == 1 {
                    let c = out.remove(0);
                    proof {
                        assert(spec_compound_list(items@)[0] == c@);
                    }
                    MatchOutcome::Single(c)
                } else {
                    MatchOutcome::Collection(out)
                }
            },
            _ => MatchOutcome::Empty,
        },
        None => MatchOutcome::Empty,
    }
}

/// Every compound of an outcome satisfies the parallel-array invariant.
pub open spec fn outcome_wf(o: OutcomeV) -> bool {
    match o {
        OutcomeV::Empty => true,
        OutcomeV::Single(c) => compound_wf(c),
        OutcomeV::Collection(cs) => forall|i: int|
            0 <= i < cs.len() ==> compound_wf(#[trigger] cs[i]),
    }
}

/// Every compound that a list of nodes decodes to is well-formed.
pub proof fn lemma_compound_list_wf(items: Seq<JsonValue>)
    ensures
        forall|i: int|
            0 <= i < spec_compound_list(items).len() ==> compound_wf(
                #[trigger] spec_compound_list(items)[i],
            ),
    decreases items.len(),
{
    if items.len() > 0 {
        lemma_compound_list_wf(items.drop_last());
        lemma_decode_wf(items.last());
        let prefix = spec_compound_list(items.drop_last());
        let whole = spec_compound_list(items);
        assert forall|i: int| 0 <= i < whole.len() implies compound_wf(#[trigger] whole[i]) by {
            if i < prefix.len() {
                assert(whole[i] == prefix[i]);
            } else {
                assert(spec_decode_compound(items.last()) is Some);
                assert(whole[i] == spec_decode_compound(items.last())->Some_0);
            }
        }
    }
}

/// The outcome of any document is well-formed.
pub proof fn lemma_outcome_wf(v: JsonValue)
    ensures
        outcome_wf(spec_outcome(v)),
{
    match spec_field(v, "PC_Compounds"@) {
        Some(f) => match f {
            JsonValue::Array(items) => {
                lemma_compound_list_wf(items@);
            },
            _ => {},
        },
        None => {},
    }
}

/// Decode one response body: exactly the outcome of the tree the bytes
/// parse to, and a failure exactly when the bytes are not valid JSON.
/// Every compound of the outcome satisfies the parallel-array invariant.
pub fn decode_response(bytes: &[u8]) -> (r: Option<MatchOutcome>)
    ensures
        match crate::json::spec_parse_json(bytes@) {
            Some(v) => r matches Some(o) && o@ == spec_outcome(v) && outcome_wf(o@),
            None => r is None,
        },
{
    match crate::json::parse_json(bytes) {
        Some(v) => {
            let o = map_document(&v);
            proof {
                lemma_outcome_wf(v);
            }
            Some(o)
        },
        None => None,
    }
}


} // verus!
