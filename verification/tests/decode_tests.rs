use compound_report::decode::{decode_response, decode_compound, map_document, MatchOutcome};
use compound_report::json::{parse_json, JsonValue};

fn parse(bytes: &[u8]) -> JsonValue {
    parse_json(bytes).expect("valid JSON")
}

#[test]
fn single_compound_in_list() {
    let body = br#"{"PC_Compounds":[{"cid":2244,"molecular_formula":"C9H8O4","molecular_weight":180.16,"charge":0}]}"#;
    let out = decode_response(body).expect("valid JSON");
    match out {
        MatchOutcome::Single(c) => {
            assert_eq!(c.cid, Some(2244));
            assert_eq!(c.molecular_formula.as_deref(), Some("C9H8O4"));
            assert_eq!(c.molecular_weight.as_deref(), Some("180.16"));
            assert_eq!(c.charge, Some(0));
            assert!(c.atoms.is_none());
            assert!(c.bonds.is_none());
            assert!(c.inchi.is_none());
        }
        _ => panic!("expected a single compound"),
    }
}

#[test]
fn collection_key_absent_is_empty() {
    let body = br#"{"Fault":{"Code":"PUGREST.NotFound"}}"#;
    let out = decode_response(body).expect("valid JSON");
    assert!(matches!(out, MatchOutcome::Empty));
}

#[test]
fn collection_key_not_a_list_is_empty() {
    let body = br#"{"PC_Compounds":{"cid":1}}"#;
    let out = decode_response(body).expect("valid JSON");
    assert!(matches!(out, MatchOutcome::Empty));
}

#[test]
fn empty_collection_is_empty() {
    let body = br#"{"PC_Compounds":[]}"#;
    let out = decode_response(body).expect("valid JSON");
    assert!(matches!(out, MatchOutcome::Empty));
}

#[test]
fn invalid_json_fails() {
    assert!(decode_response(b"{not json").is_none());
}

#[test]
fn two_compounds_are_a_collection() {
    let body = br#"{"PC_Compounds":[{"cid":1},{"cid":2}]}"#;
    let out = decode_response(body).expect("valid JSON");
    match out {
        MatchOutcome::Collection(cs) => {
            assert_eq!(cs.len(), 2);
            assert_eq!(cs[0].cid, Some(1));
            assert_eq!(cs[1].cid, Some(2));
        }
        _ => panic!("expected a collection"),
    }
}

#[test]
fn failing_element_is_skipped() {
    let body = br#"{"PC_Compounds":[{"cid":"bad"},{"cid":7}]}"#;
    let out = decode_response(body).expect("valid JSON");
    match out {
        MatchOutcome::Single(c) => assert_eq!(c.cid, Some(7)),
        _ => panic!("the bad element should be skipped, the good one kept"),
    }
}

#[test]
fn all_elements_failing_is_empty() {
    let body = br#"{"PC_Compounds":[{"cid":"bad"},{"cid":1.5}]}"#;
    let out = decode_response(body).expect("valid JSON");
    assert!(matches!(out, MatchOutcome::Empty));
}

#[test]
fn null_field_decodes_as_absent() {
    let body = br#"{"PC_Compounds":[{"cid":null,"xlogp":null}]}"#;
    let out = decode_response(body).expect("valid JSON");
    match out {
        MatchOutcome::Single(c) => {
            assert!(c.cid.is_none());
            assert!(c.xlogp.is_none());
        }
        _ => panic!("expected a single compound"),
    }
}

#[test]
fn atoms_and_bonds_decode() {
    let body = br#"{"PC_Compounds":[{"atoms":{"aid":[1,2,3],"element":[6,8,1]},"bonds":[{"aid1":[1,2],"aid2":[2,3],"order":[1,2]}]}]}"#;
    let out = decode_response(body).expect("valid JSON");
    match out {
        MatchOutcome::Single(c) => {
            let atoms = c.atoms.expect("atoms present");
            assert_eq!(atoms.aid, vec![1, 2, 3]);
            assert_eq!(atoms.element, vec![6, 8, 1]);
            let bonds = c.bonds.expect("bonds present");
            assert_eq!(bonds.len(), 1);
            assert_eq!(bonds[0].aid1, vec![1, 2]);
            assert_eq!(bonds[0].aid2, vec![2, 3]);
            assert_eq!(bonds[0].order, vec![1, 2]);
        }
        _ => panic!("expected a single compound"),
    }
}

#[test]
fn unequal_parallel_arrays_fail_the_element() {
    let body = br#"{"PC_Compounds":[{"atoms":{"aid":[1,2],"element":[6]}}]}"#;
    let out = decode_response(body).expect("valid JSON");
    assert!(matches!(out, MatchOutcome::Empty));
}

#[test]
fn u32_bounds_are_enforced() {
    let ok = parse(br#"{"cid":4294967295}"#);
    assert_eq!(decode_compound(&ok).expect("fits").cid, Some(4294967295));
    let too_big = parse(br#"{"cid":4294967296}"#);
    assert!(decode_compound(&too_big).is_none());
}

#[test]
fn negative_charge_decodes() {
    let v = parse(br#"{"charge":-2}"#);
    assert_eq!(decode_compound(&v).expect("valid").charge, Some(-2));
}

#[test]
fn non_object_compound_fails() {
    let v = parse(br#"[1,2,3]"#);
    assert!(decode_compound(&v).is_none());
}

#[test]
fn coords_decode_keeps_number_text() {
    let body = br#"{"PC_Compounds":[{"coords":[{"conformers":[{"x":[1.5,2.25],"y":[0.5,3.0]}]}]}]}"#;
    let out = decode_response(body).expect("valid JSON");
    match out {
        MatchOutcome::Single(c) => {
            let coords = c.coords.expect("coords present");
            assert_eq!(coords.len(), 1);
            let cf = &coords[0].conformers[0];
            assert_eq!(cf.x, vec!["1.5".to_string(), "2.25".to_string()]);
            assert_eq!(cf.y, vec!["0.5".to_string(), "3.0".to_string()]);
        }
        _ => panic!("expected a single compound"),
    }
}

#[test]
fn props_stereo_and_iupac_decode() {
    let body = br#"{"PC_Compounds":[{"props":[{"urn":{"label":"Mass","name":"Exact"},"value":{"fval":180.042}}],"stereo":[{"tetrahedral":{"above":1,"below":2,"bottom":3,"center":4,"parity":5,"top":6,"type":7}},{}],"iupac":[{"IUPACName":"aspirin"},{}]}]}"#;
    let out = decode_response(body).expect("valid JSON");
    match out {
        MatchOutcome::Single(c) => {
            let props = c.props.expect("props present");
            assert_eq!(props.len(), 1);
            assert_eq!(props[0].urn.label.as_deref(), Some("Mass"));
            assert_eq!(props[0].value.fval.as_deref(), Some("180.042"));
            let stereo = c.stereo.expect("stereo present");
            assert_eq!(stereo.len(), 2);
            let t = stereo[0].tetrahedral.expect("tetrahedral present");
            assert_eq!(t.above, 1);
            assert_eq!(t.ttype, 7);
            assert!(stereo[1].tetrahedral.is_none());
            let iupac = c.iupac.expect("iupac present");
            assert_eq!(iupac.len(), 2);
            assert_eq!(iupac[0].name.as_deref(), Some("aspirin"));
            assert!(iupac[1].name.is_none());
        }
        _ => panic!("expected a single compound"),
    }
}

#[test]
fn missing_urn_fails_the_element() {
    let v = parse(br#"{"props":[{"value":{"ival":3}}]}"#);
    assert!(decode_compound(&v).is_none());
}

#[test]
fn wrong_shape_scalar_fails_the_element() {
    let v = parse(br#"{"molecular_formula":7}"#);
    assert!(decode_compound(&v).is_none());
}

#[test]
fn unknown_fields_are_ignored() {
    let v = parse(br#"{"cid":5,"something_else":{"a":[1,2]}}"#);
    assert_eq!(decode_compound(&v).expect("valid").cid, Some(5));
}

#[test]
fn map_document_on_constructed_tree() {
    let doc = JsonValue::Object(vec![(
        "PC_Compounds".to_string(),
        JsonValue::Array(vec![JsonValue::Object(vec![(
            "cid".to_string(),
            JsonValue::Number("42".to_string()),
        )])]),
    )]);
    match map_document(&doc) {
        MatchOutcome::Single(c) => assert_eq!(c.cid, Some(42)),
        _ => panic!("expected a single compound"),
    }
}
