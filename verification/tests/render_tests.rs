use compound_report::model::{AtomInfo, BondInfo, Compound, Conformer, Coords, IUPACName,
    PropertyValue, Props, Stereo, Tetrahedral, Urn};
use compound_report::render::render_compound;

fn empty_compound() -> Compound {
    Compound {
        cid: None,
        atoms: None,
        bonds: None,
        coords: None,
        props: None,
        stereo: None,
        molecular_formula: None,
        molecular_weight: None,
        inchi: None,
        inchikey: None,
        isomeric_smiles: None,
        tpsa: None,
        xlogp: None,
        exact_mass: None,
        complexity: None,
        h_bond_donor_count: None,
        h_bond_acceptor_count: None,
        rotatable_bond_count: None,
        heavy_atom_count: None,
        charge: None,
        iupac: None,
    }
}

#[test]
fn absent_fields_render_as_none() {
    let text = render_compound(&empty_compound());
    let expected = "Compound Information:\n\
---------------------\n\
CID: None\n\
Molecular Formula: None\n\
Molecular Weight: None\n\
InChI: None\n\
InChIKey: None\n\
Isomeric SMILES: None\n\
TPSA: None\n\
XLogP: None\n\
Exact Mass: None\n\
Complexity: None\n\
H-Bond Donor Count: None\n\
H-Bond Acceptor Count: None\n\
Rotatable Bond Count: None\n\
Heavy Atom Count: None\n\
Charge: None\n\
---------------------\n\
Atoms: None\n\
---------------------\n\
Bonds: None\n\
---------------------\n\
Coordinates: None\n\
---------------------\n\
Properties: None\n\
---------------------\n\
Stereo Information: None\n\
---------------------\n\
IUPAC Names: None\n";
    assert_eq!(text, expected);
}

#[test]
fn rendering_is_deterministic() {
    let mut c = empty_compound();
    c.cid = Some(2244);
    c.molecular_formula = Some("C9H8O4".to_string());
    c.atoms = Some(AtomInfo { aid: vec![1, 2], element: vec![6, 8] });
    let first = render_compound(&c);
    let second = render_compound(&c);
    assert_eq!(first, second);
}

#[test]
fn scalar_fields_render_their_values() {
    let mut c = empty_compound();
    c.cid = Some(2244);
    c.molecular_weight = Some("180.16".to_string());
    c.charge = Some(-1);
    c.heavy_atom_count = Some(13);
    let text = render_compound(&c);
    assert!(text.contains("CID: 2244\n"));
    assert!(text.contains("Molecular Weight: 180.16\n"));
    assert!(text.contains("Charge: -1\n"));
    assert!(text.contains("Heavy Atom Count: 13\n"));
}

#[test]
fn bond_lines_are_numbered_one_based_and_contiguous() {
    let mut c = empty_compound();
    c.bonds = Some(vec![BondInfo {
        aid1: vec![1, 2],
        aid2: vec![2, 3],
        order: vec![1, 2],
    }]);
    let text = render_compound(&c);
    assert!(text.contains("Bonds:\n"));
    assert!(text.contains("  Bond 1: Atom1 1, Atom2 2, Order 1\n"));
    assert!(text.contains("  Bond 2: Atom1 2, Atom2 3, Order 2\n"));
    let bond_lines = text.lines().filter(|l| l.starts_with("  Bond ")).count();
    assert_eq!(bond_lines, 2);
}

#[test]
fn bond_numbering_continues_across_tables() {
    let mut c = empty_compound();
    c.bonds = Some(vec![
        BondInfo { aid1: vec![1], aid2: vec![2], order: vec![1] },
        BondInfo { aid1: vec![3], aid2: vec![4], order: vec![2] },
    ]);
    let text = render_compound(&c);
    assert!(text.contains("  Bond 1: Atom1 1, Atom2 2, Order 1\n"));
    assert!(text.contains("  Bond 2: Atom1 3, Atom2 4, Order 2\n"));
    let bond_lines = text.lines().filter(|l| l.starts_with("  Bond ")).count();
    assert_eq!(bond_lines, 2);
}

#[test]
fn atom_lines_render_id_and_element() {
    let mut c = empty_compound();
    c.atoms = Some(AtomInfo { aid: vec![1, 2], element: vec![6, 8] });
    let text = render_compound(&c);
    assert!(text.contains("Atoms:\n"));
    assert!(text.contains("  Atom ID: 1, Element: 6\n"));
    assert!(text.contains("  Atom ID: 2, Element: 8\n"));
}

#[test]
fn conformer_line_renders_coordinate_lists() {
    let mut c = empty_compound();
    c.coords = Some(vec![Coords {
        conformers: vec![Conformer {
            x: vec!["1.5".to_string(), "2.25".to_string()],
            y: vec!["0.5".to_string(), "3.0".to_string()],
        }],
    }]);
    let text = render_compound(&c);
    assert!(text.contains("Coordinates:\n"));
    assert!(text.contains("  Conformer 1: X = [1.5, 2.25], Y = [0.5, 3.0]\n"));
}

#[test]
fn property_line_renders_label_and_value() {
    let mut c = empty_compound();
    c.props = Some(vec![
        Props {
            urn: Urn {
                datatype: None,
                label: Some("Mass".to_string()),
                name: None,
                release: None,
                software: None,
                source: None,
                version: None,
            },
            value: PropertyValue {
                fval: Some("180.042".to_string()),
                ival: None,
                sval: None,
                binary: None,
            },
        },
        Props {
            urn: Urn {
                datatype: None,
                label: None,
                name: None,
                release: None,
                software: None,
                source: None,
                version: None,
            },
            value: PropertyValue { fval: None, ival: Some(3), sval: None, binary: None },
        },
    ]);
    let text = render_compound(&c);
    assert!(text.contains("Properties:\n"));
    assert!(text.contains("  Property: Mass, Value: 180.042\n"));
    assert!(text.contains("  Property: None, Value: 3\n"));
}

#[test]
fn stereo_lines_keep_the_entry_position() {
    let mut c = empty_compound();
    c.stereo = Some(vec![
        Stereo { tetrahedral: None },
        Stereo {
            tetrahedral: Some(Tetrahedral {
                above: 1,
                below: 2,
                bottom: 3,
                center: 4,
                parity: 5,
                top: 6,
                ttype: 7,
            }),
        },
    ]);
    let text = render_compound(&c);
    assert!(text.contains("Stereo Information:\n"));
    assert!(text.contains(
        "  Stereo 2: Above = 1, Below = 2, Bottom = 3, Center = 4, Parity = 5, Top = 6, Type = 7\n"
    ));
    assert!(!text.contains("  Stereo 1:"));
}

#[test]
fn iupac_names_render_with_unknown_fallback() {
    let mut c = empty_compound();
    c.iupac = Some(vec![
        IUPACName { name: Some("aspirin".to_string()) },
        IUPACName { name: None },
    ]);
    let text = render_compound(&c);
    assert!(text.contains("IUPAC Names:\n"));
    assert!(text.contains("  aspirin\n"));
    assert!(text.contains("  Unknown\n"));
}
