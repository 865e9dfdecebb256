//! The textual report of one compound: a fixed-order, human-readable block.
//!
//! The report is a header, the scalar descriptors in a fixed field order
//! (each line `<Label>: <value>`, with the literal `None` when the field is
//! absent), then the structural sections Atoms, Bonds, Coordinates,
//! Properties, Stereo Information and IUPAC Names, each itemized with
//! 1-based section-local numbering, or the literal `None` when absent.
//! The exact sequence of lines is given by [`spec_report_lines`]; the
//! rendering is a pure function of the compound value.

use vstd::prelude::*;
use crate::model::{AtomInfo, AtomsV, BondInfo, BondsV, Conformer, ConformerV, Coords, CoordsV,
    PropValueV, Props, PropsV, Tetrahedral, Stereo, IUPACName, Compound, CompoundV,
    opt_text_view, opt_view, opt_seq_view, compound_wf, atoms_wf, bonds_wf};
use crate::numtext::{spec_dec, spec_dec_signed, u32_to_string, i32_to_string, u64_to_string};

verus! {

/// The views of a list of lines.
pub open spec fn lines_of(v: Vec<String>) -> Seq<Seq<char>> {
    v@.map_values(|s: String| s@)
}

/// One `<label>: <value>` line.
pub open spec fn kv(label: Seq<char>, value: Seq<char>) -> Seq<char> {
    label + ": "@ + value
}

/// The section separator line.
pub open spec fn sep() -> Seq<char> {
    "---------------------"@
}

/// The text of an optional unsigned count: its numeral, or `None`.
pub open spec fn opt_u32_text(o: Option<u32>) -> Seq<char> {
    match o {
        Some(n) => spec_dec(n as nat),
        None => "None"@,
    }
}

/// The text of an optional signed count: its numeral, or `None`.
pub open spec fn opt_i32_text(o: Option<i32>) -> Seq<char> {
    match o {
        Some(n) => spec_dec_signed(n as int),
        None => "None"@,
    }
}

/// The text of an optional text: itself, or `None`.
pub open spec fn opt_text(o: Option<Seq<char>>) -> Seq<char> {
    match o {
        Some(s) => s,
        None => "None"@,
    }
}

/// The fifteen scalar descriptor lines, in their fixed order.
pub open spec fn scalar_lines(c: CompoundV) -> Seq<Seq<char>> {
    seq![
        kv("CID"@, opt_u32_text(c.cid)),
        kv("Molecular Formula"@, opt_text(c.molecular_formula)),
        kv("Molecular Weight"@, opt_text(c.molecular_weight)),
        kv("InChI"@, opt_text(c.inchi)),
        kv("InChIKey"@, opt_text(c.inchikey)),
        kv("Isomeric SMILES"@, opt_text(c.isomeric_smiles)),
        kv("TPSA"@, opt_text(c.tpsa)),
        kv("XLogP"@, opt_text(c.xlogp)),
        kv("Exact Mass"@, opt_text(c.exact_mass)),
        kv("Complexity"@, opt_text(c.complexity)),
        kv("H-Bond Donor Count"@, opt_u32_text(c.h_bond_donor_count)),
        kv("H-Bond Acceptor Count"@, opt_u32_text(c.h_bond_acceptor_count)),
        kv("Rotatable Bond Count"@, opt_u32_text(c.rotatable_bond_count)),
        kv("Heavy Atom Count"@, opt_u32_text(c.heavy_atom_count)),
        kv("Charge"@, opt_i32_text(c.charge)),
    ]
}

/// One atom line.
pub open spec fn atom_line(aid: u32, element: u32) -> Seq<char> {
    "  Atom ID: "@ + spec_dec(aid as nat) + ", Element: "@ + spec_dec(element as nat)
}

/// The Atoms section: one line per atom, or the literal `None`.
pub open spec fn atoms_lines(a: Option<AtomsV>) -> Seq<Seq<char>> {
    match a {
        Some(av) => seq!["Atoms:"@] + Seq::new(
            av.element.len(),
            |i: int| atom_line(av.aid[i], av.element[i]),
        ),
        None => seq![kv("Atoms"@, "None"@)],
    }
}

/// The endpoint and order triples of one bond table, in order.
pub open spec fn table_triples(t: BondsV) -> Seq<(u32, u32, u32)> {
    Seq::new(t.aid1.len(), |i: int| (t.aid1[i], t.aid2[i], t.order[i]))
}

/// The triples of a list of bond tables, flattened in order.
pub open spec fn flat_bonds(ts: Seq<BondsV>) -> Seq<(u32, u32, u32)>
    decreases ts.len(),
{
    if ts.len() == 0 {
        Seq::empty()
    } else {
        flat_bonds(ts.drop_last()) + table_triples(ts.last())
    }
}

/// One bond line, numbered `n`.
pub open spec fn bond_line(n: nat, tr: (u32, u32, u32)) -> Seq<char> {
    "  Bond "@ + spec_dec(n) + ": Atom1 "@ + spec_dec(tr.0 as nat) + ", Atom2 "@ + spec_dec(
        tr.1 as nat,
    ) + ", Order "@ + spec_dec(tr.2 as nat)
}

/// The bond lines of a flattened triple list, numbered 1-based.
pub open spec fn bond_lines_of(fl: Seq<(u32, u32, u32)>) -> Seq<Seq<char>> {
    Seq::new(fl.len(), |k: int| bond_line((k + 1) as nat, fl[k]))
}

/// The Bonds section: one numbered line per bond across all tables, or the
/// literal `None`.
pub open spec fn bonds_lines(b: Option<Seq<BondsV>>) -> Seq<Seq<char>> {
    match b {
        Some(ts) => seq!["Bonds:"@] + bond_lines_of(flat_bonds(ts)),
        None => seq![kv("Bonds"@, "None"@)],
    }
}

/// A comma-separated list of texts.
pub open spec fn commas(items: Seq<Seq<char>>) -> Seq<char>
    decreases items.len(),
{
    if items.len() == 0 {
        Seq::empty()
    } else if items.len() == 1 {
        items[0]
    } else {
        commas(items.drop_last()) + ", "@ + items.last()
    }
}

/// A bracketed, comma-separated list of texts.
pub open spec fn list_text(items: Seq<Seq<char>>) -> Seq<char> {
    "["@ + commas(items) + "]"@
}

/// The conformers of a list of coordinate sets, flattened in order.
pub open spec fn flat_conformers(cs: Seq<CoordsV>) -> Seq<ConformerV>
    decreases cs.len(),
{
    if cs.len() == 0 {
        Seq::empty()
    } else {
        flat_conformers(cs.drop_last()) + cs.last().conformers
    }
}

/// One conformer line, numbered `n`.
pub open spec fn conformer_line(n: nat, cf: ConformerV) -> Seq<char> {
    "  Conformer "@ + spec_dec(n) + ": X = "@ + list_text(cf.x) + ", Y = "@ + list_text(cf.y)
}

/// The conformer lines of a flattened conformer list, numbered 1-based.
pub open spec fn conformer_lines_of(fl: Seq<ConformerV>) -> Seq<Seq<char>> {
    Seq::new(fl.len(), |k: int| conformer_line((k + 1) as nat, fl[k]))
}

/// The Coordinates section: one numbered line per conformer across all
/// coordinate sets, or the literal `None`.
pub open spec fn coords_lines(c: Option<Seq<CoordsV>>) -> Seq<Seq<char>> {
    match c {
        Some(cs) => seq!["Coordinates:"@] + conformer_lines_of(flat_conformers(cs)),
        None => seq![kv("Coordinates"@, "None"@)],
    }
}

/// The text of a typed property value: the first of the decimal, integer,
/// string or binary payloads that is present, or `None`.
pub open spec fn pvalue_text(pv: PropValueV) -> Seq<char> {
    if pv.fval is Some {
        pv.fval->Some_0
    } else if pv.ival is Some {
        spec_dec(pv.ival->Some_0 as nat)
    } else if pv.sval is Some {
        pv.sval->Some_0
    } else if pv.binary is Some {
        pv.binary->Some_0
    } else {
        "None"@
    }
}

/// One property line.
pub open spec fn prop_line(p: PropsV) -> Seq<char> {
    "  Property: "@ + opt_text(p.urn.label) + ", Value: "@ + pvalue_text(p.value)
}

/// The Properties section: one line per property, or the literal `None`.
pub open spec fn props_lines(p: Option<Seq<PropsV>>) -> Seq<Seq<char>> {
    match p {
        Some(ps) => seq!["Properties:"@] + Seq::new(ps.len(), |i: int| prop_line(ps[i])),
        None => seq![kv("Properties"@, "None"@)],
    }
}

/// One stereo line, numbered `n`.
pub open spec fn stereo_line(n: nat, t: Tetrahedral) -> Seq<char> {
    "  Stereo "@ + spec_dec(n) + ": Above = "@ + spec_dec(t.above as nat) + ", Below = "@
        + spec_dec(t.below as nat) + ", Bottom = "@ + spec_dec(t.bottom as nat) + ", Center = "@
        + spec_dec(t.center as nat) + ", Parity = "@ + spec_dec(t.parity as nat) + ", Top = "@
        + spec_dec(t.top as nat) + ", Type = "@ + spec_dec(t.ttype as nat)
}

/// The stereo item lines: one line per entry that carries a tetrahedral
/// record, numbered by the entry's 1-based position in the list.
pub open spec fn stereo_items(ss: Seq<Stereo>) -> Seq<Seq<char>>
    decreases ss.len(),
{
    if ss.len() == 0 {
        Seq::empty()
    } else {
        stereo_items(ss.drop_last()) + (match ss.last().tetrahedral {
            Some(t) => seq![stereo_line(ss.len(), t)],
            None => Seq::empty(),
        })
    }
}

/// The Stereo Information section, or the literal `None`.
pub open spec fn stereo_lines(s: Option<Seq<Stereo>>) -> Seq<Seq<char>> {
    match s {
        Some(ss) => seq!["Stereo Information:"@] + stereo_items(ss),
        None => seq![kv("Stereo Information"@, "None"@)],
    }
}

/// One IUPAC name line: the name, or `Unknown` when the entry is empty.
pub open spec fn iupac_line(n: Option<Seq<char>>) -> Seq<char> {
    "  "@ + (match n {
        Some(nm) => nm,
        None => "Unknown"@,
    })
}

/// The IUPAC Names section, or the literal `None`.
pub open spec fn iupac_lines(l: Option<Seq<Option<Seq<char>>>>) -> Seq<Seq<char>> {
    match l {
        Some(ns) => seq!["IUPAC Names:"@] + Seq::new(ns.len(), |i: int| iupac_line(ns[i])),
        None => seq![kv("IUPAC Names"@, "None"@)],
    }
}

/// Every line of the report, in order: header, scalar descriptors, then the
/// six structural sections, separated by the separator line.
pub open spec fn spec_report_lines(c: CompoundV) -> Seq<Seq<char>> {
    seq!["Compound Information:"@, sep()] + scalar_lines(c) + seq![sep()] + atoms_lines(c.atoms)
        + seq![sep()] + bonds_lines(c.bonds) + seq![sep()] + coords_lines(c.coords) + seq![sep()]
        + props_lines(c.props) + seq![sep()] + stereo_lines(c.stereo) + seq![sep()] + iupac_lines(
        c.iupac,
    )
}

/// The lines of the report joined, each ended by a newline.
pub open spec fn join(lines: Seq<Seq<char>>) -> Seq<char>
    decreases lines.len(),
{
    if lines.len() == 0 {
        Seq::empty()
    } else {
        join(lines.drop_last()) + lines.last() + "\n"@
    }
}

/// The full report text of one compound.
pub open spec fn spec_render(c: CompoundV) -> Seq<char> {
    join(spec_report_lines(c))
}

fn kv_line(label: &str, value: String) -> (r: String)
    ensures
        r@ == kv(label@, value@),
{
    let mut s = label.to_owned();
    s.append(": ");
    s.append(value.as_str());
    s
}

fn none_line(label: &str) -> (r: String)
    ensures
        r@ == kv(label@, "None"@),
{
    kv_line(label, "None".to_owned())
}

fn opt_u32_line(label: &str, o: &Option<u32>) -> (r: String)
    ensures
        r@ == kv(label@, opt_u32_text(*o)),
{
    match o {
        Some(n) => kv_line(label, u32_to_string(*n)),
        None => none_line(label),
    }
}

fn opt_i32_line(label: &str, o: &Option<i32>) -> (r: String)
    ensures
        r@ == kv(label@, opt_i32_text(*o)),
{
    match o {
        Some(n) => kv_line(label, i32_to_string(*n)),
        None => none_line(label),
    }
}

fn opt_text_line(label: &str, o: &Option<String>) -> (r: String)
    ensures
        r@ == kv(label@, opt_text(opt_text_view(*o))),
{
    match o {
        Some(s) => kv_line(label, s.clone()),
        None => none_line(label),
    }
}

fn atoms_section(a: &Option<AtomInfo>) -> (r: Vec<String>)
    requires
        (opt_view(*a) matches Some(av) ==> atoms_wf(av)),
    ensures
        lines_of(r) == atoms_lines(opt_view(*a)),
{
    match a {
        Some(ai) => {
            let mut lines: Vec<String> = Vec::new();
            lines.push("Atoms:".to_owned());
            let mut i: usize = 0;
            while i < ai.element.len()
                invariant
                    opt_view(*a) == Some(ai@),
                    atoms_wf(ai@),
                    0 <= i <= ai.element@.len(),
                    lines_of(lines) =~= seq!["Atoms:"@] + Seq::new(
                        i as nat,
                        |j: int| atom_line(ai.aid@[j], ai.element@[j]),
                    ),
                decreases ai.element@.len() - i,
            {
                let mut line = "  Atom ID: ".to_owned();
                let t1 = u32_to_string(ai.aid[i]);
                line.append(t1.as_str());
                line.append(", Element: ");
                let t2 = u32_to_string(ai.element[i]);
                line.append(t2.as_str());
                let ghost prev = lines_of(lines);
                lines.push(line);
                proof {
                    assert(lines_of(lines) =~= prev.push(atom_line(
                        ai.aid@[i as int],
                        ai.element@[i as int],
                    )));
                    assert(lines_of(lines) =~= seq!["Atoms:"@] + Seq::new(
                        (i + 1) as nat,
                        |j: int| atom_line(ai.aid@[j], ai.element@[j]),
                    ));
                }
                i = i + 1;
            }
            proof {
                assert(atoms_lines(opt_view(*a)) =~= seq!["Atoms:"@] + Seq::new(
                    ai.element@.len(),
                    |j: int| atom_line(ai.aid@[j], ai.element@[j]),
                ));
            }
            lines
        },
        None => {
            let mut lines: Vec<String> = Vec::new();
            lines.push(none_line("Atoms"));
            proof {
                assert(lines_of(lines) =~= atoms_lines(opt_view(*a)));
            }
            lines
        },
    }
}

fn bond_line_text(n: u64, a1: u32, a2: u32, ord: u32) -> (r: String)
    ensures
        r@ == bond_line(n as nat, (a1, a2, ord)),
{
    let mut line = "  Bond ".to_owned();
    let tn = u64_to_string(n);
    line.append(tn.as_str());
    line.append(": Atom1 ");
    let t1 = u32_to_string(a1);
    line.append(t1.as_str());
    line.append(", Atom2 ");
    let t2 = u32_to_string(a2);
    line.append(t2.as_str());
    line.append(", Order ");
    let t3 = u32_to_string(ord);
    line.append(t3.as_str());
    line
}

fn bonds_section(b: &Option<Vec<BondInfo>>) -> (r: Vec<String>)
    requires
        (opt_seq_view(*b) matches Some(ts) ==> forall|i: int|
            0 <= i < ts.len() ==> bonds_wf(#[trigger] ts[i])),
    ensures
        lines_of(r) == bonds_lines(opt_seq_view(*b)),
{
    match b {
        Some(tables) => {
            let ghost tsv = tables@.map_values(|t: BondInfo| t@);
            proof {
                assert(opt_seq_view(*b) == Some(tsv));
                assert forall|i: int| 0 <= i < tsv.len() implies bonds_wf(#[trigger] tsv[i]) by {
                    let ts = opt_seq_view(*b)->Some_0;
                    assert(bonds_wf(ts[i]));
                }
            }
            let mut lines: Vec<String> = Vec::new();
            lines.push("Bonds:".to_owned());
            let mut t: usize = 0;
            while t < tables.len()
                invariant
                    opt_seq_view(*b) == Some(tsv),
                    tsv == tables@.map_values(|tb: BondInfo| tb@),
                    forall|i: int| 0 <= i < tsv.len() ==> bonds_wf(#[trigger] tsv[i]),
                    0 <= t <= tables@.len(),
                    lines_of(lines) =~= seq!["Bonds:"@] + bond_lines_of(
                        flat_bonds(tsv.take(t as int)),
                    ),
                    lines@.len() == 1 + flat_bonds(tsv.take(t as int)).len(),
                decreases tables@.len() - t,
            {
                let table = &tables[t];
                let ghost base = flat_bonds(tsv.take(t as int));
                let mut i: usize = 0;
                while i < table.aid1.len()
                    invariant
                        opt_seq_view(*b) == Some(tsv),
                        tsv == tables@.map_values(|tb: BondInfo| tb@),
                        forall|k: int| 0 <= k < tsv.len() ==> bonds_wf(#[trigger] tsv[k]),
                        0 <= t < tables@.len(),
                        table == tables@[t as int],
                        base == flat_bonds(tsv.take(t as int)),
                        0 <= i <= table.aid1@.len(),
                        lines_of(lines) =~= seq!["Bonds:"@] + bond_lines_of(
                            base + table_triples(tsv[t as int]).take(i as int),
                        ),
                        lines@.len() == 1 + base.len() + i,
                    decreases table.aid1@.len() - i,
                {
                    proof {
                        assert(bonds_wf(tsv[t as int]));
                        assert(table_triples(tsv[t as int]).len() == table.aid1@.len());
                    }
                    let n: u64 = lines.len() as u64;
                    let line = bond_line_text(n, table.aid1[i], table.aid2[i], table.order[i]);
                    let ghost prev = lines_of(lines);
                    lines.push(line);
                    proof {
                        let fl = base + table_triples(tsv[t as int]).take(i as int + 1);
                        assert(fl.last() == (
                            table.aid1@[i as int],
                            table.aid2@[i as int],
                            table.order@[i as int],
                        ));
                        assert(lines_of(lines) =~= prev.push(bond_line(
                            (base.len() + i + 1) as nat,
                            fl.last(),
                        )));
                        assert(lines_of(lines) =~= seq!["Bonds:"@] + bond_lines_of(fl));
                    }
                    i = i + 1;
                }
                proof {
                    assert(table_triples(tsv[t as int]).take(table.aid1@.len() as int)
                        =~= table_triples(tsv[t as int]));
                    assert(tsv.take(t as int + 1).drop_last() =~= tsv.take(t as int));
                    assert(flat_bonds(tsv.take(t as int + 1)) == base + table_triples(
                        tsv[t as int],
                    ));
                }
                t = t + 1;
            }
            proof {
                assert(tsv.take(tables@.len() as int) =~= tsv);
            }
            lines
        },
        None => {
            let mut lines: Vec<String> = Vec::new();
            lines.push(none_line("Bonds"));
            proof {
                assert(lines_of(lines) =~= bonds_lines(opt_seq_view(*b)));
            }
            lines
        },
    }
}

fn list_text_of(items: &Vec<String>) -> (r: String)
    ensures
        r@ == list_text(items@.map_values(|s: String| s@)),
{
    let ghost itv = items@.map_values(|s: String| s@);
    let mut s = "[".to_owned();
    let mut i: usize = 0;
    while i < items.len()
        invariant
            itv == items@.map_values(|t: String| t@),
            0 <= i <= items@.len(),
            s@ == "["@ + commas(itv.take(i as int)),
        decreases items@.len() - i,
    {
        if i > 0 {
            s.append(", ");
        }
        s.append(items[i].as_str());
        proof {
            let w = itv.take(i as int + 1);
            assert(w.last() == itv[i as int]);
            assert(w.drop_last() =~= itv.take(i as int));
            if i == 0 {
                assert(commas(w) == itv[0]);
            } else {
                assert(commas(w) == commas(itv.take(i as int)) + ", "@ + itv[i as int]);
            }
        }
        i = i + 1;
    }
    proof {
        assert(itv.take(items@.len() as int) =~= itv);
    }
    s.append("]");
    s
}

fn conformer_line_text(n: u64, cf: &Conformer) -> (r: String)
    ensures
        r@ == conformer_line(n as nat, cf@),
{
    let mut line = "  Conformer ".to_owned();
    let tn = u64_to_string(n);
    line.append(tn.as_str());
    line.append(": X = ");
    let xs = list_text_of(&cf.x);
    line.append(xs.as_str());
    line.append(", Y = ");
    let ys = list_text_of(&cf.y);
    line.append(ys.as_str());
    line
}

fn coords_section(c: &Option<Vec<Coords>>) -> (r: Vec<String>)
    ensures
        lines_of(r) == coords_lines(opt_seq_view(*c)),
{
    match c {
        Some(sets) => {
            let ghost csv = sets@.map_values(|s: Coords| s@);
            let mut lines: Vec<String> = Vec::new();
            lines.push("Coordinates:".to_owned());
            let mut t: usize = 0;
            while t < sets.len()
                invariant
                    opt_seq_view(*c) == Some(csv),
                    csv == sets@.map_values(|s: Coords| s@),
                    0 <= t <= sets@.len(),
                    lines_of(lines) =~= seq!["Coordinates:"@] + conformer_lines_of(
                        flat_conformers(csv.take(t as int)),
                    ),
                    lines@.len() == 1 + flat_conformers(csv.take(t as int)).len(),
                decreases sets@.len() - t,
            {
                let set = &sets[t];
                let ghost base = flat_conformers(csv.take(t as int));
                let mut i: usize = 0;
                while i < set.conformers.len()
                    invariant
                        opt_seq_view(*c) == Some(csv),
                        csv == sets@.map_values(|s: Coords| s@),
                        0 <= t < sets@.len(),
                        set == sets@[t as int],
                        base == flat_conformers(csv.take(t as int)),
                        0 <= i <= set.conformers@.len(),
                        lines_of(lines) =~= seq!["Coordinates:"@] + conformer_lines_of(
                            base + csv[t as int].conformers.take(i as int),
                        ),
                        lines@.len() == 1 + base.len() + i,
                    decreases set.conformers@.len() - i,
                {
                    let n: u64 = lines.len() as u64;
                    let line = conformer_line_text(n, &set.conformers[i]);
                    let ghost prev = lines_of(lines);
                    lines.push(line);
                    proof {
                        let fl = base + csv[t as int].conformers.take(i as int + 1);
                        assert(csv[t as int].conformers[i as int] == set.conformers@[i as int]@);
                        assert(fl.last() == set.conformers@[i as int]@);
                        assert(lines_of(lines) =~= prev.push(conformer_line(
                            (base.len() + i + 1) as nat,
                            fl.last(),
                        )));
                        assert(lines_of(lines) =~= seq!["Coordinates:"@] + conformer_lines_of(
                            fl,
                        ));
                    }
                    i = i + 1;
                }
                proof {
                    assert(csv[t as int].conformers.take(set.conformers@.len() as int)
                        =~= csv[t as int].conformers);
                    assert(csv.take(t as int + 1).drop_last() =~= csv.take(t as int));
                    assert(flat_conformers(csv.take(t as int + 1)) == base + csv[
                        t as int
                    ].conformers);
                }
                t = t + 1;
            }
            proof {
                assert(csv.take(sets@.len() as int) =~= csv);
            }
            lines
        },
        None => {
            let mut lines: Vec<String> = Vec::new();
            lines.push(none_line("Coordinates"));
            proof {
                assert(lines_of(lines) =~= coords_lines(opt_seq_view(*c)));
            }
            lines
        },
    }
}

fn prop_line_text(p: &Props) -> (r: String)
    ensures
        r@ == prop_line(p@),
{
    let mut line = "  Property: ".to_owned();
    match &p.urn.label {
        Some(l) => line.append(l.as_str()),
        None => line.append("None"),
    }
    line.append(", Value: ");
    match &p.value.fval {
        Some(t) => line.append(t.as_str()),
        None => match &p.value.ival {
            Some(n) => {
                let tn = u32_to_string(*n);
                line.append(tn.as_str());
            },
            None => match &p.value.sval {
                Some(t) => line.append(t.as_str()),
                None => match &p.value.binary {
                    Some(t) => line.append(t.as_str()),
                    None => line.append("None"),
                },
            },
        },
    }
    line
}

fn props_section(p: &Option<Vec<Props>>) -> (r: Vec<String>)
    ensures
        lines_of(r) == props_lines(opt_seq_view(*p)),
{
    match p {
        Some(ps) => {
            let ghost psv = ps@.map_values(|q: Props| q@);
            let mut lines: Vec<String> = Vec::new();
            lines.push("Properties:".to_owned());
            let mut i: usize = 0;
            while i < ps.len()
                invariant
                    opt_seq_view(*p) == Some(psv),
                    psv == ps@.map_values(|q: Props| q@),
                    0 <= i <= ps@.len(),
                    lines_of(lines) =~= seq!["Properties:"@] + Seq::new(
                        i as nat,
                        |j: int| prop_line(psv[j]),
                    ),
                decreases ps@.len() - i,
            {
                let line = prop_line_text(&ps[i]);
                let ghost prev = lines_of(lines);
                lines.push(line);
                proof {
                    assert(lines_of(lines) =~= prev.push(prop_line(psv[i as int])));
                    assert(lines_of(lines) =~= seq!["Properties:"@] + Seq::new(
                        (i + 1) as nat,
                        |j: int| prop_line(psv[j]),
                    ));
                }
                i = i + 1;
            }
            proof {
                assert(props_lines(opt_seq_view(*p)) =~= seq!["Properties:"@] + Seq::new(
                    ps@.len(),
                    |j: int| prop_line(psv[j]),
                ));
            }
            lines
        },
        None => {
            let mut lines: Vec<String> = Vec::new();
            lines.push(none_line("Properties"));
            proof {
                assert(lines_of(lines) =~= props_lines(opt_seq_view(*p)));
            }
            lines
        },
    }
}

fn stereo_line_text(n: u64, t: &Tetrahedral) -> (r: String)
    ensures
        r@ == stereo_line(n as nat, *t),
{
    let mut line = "  Stereo ".to_owned();
    let tn = u64_to_string(n);
    line.append(tn.as_str());
    line.append(": Above = ");
    let t1 = u32_to_string(t.above);
    line.append(t1.as_str());
    line.append(", Below = ");
    let t2 = u32_to_string(t.below);
    line.append(t2.as_str());
    line.append(", Bottom = ");
    let t3 = u32_to_string(t.bottom);
    line.append(t3.as_str());
    line.append(", Center = ");
    let t4 = u32_to_string(t.center);
    line.append(t4.as_str());
    line.append(", Parity = ");
    let t5 = u32_to_string(t.parity);
    line.append(t5.as_str());
    line.append(", Top = ");
    let t6 = u32_to_string(t.top);
    line.append(t6.as_str());
    line.append(", Type = ");
    let t7 = u32_to_string(t.ttype);
    line.append(t7.as_str());
    line
}

fn stereo_section(s: &Option<Vec<Stereo>>) -> (r: Vec<String>)
    ensures
        lines_of(r) == stereo_lines(
            match s {
                Some(ss) => Some(ss@),
                None => None,
            },
        ),
{
    match s {
        Some(ss) => {
            let mut lines: Vec<String> = Vec::new();
            lines.push("Stereo Information:".to_owned());
            let mut i: usize = 0;
            while i < ss.len()
                invariant
                    0 <= i <= ss@.len(),
                    lines_of(lines) =~= seq!["Stereo Information:"@] + stereo_items(
                        ss@.take(i as int),
                    ),
                decreases ss@.len() - i,
            {
                proof {
                    assert(ss@.take(i as int + 1).drop_last() =~= ss@.take(i as int));
                    assert(ss@.take(i as int + 1).last() == ss@[i as int]);
                    assert(ss@.take(i as int + 1).len() == i + 1);
                }
                match &ss[i].tetrahedral {
                    Some(t) => {
                        let n: u64 = (i as u64) + 1;
                        let line = stereo_line_text(n, t);
                        let ghost prev = lines_of(lines);
                        lines.push(line);
                        proof {
                            assert(lines_of(lines) =~= prev.push(stereo_line(
                                (i + 1) as nat,
                                ss@[i as int].tetrahedral->Some_0,
                            )));
                            assert(lines_of(lines) =~= seq!["Stereo Information:"@]
                                + stereo_items(ss@.take(i as int + 1)));
                        }
                    },
                    None => {
                        proof {
                            assert(stereo_items(ss@.take(i as int + 1)) =~= stereo_items(
                                ss@.take(i as int),
                            ));
                        }
                    },
                }
                i = i + 1;
            }
            proof {
                assert(ss@.take(ss@.len() as int) =~= ss@);
            }
            lines
        },
        None => {
            let mut lines: Vec<String> = Vec::new();
            lines.push(none_line("Stereo Information"));
            proof {
                assert(lines_of(lines) =~= seq![kv("Stereo Information"@, "None"@)]);
            }
            lines
        },
    }
}

fn iupac_section(l: &Option<Vec<IUPACName>>) -> (r: Vec<String>)
    ensures
        lines_of(r) == iupac_lines(opt_seq_view(*l)),
{
    match l {
        Some(ns) => {
            let ghost nsv = ns@.map_values(|n: IUPACName| n@);
            let mut lines: Vec<String> = Vec::new();
            lines.push("IUPAC Names:".to_owned());
            let mut i: usize = 0;
            while i < ns.len()
                invariant
                    opt_seq_view(*l) == Some(nsv),
                    nsv == ns@.map_values(|n: IUPACName| n@),
                    0 <= i <= ns@.len(),
                    lines_of(lines) =~= seq!["IUPAC Names:"@] + Seq::new(
                        i as nat,
                        |j: int| iupac_line(nsv[j]),
                    ),
                decreases ns@.len() - i,
            {
                let mut line = "  ".to_owned();
                match &ns[i].name {
                    Some(nm) => line.append(nm.as_str()),
                    None => line.append("Unknown"),
                }
                let ghost prev = lines_of(lines);
                lines.push(line);
                proof {
                    assert(lines_of(lines) =~= prev.push(iupac_line(nsv[i as int])));
                    assert(lines_of(lines) =~= seq!["IUPAC Names:"@] + Seq::new(
                        (i + 1) as nat,
                        |j: int| iupac_line(nsv[j]),
                    ));
                }
                i = i + 1;
            }
            proof {
                assert(iupac_lines(opt_seq_view(*l)) =~= seq!["IUPAC Names:"@] + Seq::new(
                    ns@.len(),
                    |j: int| iupac_line(nsv[j]),
                ));
            }
            lines
        },
        None => {
            let mut lines: Vec<String> = Vec::new();
            lines.push(none_line("IUPAC Names"));
            proof {
                assert(lines_of(lines) =~= iupac_lines(opt_seq_view(*l)));
            }
            lines
        },
    }
}

fn join_lines(lines: &Vec<String>) -> (r: String)
    ensures
        r@ == join(lines_of(*lines)),
{
    let ghost lv = lines_of(*lines);
    let mut s = String::new();
    let mut i: usize = 0;
    while i < lines.len()
        invariant
            lv == lines_of(*lines),
            0 <= i <= lines@.len(),
            s@ == join(lv.take(i as int)),
        decreases lines@.len() - i,
    {
        s.append(lines[i].as_str());
        s.append("\n");
        proof {
            assert(lv.take(i as int + 1).drop_last() =~= lv.take(i as int));
            assert(lv.take(i as int + 1).last() == lv[i as int]);
        }
        i = i + 1;
    }
    proof {
        assert(lv.take(lines@.len() as int) =~= lv);
    }
    s
}

/// Render the report of one compound: the exact text given by
/// [`spec_render`], deterministic and order-preserving in every section.
#[verifier::rlimit(80)]
pub fn render_compound(c: &Compound) -> (r: String)
    requires
        compound_wf(c@),
    ensures
        r@ == spec_render(c@),
{
    let mut lines: Vec<String> = Vec::new();
    lines.push("Compound Information:".to_owned());
    lines.push("---------------------".to_owned());
    lines.push(opt_u32_line("CID", &c.cid));
    lines.push(opt_text_line("Molecular Formula", &c.molecular_formula));
    lines.push(opt_text_line("Molecular Weight", &c.molecular_weight));
    lines.push(opt_text_line("InChI", &c.inchi));
    lines.push(opt_text_line("InChIKey", &c.inchikey));
    lines.push(opt_text_line("Isomeric SMILES", &c.isomeric_smiles));
    lines.push(opt_text_line("TPSA", &c.tpsa));
    lines.push(opt_text_line("XLogP", &c.xlogp));
    lines.push(opt_text_line("Exact Mass", &c.exact_mass));
    lines.push(opt_text_line("Complexity", &c.complexity));
    lines.push(opt_u32_line("H-Bond Donor Count", &c.h_bond_donor_count));
    lines.push(opt_u32_line("H-Bond Acceptor Count", &c.h_bond_acceptor_count));
    lines.push(opt_u32_line("Rotatable Bond Count", &c.rotatable_bond_count));
    lines.push(opt_u32_line("Heavy Atom Count", &c.heavy_atom_count));
    lines.push(opt_i32_line("Charge", &c.charge));
    lines.push("---------------------".to_owned());
    let mut sec = atoms_section(&c.atoms);
    lines.append(&mut sec);
    lines.push("---------------------".to_owned());
    let mut sec = bonds_section(&c.bonds);
    lines.append(&mut sec);
    lines.push("---------------------".to_owned());
    let mut sec = coords_section(&c.coords);
    lines.append(&mut sec);
    lines.push("---------------------".to_owned());
    let mut sec = props_section(&c.props);
    lines.append(&mut sec);
    lines.push("---------------------".to_owned());
    let mut sec = stereo_section(&c.stereo);
    lines.append(&mut sec);
    lines.push("---------------------".to_owned());
    let mut sec = iupac_section(&c.iupac);
    lines.append(&mut sec);
    proof {
        assert(lines_of(lines) =~= spec_report_lines(c@));
    }
    join_lines(&lines)
}

} // verus!
