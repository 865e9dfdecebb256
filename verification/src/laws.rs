//! The report's stated laws, proved over the rendering specification.

use vstd::prelude::*;
use crate::model::{BondsV, CompoundV};
use crate::render::{spec_report_lines, spec_render, atoms_lines, bonds_lines, coords_lines,
    props_lines, stereo_lines, iupac_lines, scalar_lines, kv, bond_line, bond_lines_of,
    flat_bonds, table_triples};

verus! {

/// Every optional field that is absent from a compound renders as a line
/// carrying the literal `None` placeholder: each absent scalar descriptor
/// as `<Label>: None`, and each absent structural section as its own
/// `<Section>: None` line. No absent field is omitted or left empty.
#[verifier::rlimit(100)]
pub proof fn lemma_absent_renders_none(c: CompoundV)
    ensures
        c.cid is None ==> spec_report_lines(c).contains(kv("CID"@, "None"@)),
        c.molecular_formula is None ==> spec_report_lines(c).contains(
            kv("Molecular Formula"@, "None"@),
        ),
        c.molecular_weight is None ==> spec_report_lines(c).contains(
            kv("Molecular Weight"@, "None"@),
        ),
        c.inchi is None ==> spec_report_lines(c).contains(kv("InChI"@, "None"@)),
        c.inchikey is None ==> spec_report_lines(c).contains(kv("InChIKey"@, "None"@)),
        c.isomeric_smiles is None ==> spec_report_lines(c).contains(
            kv("Isomeric SMILES"@, "None"@),
        ),
        c.tpsa is None ==> spec_report_lines(c).contains(kv("TPSA"@, "None"@)),
        c.xlogp is None ==> spec_report_lines(c).contains(kv("XLogP"@, "None"@)),
        c.exact_mass is None ==> spec_report_lines(c).contains(kv("Exact Mass"@, "None"@)),
        c.complexity is None ==> spec_report_lines(c).contains(kv("Complexity"@, "None"@)),
        c.h_bond_donor_count is None ==> spec_report_lines(c).contains(
            kv("H-Bond Donor Count"@, "None"@),
        ),
        c.h_bond_acceptor_count is None ==> spec_report_lines(c).contains(
            kv("H-Bond Acceptor Count"@, "None"@),
        ),
        c.rotatable_bond_count is None ==> spec_report_lines(c).contains(
            kv("Rotatable Bond Count"@, "None"@),
        ),
        c.heavy_atom_count is None ==> spec_report_lines(c).contains(
            kv("Heavy Atom Count"@, "None"@),
        ),
        c.charge is None ==> spec_report_lines(c).contains(kv("Charge"@, "None"@)),
        c.atoms is None ==> spec_report_lines(c).contains(kv("Atoms"@, "None"@)),
        c.bonds is None ==> spec_report_lines(c).contains(kv("Bonds"@, "None"@)),
        c.coords is None ==> spec_report_lines(c).contains(kv("Coordinates"@, "None"@)),
        c.props is None ==> spec_report_lines(c).contains(kv("Properties"@, "None"@)),
        c.stereo is None ==> spec_report_lines(c).contains(kv("Stereo Information"@, "None"@)),
        c.iupac is None ==> spec_report_lines(c).contains(kv("IUPAC Names"@, "None"@)),
{
    let lines = spec_report_lines(c);
    let a = atoms_lines(c.atoms).len() as int;
    let b = bonds_lines(c.bonds).len() as int;
    let co = coords_lines(c.coords).len() as int;
    let p = props_lines(c.props).len() as int;
    let st = stereo_lines(c.stereo).len() as int;
    assert(lines[2] == scalar_lines(c)[0]);
    assert(lines[3] == scalar_lines(c)[1]);
    assert(lines[4] == scalar_lines(c)[2]);
    assert(lines[5] == scalar_lines(c)[3]);
    assert(lines[6] == scalar_lines(c)[4]);
    assert(lines[7] == scalar_lines(c)[5]);
    assert(lines[8] == scalar_lines(c)[6]);
    assert(lines[9] == scalar_lines(c)[7]);
    assert(lines[10] == scalar_lines(c)[8]);
    assert(lines[11] == scalar_lines(c)[9]);
    assert(lines[12] == scalar_lines(c)[10]);
    assert(lines[13] == scalar_lines(c)[11]);
    assert(lines[14] == scalar_lines(c)[12]);
    assert(lines[15] == scalar_lines(c)[13]);
    assert(lines[16] == scalar_lines(c)[14]);
    assert(lines[18] == atoms_lines(c.atoms)[0]);
    assert(lines[18 + a + 1] == bonds_lines(c.bonds)[0]);
    assert(lines[18 + a + 1 + b + 1] == coords_lines(c.coords)[0]);
    assert(lines[18 + a + 1 + b + 1 + co + 1] == props_lines(c.props)[0]);
    assert(lines[18 + a + 1 + b + 1 + co + 1 + p + 1] == stereo_lines(c.stereo)[0]);
    assert(lines[18 + a + 1 + b + 1 + co + 1 + p + 1 + st + 1] == iupac_lines(c.iupac)[0]);
}

/// Rendering is deterministic and order-preserving: the report text is a
/// pure function of the compound value, so any two renderings of the same
/// value are identical, character for character.
pub proof fn lemma_render_deterministic(c: CompoundV, r1: Seq<char>, r2: Seq<char>)
    requires
        r1 == spec_render(c),
        r2 == spec_render(c),
    ensures
        r1 == r2,
{
}

/// The sum of the bond tables' array lengths.
pub open spec fn bond_total(ts: Seq<BondsV>) -> nat
    decreases ts.len(),
{
    if ts.len() == 0 {
        0
    } else {
        bond_total(ts.drop_last()) + ts.last().aid1.len()
    }
}

/// The flattened bond list is as long as the tables together.
pub proof fn lemma_flat_bonds_len(ts: Seq<BondsV>)
    ensures
        flat_bonds(ts).len() == bond_total(ts),
    decreases ts.len(),
{
    if ts.len() > 0 {
        lemma_flat_bonds_len(ts.drop_last());
    }
}

/// The Bonds section renders one `Bond N` line per bond: across a present
/// bond list, the number of bond lines equals the sum of the tables' array
/// lengths, and the lines are numbered 1-based and contiguously, in order.
pub proof fn lemma_bond_line_numbering(ts: Seq<BondsV>)
    ensures
        bonds_lines(Some(ts)).len() == 1 + bond_total(ts),
        forall|k: int|
            0 <= k < bond_total(ts) ==> bonds_lines(Some(ts))[k + 1] == bond_line(
                (k + 1) as nat,
                flat_bonds(ts)[k],
            ),
{
    lemma_flat_bonds_len(ts);
    assert forall|k: int| 0 <= k < bond_total(ts) implies bonds_lines(Some(ts))[k + 1]
        == bond_line((k + 1) as nat, flat_bonds(ts)[k]) by {
        assert(bonds_lines(Some(ts))[k + 1] == bond_lines_of(flat_bonds(ts))[k]);
    }
}

/// The flattened bond list holds each table's triples contiguously, at the
/// offset given by the lengths of the tables before it.
proof fn lemma_flat_bonds_segment(ts: Seq<BondsV>, j: int)
    requires
        0 <= j < ts.len(),
    ensures
        flat_bonds(ts).len() >= flat_bonds(ts.take(j)).len() + table_triples(ts[j]).len(),
        forall|k: int|
            0 <= k < table_triples(ts[j]).len() ==> flat_bonds(ts)[flat_bonds(ts.take(j)).len()
                + k] == table_triples(ts[j])[k],
    decreases ts.len(),
{
    if j == ts.len() - 1 {
        assert(ts.take(j) =~= ts.drop_last());
    } else {
        lemma_flat_bonds_segment(ts.drop_last(), j);
        assert(ts.drop_last().take(j) =~= ts.take(j));
        assert(ts.drop_last()[j] == ts[j]);
    }
}

/// Each bond table renders exactly as many `Bond N` lines as its array
/// length: table `j`'s lines stand contiguously in the Bonds section at the
/// offset given by the tables before it, one line per bond, their numbers
/// continuing 1-based through the section.
pub proof fn lemma_bond_lines_per_table(ts: Seq<BondsV>, j: int)
    requires
        0 <= j < ts.len(),
    ensures
        bond_total(ts.take(j)) + ts[j].aid1.len() <= bond_total(ts),
        forall|k: int|
            0 <= k < ts[j].aid1.len() ==> bonds_lines(Some(ts))[1 + bond_total(ts.take(j)) + k]
                == bond_line(
                (bond_total(ts.take(j)) + k + 1) as nat,
                (ts[j].aid1[k], ts[j].aid2[k], ts[j].order[k]),
            ),
{
    lemma_flat_bonds_len(ts);
    lemma_flat_bonds_len(ts.take(j));
    lemma_flat_bonds_segment(ts, j);
    let off = flat_bonds(ts.take(j)).len() as int;
    assert forall|k: int| 0 <= k < ts[j].aid1.len() implies bonds_lines(Some(ts))[1 + bond_total(
        ts.take(j),
    ) + k] == bond_line(
        (bond_total(ts.take(j)) + k + 1) as nat,
        (ts[j].aid1[k], ts[j].aid2[k], ts[j].order[k]),
    ) by {
        assert(flat_bonds(ts)[off + k] == table_triples(ts[j])[k]);
        assert(bonds_lines(Some(ts))[1 + off + k] == bond_lines_of(flat_bonds(ts))[off + k]);
    }
}


} // verus!
