//! The typed record of one compound, as the remote database reports it.
//! Every top-level field is independently optional: absence means "not
//! reported", never an error. Decimal descriptors are held as the decimal
//! text the wire carried, so that no floating-point value enters the library.

use vstd::prelude::*;

verus! {

/// Parallel arrays of atom IDs and element codes, co-indexed.
pub struct AtomInfo {
    pub aid: Vec<u32>,
    pub element: Vec<u32>,
}

/// The abstract value of an [`AtomInfo`].
pub struct AtomsV {
    pub aid: Seq<u32>,
    pub element: Seq<u32>,
}

impl View for AtomInfo {
    type V = AtomsV;

    open spec fn view(&self) -> AtomsV {
        AtomsV { aid: self.aid@, element: self.element@ }
    }
}

/// One bond table: parallel arrays of the two endpoint atom IDs and the
/// integer bond order, co-indexed.
pub struct BondInfo {
    pub aid1: Vec<u32>,
    pub aid2: Vec<u32>,
    pub order: Vec<u32>,
}

/// The abstract value of a [`BondInfo`].
pub struct BondsV {
    pub aid1: Seq<u32>,
    pub aid2: Seq<u32>,
    pub order: Seq<u32>,
}

impl View for BondInfo {
    type V = BondsV;

    open spec fn view(&self) -> BondsV {
        BondsV { aid1: self.aid1@, aid2: self.aid2@, order: self.order@ }
    }
}

/// One coordinate assignment: parallel x and y sequences indexed by atom
/// position, each coordinate held as its decimal text.
pub struct Conformer {
    pub x: Vec<String>,
    pub y: Vec<String>,
}

/// The abstract value of a [`Conformer`].
pub struct ConformerV {
    pub x: Seq<Seq<char>>,
    pub y: Seq<Seq<char>>,
}

impl View for Conformer {
    type V = ConformerV;

    open spec fn view(&self) -> ConformerV {
        ConformerV {
            x: self.x@.map_values(|s: String| s@),
            y: self.y@.map_values(|s: String| s@),
        }
    }
}

/// One named coordinate set: a list of conformers.
pub struct Coords {
    pub conformers: Vec<Conformer>,
}

/// The abstract value of a [`Coords`].
pub struct CoordsV {
    pub conformers: Seq<ConformerV>,
}

impl View for Coords {
    type V = CoordsV;

    open spec fn view(&self) -> CoordsV {
        CoordsV { conformers: self.conformers@.map_values(|c: Conformer| c@) }
    }
}

/// The URN-like provenance descriptor of a reported property.
pub struct Urn {
    pub datatype: Option<u32>,
    pub label: Option<String>,
    pub name: Option<String>,
    pub release: Option<String>,
    pub software: Option<String>,
    pub source: Option<String>,
    pub version: Option<String>,
}

/// The abstract value of a [`Urn`].
pub struct UrnV {
    pub datatype: Option<u32>,
    pub label: Option<Seq<char>>,
    pub name: Option<Seq<char>>,
    pub release: Option<Seq<char>>,
    pub software: Option<Seq<char>>,
    pub source: Option<Seq<char>>,
    pub version: Option<Seq<char>>,
}

/// The abstract value of an optional text.
pub open spec fn opt_text_view(o: Option<String>) -> Option<Seq<char>> {
    match o {
        Some(s) => Some(s@),
        None => None,
    }
}

impl View for Urn {
    type V = UrnV;

    open spec fn view(&self) -> UrnV {
        UrnV {
            datatype: self.datatype,
            label: opt_text_view(self.label),
            name: opt_text_view(self.name),
            release: opt_text_view(self.release),
            software: opt_text_view(self.software),
            source: opt_text_view(self.source),
            version: opt_text_view(self.version),
        }
    }
}

/// The typed value of a reported property: at most one of a decimal (held as
/// its text), an integer, a string, or a binary-encoded payload.
pub struct PropertyValue {
    pub fval: Option<String>,
    pub ival: Option<u32>,
    pub sval: Option<String>,
    pub binary: Option<String>,
}

/// The abstract value of a [`PropertyValue`].
pub struct PropValueV {
    pub fval: Option<Seq<char>>,
    pub ival: Option<u32>,
    pub sval: Option<Seq<char>>,
    pub binary: Option<Seq<char>>,
}

impl View for PropertyValue {
    type V = PropValueV;

    open spec fn view(&self) -> PropValueV {
        PropValueV {
            fval: opt_text_view(self.fval),
            ival: self.ival,
            sval: opt_text_view(self.sval),
            binary: opt_text_view(self.binary),
        }
    }
}

/// One named property: a provenance descriptor paired with a typed value.
pub struct Props {
    pub urn: Urn,
    pub value: PropertyValue,
}

/// The abstract value of a [`Props`].
pub struct PropsV {
    pub urn: UrnV,
    pub value: PropValueV,
}

impl View for Props {
    type V = PropsV;

    open spec fn view(&self) -> PropsV {
        PropsV { urn: self.urn@, value: self.value@ }
    }
}

/// A tetrahedral stereocenter record: neighbor atom IDs, a parity code and a
/// type code.
#[derive(Clone, Copy, PartialEq, Eq, Structural, Debug)]
pub struct Tetrahedral {
    pub above: u32,
    pub below: u32,
    pub bottom: u32,
    pub center: u32,
    pub parity: u32,
    pub top: u32,
    pub ttype: u32,
}

/// One stereo descriptor, optionally carrying a tetrahedral-center record.
#[derive(Clone, Copy, PartialEq, Eq, Structural, Debug)]
pub struct Stereo {
    pub tetrahedral: Option<Tetrahedral>,
}

/// One entry of the IUPAC name list; the name may be absent.
pub struct IUPACName {
    pub name: Option<String>,
}

impl View for IUPACName {
    type V = Option<Seq<char>>;

    open spec fn view(&self) -> Option<Seq<char>> {
        opt_text_view(self.name)
    }
}

/// One compound record. Decimal descriptors (molecular weight, TPSA, XLogP,
/// exact mass, complexity) hold the decimal text the wire carried.
pub struct Compound {
    pub cid: Option<u32>,
    pub atoms: Option<AtomInfo>,
    pub bonds: Option<Vec<BondInfo>>,
    pub coords: Option<Vec<Coords>>,
    pub props: Option<Vec<Props>>,
    pub stereo: Option<Vec<Stereo>>,
    pub molecular_formula: Option<String>,
    pub molecular_weight: Option<String>,
    pub inchi: Option<String>,
    pub inchikey: Option<String>,
    pub isomeric_smiles: Option<String>,
    pub tpsa: Option<String>,
    pub xlogp: Option<String>,
    pub exact_mass: Option<String>,
    pub complexity: Option<String>,
    pub h_bond_donor_count: Option<u32>,
    pub h_bond_acceptor_count: Option<u32>,
    pub rotatable_bond_count: Option<u32>,
    pub heavy_atom_count: Option<u32>,
    pub charge: Option<i32>,
    pub iupac: Option<Vec<IUPACName>>,
}

/// The abstract value of a [`Compound`].
pub struct CompoundV {
    pub cid: Option<u32>,
    pub atoms: Option<AtomsV>,
    pub bonds: Option<Seq<BondsV>>,
    pub coords: Option<Seq<CoordsV>>,
    pub props: Option<Seq<PropsV>>,
    pub stereo: Option<Seq<Stereo>>,
    pub molecular_formula: Option<Seq<char>>,
    pub molecular_weight: Option<Seq<char>>,
    pub inchi: Option<Seq<char>>,
    pub inchikey: Option<Seq<char>>,
    pub isomeric_smiles: Option<Seq<char>>,
    pub tpsa: Option<Seq<char>>,
    pub xlogp: Option<Seq<char>>,
    pub exact_mass: Option<Seq<char>>,
    pub complexity: Option<Seq<char>>,
    pub h_bond_donor_count: Option<u32>,
    pub h_bond_acceptor_count: Option<u32>,
    pub rotatable_bond_count: Option<u32>,
    pub heavy_atom_count: Option<u32>,
    pub charge: Option<i32>,
    pub iupac: Option<Seq<Option<Seq<char>>>>,
}

/// The abstract value of an optional viewable value.
pub open spec fn opt_view<T: View>(o: Option<T>) -> Option<T::V> {
    match o {
        Some(t) => Some(t@),
        None => None,
    }
}

/// The abstract value of an optional list of viewable values.
pub open spec fn opt_seq_view<T: View>(o: Option<Vec<T>>) -> Option<Seq<T::V>> {
    match o {
        Some(v) => Some(v@.map_values(|t: T| t@)),
        None => None,
    }
}

impl View for Compound {
    type V = CompoundV;

    open spec fn view(&self) -> CompoundV {
        CompoundV {
            cid: self.cid,
            atoms: opt_view(self.atoms),
            bonds: opt_seq_view(self.bonds),
            coords: opt_seq_view(self.coords),
            props: opt_seq_view(self.props),
            stereo: match self.stereo {
                Some(v) => Some(v@),
                None => None,
            },
            molecular_formula: opt_text_view(self.molecular_formula),
            molecular_weight: opt_text_view(self.molecular_weight),
            inchi: opt_text_view(self.inchi),
            inchikey: opt_text_view(self.inchikey),
            isomeric_smiles: opt_text_view(self.isomeric_smiles),
            tpsa: opt_text_view(self.tpsa),
            xlogp: opt_text_view(self.xlogp),
            exact_mass: opt_text_view(self.exact_mass),
            complexity: opt_text_view(self.complexity),
            h_bond_donor_count: self.h_bond_donor_count,
            h_bond_acceptor_count: self.h_bond_acceptor_count,
            rotatable_bond_count: self.rotatable_bond_count,
            heavy_atom_count: self.heavy_atom_count,
            charge: self.charge,
            iupac: opt_seq_view(self.iupac),
        }
    }
}

/// The atom arrays are co-indexed: equal lengths.
pub open spec fn atoms_wf(a: AtomsV) -> bool {
    a.aid.len() == a.element.len()
}

/// The bond arrays are co-indexed: equal lengths.
pub open spec fn bonds_wf(b: BondsV) -> bool {
    b.aid1.len() == b.aid2.len() && b.aid1.len() == b.order.len()
}

/// The x and y arrays of a conformer are co-indexed: equal lengths.
pub open spec fn conformer_wf(c: ConformerV) -> bool {
    c.x.len() == c.y.len()
}

/// Every conformer of a coordinate set is well-formed.
pub open spec fn coords_wf(c: CoordsV) -> bool {
    forall|i: int| 0 <= i < c.conformers.len() ==> conformer_wf(#[trigger] c.conformers[i])
}

/// The parallel-array invariant of one compound: within atoms, every bond
/// table and every conformer, the co-indexed arrays have equal lengths.
pub open spec fn compound_wf(c: CompoundV) -> bool {
    &&& (c.atoms matches Some(a) ==> atoms_wf(a))
    &&& (c.bonds matches Some(ts) ==> forall|i: int|
        0 <= i < ts.len() ==> bonds_wf(#[trigger] ts[i]))
    &&& (c.coords matches Some(cs) ==> forall|i: int|
        0 <= i < cs.len() ==> coords_wf(#[trigger] cs[i]))
}

} // verus!
