//! Planning the 2-D bond drawing: which line segments to draw, by index
//! into the first conformer of the first coordinate set. A bond whose
//! endpoint index falls outside the conformer is skipped and reported, not
//! drawn; without any conformer the drawing is skipped altogether.

use vstd::prelude::*;
use crate::model::{BondInfo, Coords, CoordsV, ConformerV, conformer_wf};
use crate::render::{flat_bonds, table_triples};

verus! {

/// The first conformer of the first coordinate set, if any.
pub open spec fn first_conformer(cs: Seq<CoordsV>) -> Option<ConformerV> {
    if cs.len() > 0 && cs[0].conformers.len() > 0 {
        Some(cs[0].conformers[0])
    } else {
        None
    }
}

/// The drawable segments of a flattened bond list against a conformer of
/// `n` points: one index pair per bond whose endpoints are both below `n`,
/// in bond order.
pub open spec fn spec_segments(fl: Seq<(u32, u32, u32)>, n: nat) -> Seq<(usize, usize)>
    decreases fl.len(),
{
    if fl.len() == 0 {
        Seq::empty()
    } else {
        spec_segments(fl.drop_last(), n) + (if (fl.last().0 as nat) < n && (fl.last().1 as nat)
            < n {
            seq![(fl.last().0 as usize, fl.last().1 as usize)]
        } else {
            Seq::empty()
        })
    }
}

/// A bond list never yields more segments than it has bonds.
pub proof fn lemma_segments_len_le(fl: Seq<(u32, u32, u32)>, n: nat)
    ensures
        spec_segments(fl, n).len() <= fl.len(),
    decreases fl.len(),
{
    if fl.len() > 0 {
        lemma_segments_len_le(fl.drop_last(), n);
    }
}

/// The planned drawing of one compound.
pub struct SegmentPlan {
    /// The index pairs to connect, in bond order.
    pub segments: Vec<(usize, usize)>,
    /// Whether any bond was skipped for an out-of-range endpoint.
    pub out_of_range: bool,
}

/// The outcome of planning one compound's drawing.
pub enum PlotPlan {
    /// No coordinate set holds a conformer: nothing to draw.
    NoConformer,
    /// Draw these segments on the first conformer.
    Draw(SegmentPlan),
}

/// Plan the bond drawing of one compound: every bond of every table whose
/// two endpoint indices fall inside the first conformer becomes one
/// segment, in order; an out-of-range bond is skipped and flagged.
pub fn plan_segments(coords: &Vec<Coords>, bonds: &Vec<BondInfo>) -> (r: PlotPlan)
    requires
        (first_conformer(coords@.map_values(|s: Coords| s@)) matches Some(cf) ==> conformer_wf(
            cf,
        )),
        forall|i: int|
            0 <= i < bonds@.len() ==> crate::model::bonds_wf((#[trigger] bonds@[i])@),
    ensures
        match first_conformer(coords@.map_values(|s: Coords| s@)) {
            None => r is NoConformer,
            Some(cf) => r matches PlotPlan::Draw(p) && {
                let fl = flat_bonds(bonds@.map_values(|b: BondInfo| b@));
                let segs = spec_segments(fl, cf.x.len());
                p.segments@ == segs && p.out_of_range == (segs.len() < fl.len())
            },
        },
{
    let ghost cv = coords@.map_values(|s: Coords| s@);
    let ghost bv = bonds@.map_values(|b: BondInfo| b@);
    if coords.len() == 0 {
        return PlotPlan::NoConformer;
    }
    if coords[0].conformers.len() == 0 {
        proof {
            assert(cv[0] == coords@[0]@);
        }
        return PlotPlan::NoConformer;
    }
    let n: usize = coords[0].conformers[0].x.len();
    proof {
        assert(cv[0] == coords@[0]@);
        assert(cv[0].conformers[0] == coords@[0].conformers@[0]@);
        assert(first_conformer(cv) == Some(coords@[0].conformers@[0]@));
        assert(first_conformer(cv)->Some_0.x.len() == n as nat);
    }
    proof {
        assert forall|i: int| 0 <= i < bv.len() implies crate::model::bonds_wf(
            #[trigger] bv[i],
        ) by {
            assert(bv[i] == bonds@[i]@);
        }
    }
    let mut segments: Vec<(usize, usize)> = Vec::new();
    let mut out_of_range: bool = false;
    let mut t: usize = 0;
    while t < bonds.len()
        invariant
            bv == bonds@.map_values(|b: BondInfo| b@),
            forall|i: int| 0 <= i < bv.len() ==> crate::model::bonds_wf(#[trigger] bv[i]),
            0 <= t <= bonds@.len(),
            segments@ == spec_segments(flat_bonds(bv.take(t as int)), n as nat),
            segments@.len() <= flat_bonds(bv.take(t as int)).len(),
            out_of_range == (segments@.len() < flat_bonds(bv.take(t as int)).len()),
        decreases bonds@.len() - t,
    {
        let table = &bonds[t];
        let ghost base = flat_bonds(bv.take(t as int));
        proof {
            assert(base + table_triples(bv[t as int]).take(0) =~= base);
        }
        let mut i: usize = 0;
        while i < table.aid1.len()
            invariant
                bv == bonds@.map_values(|b: BondInfo| b@),
                forall|k: int| 0 <= k < bv.len() ==> crate::model::bonds_wf(#[trigger] bv[k]),
                0 <= t < bonds@.len(),
                table == bonds@[t as int],
                base == flat_bonds(bv.take(t as int)),
                0 <= i <= table.aid1@.len(),
                segments@ == spec_segments(base + table_triples(bv[t as int]).take(i as int),
                    n as nat),
                segments@.len() <= base.len() + i,
                out_of_range == (segments@.len() < base.len() + i),
            decreases table.aid1@.len() - i,
        {
            proof {
                assert(crate::model::bonds_wf(bv[t as int]));
                assert(table_triples(bv[t as int]).len() == table.aid1@.len());
            }
            let a1 = table.aid1[i];
            let a2 = table.aid2[i];
            proof {
                let fl = base + table_triples(bv[t as int]).take(i as int + 1);
                assert(fl.drop_last() =~= base + table_triples(bv[t as int]).take(i as int));
                assert(fl.last() == (a1, a2, table.order@[i as int]));
                lemma_segments_len_le(fl, n as nat);
            }
            if (a1 as usize) < n && (a2 as usize) < n {
                segments.push((a1 as usize, a2 as usize));
            } else {
                out_of_range = true;
            }
            i = i + 1;
        }
        proof {
            assert(table_triples(bv[t as int]).take(table.aid1@.len() as int) =~= table_triples(
                bv[t as int],
            ));
            assert(bv.take(t as int + 1).drop_last() =~= bv.take(t as int));
            assert(flat_bonds(bv.take(t as int + 1)) == base + table_triples(bv[t as int]));
        }
        t = t + 1;
    }
    proof {
        assert(bv.take(bonds@.len() as int) =~= bv);
    }
    PlotPlan::Draw(SegmentPlan { segments, out_of_range })
}

/// When every endpoint of every bond is in range, every bond is drawn.
pub proof fn lemma_segments_all_in_range(fl: Seq<(u32, u32, u32)>, n: nat)
    requires
        forall|i: int|
            0 <= i < fl.len() ==> ((#[trigger] fl[i]).0 as nat) < n && (fl[i].1 as nat) < n,
    ensures
        spec_segments(fl, n).len() == fl.len(),
        forall|i: int|
            0 <= i < fl.len() ==> #[trigger] spec_segments(fl, n)[i] == (
                fl[i].0 as usize,
                fl[i].1 as usize,
            ),
    decreases fl.len(),
{
    if fl.len() > 0 {
        lemma_segments_all_in_range(fl.drop_last(), n);
    }
}

/// The output path of one compound's drawing: the output directory joined
/// with the compound's name and the image suffix.
pub fn png_path(dir: &str, name: &str) -> (r: String)
    ensures
        r@ == dir@ + name@ + ".png"@,
{
    let mut s = dir.to_owned();
    s.append(name);
    s.append(".png");
    s
}

/// The default output directory of the drawings.
pub fn default_png_dir() -> (r: String)
    ensures
        r@ == "png_out/"@,
{
    "png_out/".to_owned()
}

} // verus!
