//! The parts of the terminal front end that are pure computation: the
//! section-mode selector and the derivation of chart points from a
//! segment sequence.

use vstd::prelude::*;

use crate::coder::SigElement;
use crate::coder::SigModel;

verus! {

/// Which section of the interface currently has the focus.
#[derive(Debug, Clone, Copy, PartialEq, Eq, Structural)]
pub enum TuiMode {
    /// The parameter-entry form.
    Params,
    /// The waveform chart.
    Visualizer,
}

impl Default for TuiMode {
    fn default() -> (r: Self)
        ensures
            r == TuiMode::Params,
    {
        TuiMode::Params
    }
}

/// The chart points of a segment sequence, drawn as a step waveform:
/// the first segment contributes its two corners, and every later
/// segment contributes a vertical step corner where its level differs
/// from the previous segment's, then its own far corner.
pub open spec fn chart_points(segs: Seq<SigModel>) -> Seq<(int, int)>
    decreases segs.len(),
{
    if segs.len() == 0 {
        Seq::empty()
    } else if segs.len() == 1 {
        seq![(segs[0].ti, segs[0].lvl), (segs[0].tf, segs[0].lvl)]
    } else {
        let a = segs[segs.len() - 2];
        let b = segs.last();
        chart_points(segs.drop_last()) + (if b.lvl != a.lvl {
            seq![(a.tf, b.lvl)]
        } else {
            Seq::empty()
        }) + seq![(b.tf, b.lvl)]
    }
}

/// Turns a segment sequence into the point list a step chart plots.
pub fn determine_points(sigs: &[SigElement]) -> (out: Vec<(u64, i64)>)
    ensures
        out@.len() == chart_points(sigs@.map_values(|s: SigElement| s@)).len(),
        forall|k: int|
            0 <= k < out@.len() ==> (out@[k].0 as int, out@[k].1 as int) == chart_points(
                sigs@.map_values(|s: SigElement| s@),
            )[k],
{
    let ghost segs = sigs@.map_values(|s: SigElement| s@);
    let mut out: Vec<(u64, i64)> = Vec::new();
    if sigs.len() == 0 {
        return out;
    }
    out.push((sigs[0].ti, sigs[0].lvl));
    out.push((sigs[0].tf, sigs[0].lvl));
    proof {
        assert(chart_points(segs.take(1)) =~= seq![
            (segs[0].ti, segs[0].lvl),
            (segs[0].tf, segs[0].lvl),
        ]);
    }
    let mut i: usize = 1;
    while i < sigs.len()
        invariant
            segs == sigs@.map_values(|s: SigElement| s@),
            1 <= i <= sigs@.len(),
            out@.len() == chart_points(segs.take(i as int)).len(),
            forall|k: int|
                0 <= k < out@.len() ==> (out@[k].0 as int, out@[k].1 as int) == chart_points(
                    segs.take(i as int),
                )[k],
        decreases sigs@.len() - i,
    {
        let a = sigs[i - 1];
        let b = sigs[i];
        proof {
            assert(segs.take(i as int + 1).drop_last() =~= segs.take(i as int));
            assert(segs.take(i as int + 1).last() == segs[i as int]);
            assert(segs.take(i as int + 1)[i as int - 1] == segs[i as int - 1]);
        }
        if b.lvl != a.lvl {
            out.push((a.tf, b.lvl));
        }
        out.push((b.tf, b.lvl));
        i = i + 1;
    }
    proof {
        assert(segs.take(segs.len() as int) =~= segs);
    }
    out
}

impl TuiMode {
    /// Whether the parameter-entry form has the focus.
    pub fn is_params(&self) -> (r: bool)
        ensures
            r == (*self == TuiMode::Params),
    {
        matches!(self, TuiMode::Params)
    }

    /// Whether the waveform chart has the focus.
    pub fn is_visualizer(&self) -> (r: bool)
        ensures
            r == (*self == TuiMode::Visualizer),
    {
        matches!(self, TuiMode::Visualizer)
    }
}

} // verus!
