//! Laws that hold of every coding scheme at once.

use vstd::prelude::*;

use crate::coder::ami::ami_levels;
use crate::coder::hdb3::hdb3_levels;
use crate::coder::level_run;
use crate::coder::manch::manch_spec;
use crate::coder::mlt3::mlt3_levels;
use crate::coder::nrz::nrzi_levels;
use crate::coder::nrz::nrzl_levels;
use crate::coder::rz::rz_spec;
use crate::coder::SigModel;

verus! {

/// Every coder encodes the empty bit sequence as the empty segment
/// sequence.
pub proof fn lemma_encode_empty(tb: int, v: int, num: int, den: int)
    ensures
        level_run(nrzl_levels(Seq::empty(), v), tb) =~= Seq::<SigModel>::empty(),
        level_run(nrzi_levels(Seq::empty(), v), tb) =~= Seq::<SigModel>::empty(),
        level_run(ami_levels(Seq::empty(), v), tb) =~= Seq::<SigModel>::empty(),
        level_run(mlt3_levels(Seq::empty(), v), tb) =~= Seq::<SigModel>::empty(),
        level_run(hdb3_levels(Seq::empty(), v), tb) =~= Seq::<SigModel>::empty(),
        rz_spec(Seq::empty(), tb, v, num, den) =~= Seq::<SigModel>::empty(),
        manch_spec(Seq::empty(), tb, v) =~= Seq::<SigModel>::empty(),
{
}

/// Two `encode` calls with identical bits and parameters yield
/// identical segment sequences. Every coder's contract pins each
/// output segment to the same specified sequence, so any two outputs
/// satisfying it are equal: the engine carries no hidden state from
/// one call to the next.
pub proof fn lemma_encode_repeatable(a: Seq<SigModel>, b: Seq<SigModel>, segs: Seq<SigModel>)
    requires
        a.len() == segs.len(),
        forall|i: int| 0 <= i < a.len() ==> a[i] == segs[i],
        b.len() == segs.len(),
        forall|i: int| 0 <= i < b.len() ==> b[i] == segs[i],
    ensures
        a =~= b,
{
}

} // verus!
