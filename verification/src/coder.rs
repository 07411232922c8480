//! The signal-segment value type and the facts shared by every coder.

use vstd::prelude::*;

pub mod ami;
pub mod hdb3;
pub mod laws;
pub mod manch;
pub mod mlt3;
pub mod nrz;
pub mod rz;

verus! {

/// Default bit period, in ticks.
pub const GLOB_BASE_TB: u64 = 1;

/// Default amplitude, in voltage steps.
pub const GLOB_BASE_V: i64 = 1;

/// The mathematical model of a signal segment: a time interval
/// `[ti, tf)` during which the line holds the constant level `lvl`.
pub struct SigModel {
    /// Start time.
    pub ti: int,
    /// End time.
    pub tf: int,
    /// Constant level over the interval.
    pub lvl: int,
}

/// One constant-level segment of an encoded waveform.
///
/// Times are integer multiples of the coder's time unit (the bit period
/// for the one-segment-per-bit schemes; a stated fraction of it for the
/// pulse schemes), and the level is an integer number of voltage steps,
/// so a segment is an exact value rather than a float approximation.
#[derive(Debug, Clone, Copy, PartialEq, Eq, Structural)]
pub struct SigElement {
    /// Start time.
    pub ti: u64,
    /// End time.
    pub tf: u64,
    /// Constant level over the interval.
    pub lvl: i64,
}

impl View for SigElement {
    type V = SigModel;

    open spec fn view(&self) -> SigModel {
        SigModel { ti: self.ti as int, tf: self.tf as int, lvl: self.lvl as int }
    }
}

impl SigElement {
    /// Builds a segment from its start time, end time and level.
    pub fn new(ti: u64, tf: u64, lvl: i64) -> (r: Self)
        ensures
            r.ti == ti,
            r.tf == tf,
            r.lvl == lvl,
    {
        Self { ti, tf, lvl }
    }

    /// The segment's start time.
    pub fn ti(&self) -> (r: u64)
        ensures
            r == self.ti,
    {
        self.ti
    }

    /// The segment's end time.
    pub fn tf(&self) -> (r: u64)
        ensures
            r == self.tf,
    {
        self.tf
    }

    /// The segment's level.
    pub fn lvl(&self) -> (r: i64)
        ensures
            r == self.lvl,
    {
        self.lvl
    }
}

/// How many of the bits are 1 ("marks").
pub open spec fn count_marks(bits: Seq<u8>) -> nat
    decreases bits.len(),
{
    if bits.len() == 0 {
        0
    } else {
        count_marks(bits.drop_last()) + if bits.last() == 1 {
            1nat
        } else {
            0nat
        }
    }
}

/// Counting marks over one more bit adds one exactly when that bit is 1.
pub proof fn lemma_count_marks_step(bits: Seq<u8>, i: int)
    requires
        0 <= i < bits.len(),
    ensures
        count_marks(bits.take(i + 1)) == count_marks(bits.take(i)) + if bits[i] == 1 {
            1nat
        } else {
            0nat
        },
{
    assert(bits.take(i + 1).drop_last() =~= bits.take(i));
    assert(bits.take(i + 1).last() == bits[i]);
}

/// The segment sequence of a coder that emits exactly one segment per
/// symbol, each one bit period wide, starting at time zero: segment `i`
/// spans `[i * tb, (i + 1) * tb)` at the level of symbol `i`.
pub open spec fn level_run(levels: Seq<int>, tb: int) -> Seq<SigModel> {
    Seq::new(levels.len(), |i: int| SigModel { ti: i * tb, tf: (i + 1) * tb, lvl: levels[i] })
}

/// Segments of a one-segment-per-symbol coder are contiguous: the first
/// starts at time zero and each next segment starts where the previous
/// one ends.
pub proof fn lemma_level_run_contiguous(levels: Seq<int>, tb: int)
    ensures
        levels.len() > 0 ==> level_run(levels, tb)[0].ti == 0,
        forall|i: int|
            0 <= i < levels.len() - 1 ==> level_run(levels, tb)[i].tf == level_run(levels, tb)[i
                + 1].ti,
{
}

} // verus!
