//! The three-level multi-level-transmit coder.

use vstd::arithmetic::mul::lemma_mul_inequality;
use vstd::prelude::*;

use crate::coder::count_marks;
use crate::coder::lemma_count_marks_step;
use crate::coder::level_run;
use crate::coder::SigElement;
use crate::util::check_ampl_closed;
use crate::util::check_bit_period;
use crate::util::CoderError;

verus! {

/// The four-state MLT-3 cycle `[0, +v, 0, -v]`, indexed by how many
/// marks have been consumed so far.
pub open spec fn mlt3_cycle(k: int, v: int) -> int {
    if k % 4 == 1 {
        v
    } else if k % 4 == 3 {
        -v
    } else {
        0
    }
}

/// MLT-3 levels: the cycle index starts at 0, each 1 bit advances it,
/// and each bit is sent at the level the cycle then points to, so the
/// level of bit `i` is the cycle entry for the number of marks up to
/// and including `i`.
pub open spec fn mlt3_levels(bits: Seq<u8>, v: int) -> Seq<int> {
    Seq::new(bits.len(), |i: int| mlt3_cycle(count_marks(bits.take(i + 1)) as int, v))
}

/// The signal never jumps between the two nonzero levels directly:
/// adjacent segments never hold `+v` and `-v`.
pub proof fn lemma_mlt3_no_sign_jump(bits: Seq<u8>, v: int)
    requires
        v > 0,
    ensures
        forall|i: int|
            #![trigger mlt3_levels(bits, v)[i]]
            0 <= i < bits.len() - 1 ==> !(mlt3_levels(bits, v)[i] == v && mlt3_levels(bits, v)[i
                + 1] == -v) && !(mlt3_levels(bits, v)[i] == -v && mlt3_levels(bits, v)[i + 1] == v),
{
    assert forall|i: int|
        #![trigger mlt3_levels(bits, v)[i]]
        0 <= i < bits.len() - 1 implies !(mlt3_levels(bits, v)[i] == v && mlt3_levels(bits, v)[i
        + 1] == -v) && !(mlt3_levels(bits, v)[i] == -v && mlt3_levels(bits, v)[i + 1] == v) by {
        lemma_count_marks_step(bits, i + 1);
    }
}

/// The multi-level-transmit coder: a 1 bit advances the four-state
/// cycle `[0, +v, 0, -v]`, a 0 bit holds the line, one segment per bit.
#[derive(Debug, Clone, Copy, PartialEq, Eq, Structural)]
pub struct Mlt3 {
    tb: u64,
    v: i64,
}

impl Mlt3 {
    /// The configured bit period, in ticks.
    pub closed spec fn tb(&self) -> u64 {
        self.tb
    }

    /// The configured amplitude, in voltage steps.
    pub closed spec fn v(&self) -> i64 {
        self.v
    }

    /// Validated parameters: a positive bit period and (the scheme is
    /// "closed") a strictly positive amplitude.
    pub open spec fn wf(&self) -> bool {
        self.tb() >= 1 && self.v() >= 1
    }

    /// A coder with the default bit period and amplitude.
    pub fn new() -> (r: Self)
        ensures
            r.tb() == crate::coder::GLOB_BASE_TB,
            r.v() == crate::coder::GLOB_BASE_V,
            r.wf(),
    {
        Self { tb: crate::coder::GLOB_BASE_TB, v: crate::coder::GLOB_BASE_V }
    }

    /// Replaces the bit period, keeping the old value when the new one
    /// is rejected.
    pub fn on_tb(&mut self, tb: u64) -> (r: Result<(), CoderError>)
        ensures
            r is Ok <==> tb >= 1,
            r is Ok ==> final(self).tb() == tb && final(self).v() == old(self).v(),
            r is Err ==> *final(self) == *old(self) && r == Err::<(), CoderError>(
                CoderError::InvalidBitPeriod,
            ),
    {
        self.tb = check_bit_period(tb)?;
        Ok(())
    }

    /// Replaces the amplitude, keeping the old value when the new one
    /// is rejected.
    pub fn on_v(&mut self, v: i64) -> (r: Result<(), CoderError>)
        ensures
            r is Ok <==> v >= 1,
            r is Ok ==> final(self).v() == v && final(self).tb() == old(self).tb(),
            r is Err ==> *final(self) == *old(self) && r == Err::<(), CoderError>(
                CoderError::BadAmplitude,
            ),
    {
        self.v = check_ampl_closed(v)?;
        Ok(())
    }

    /// Encodes the bits: one segment per bit, `tb` ticks wide, at the
    /// level of the four-state cycle after the marks seen so far.
    pub fn encode(&self, bits: &[u8]) -> (out: Vec<SigElement>)
        requires
            self.wf(),
            bits@.len() * self.tb() <= u64::MAX,
        ensures
            out@.len() == bits@.len(),
            forall|i: int|
                0 <= i < out@.len() ==> out@[i]@ == level_run(
                    mlt3_levels(bits@, self.v() as int),
                    self.tb() as int,
                )[i],
    {
        let ghost segs = level_run(mlt3_levels(bits@, self.v() as int), self.tb() as int);
        let mut out: Vec<SigElement> = Vec::new();
        let mut t: u64 = 0;
        let mut idx: u64 = 0;
        let mut i: usize = 0;
        while i < bits.len()
            invariant
                self.wf(),
                bits@.len() * self.tb() <= u64::MAX,
                segs == level_run(mlt3_levels(bits@, self.v() as int), self.tb() as int),
                0 <= i <= bits@.len(),
                t == i * self.tb(),
                idx == count_marks(bits@.take(i as int)) % 4,
                out@.len() == i,
                forall|j: int| 0 <= j < i ==> out@[j]@ == segs[j],
            decreases bits@.len() - i,
        {
            proof {
                lemma_mul_inequality(i as int + 1, bits@.len() as int, self.tb() as int);
                assert((i as int + 1) * (self.tb() as int) == i as int * (self.tb() as int)
                    + self.tb() as int) by (nonlinear_arith);
                lemma_count_marks_step(bits@, i as int);
            }
            let tf = t + self.tb;
            if bits[i] == 1 {
                idx = (idx + 1) % 4;
            }
            let lvl = if idx == 1 {
                self.v
            } else if idx == 3 {
                -self.v
            } else {
                0
            };
            out.push(SigElement { ti: t, tf, lvl });
            t = tf;
            i = i + 1;
        }
        out
    }
}

} // verus!
