//! The alternate-mark-inversion coder.

use vstd::arithmetic::mul::lemma_mul_inequality;
use vstd::prelude::*;

use crate::coder::count_marks;
use crate::coder::lemma_count_marks_step;
use crate::coder::level_run;
use crate::coder::SigElement;
use crate::util::check_ampl_opened;
use crate::util::check_bit_period;
use crate::util::CoderError;

verus! {

/// AMI levels: a 0 bit is sent as silence, and the k-th mark (1 bit) of
/// the stream is sent at `-v` when k is odd and `+v` when k is even, so
/// successive marks alternate however many zeros lie between them. A
/// negative amplitude therefore makes the first mark positive.
pub open spec fn ami_levels(bits: Seq<u8>, v: int) -> Seq<int> {
    Seq::new(
        bits.len(),
        |i: int|
            if bits[i] != 1 {
                0
            } else if count_marks(bits.take(i + 1)) % 2 == 1 {
                -v
            } else {
                v
            },
    )
}

/// Two marks with only zeros between them are sent at opposite levels,
/// and a zero bit is always sent as silence.
pub proof fn lemma_ami_marks_alternate(bits: Seq<u8>, v: int, i: int, j: int)
    requires
        v != 0,
        0 <= i < j < bits.len(),
        bits[i] == 1,
        bits[j] == 1,
        forall|k: int| i < k < j ==> bits[k] != 1,
    ensures
        ami_levels(bits, v)[j] == -ami_levels(bits, v)[i],
        ami_levels(bits, v)[j] != 0,
{
    lemma_count_marks_step(bits, j);
    if i + 1 < j {
        lemma_marks_constant_over_zeros(bits, v, i, j - 1);
    }
}

/// Counting marks does not change across a run of zeros.
proof fn lemma_marks_constant_over_zeros(bits: Seq<u8>, v: int, i: int, k: int)
    requires
        0 <= i < k < bits.len(),
        forall|m: int| i < m <= k ==> bits[m] != 1,
    ensures
        count_marks(bits.take(k + 1)) == count_marks(bits.take(i + 1)),
    decreases k - i,
{
    lemma_count_marks_step(bits, k);
    if k > i + 1 {
        lemma_marks_constant_over_zeros(bits, v, i, k - 1);
    }
}

/// The alternate-mark-inversion coder: zeros are sent as silence, marks
/// alternate in sign, one segment per bit.
#[derive(Debug, Clone, Copy, PartialEq, Eq, Structural)]
pub struct Ami {
    tb: u64,
    v: i64,
}

impl Ami {
    /// The configured bit period, in ticks.
    pub closed spec fn tb(&self) -> u64 {
        self.tb
    }

    /// The configured amplitude, in voltage steps.
    pub closed spec fn v(&self) -> i64 {
        self.v
    }

    /// Validated parameters: a positive bit period and (the scheme is
    /// "open") a nonzero amplitude with a representable negation.
    pub open spec fn wf(&self) -> bool {
        self.tb() >= 1 && self.v() != 0 && self.v() != i64::MIN
    }

    /// A coder with the default bit period and a negative default
    /// amplitude, which makes the first mark positive.
    pub fn new() -> (r: Self)
        ensures
            r.tb() == crate::coder::GLOB_BASE_TB,
            r.v() == -crate::coder::GLOB_BASE_V,
            r.wf(),
    {
        Self { tb: crate::coder::GLOB_BASE_TB, v: -crate::coder::GLOB_BASE_V }
    }

    /// Replaces the bit period, keeping the old value when the new one
    /// is rejected.
    pub fn on_tb(&mut self, tb: u64) -> (r: Result<(), CoderError>)
        ensures
            r is Ok <==> tb >= 1,
            r is Ok ==> final(self).tb() == tb && final(self).v() == old(self).v(),
            r is Err ==> *final(self) == *old(self) && r == Err::<(), CoderError>(
                CoderError::InvalidBitPeriod,
            ),
    {
        self.tb = check_bit_period(tb)?;
        Ok(())
    }

    /// Replaces the amplitude, keeping the old value when the new one
    /// is rejected.
    pub fn on_v(&mut self, v: i64) -> (r: Result<(), CoderError>)
        ensures
            r is Ok <==> v != 0 && v != i64::MIN,
            r is Ok ==> final(self).v() == v && final(self).tb() == old(self).tb(),
            r is Err ==> *final(self) == *old(self) && r == Err::<(), CoderError>(
                CoderError::BadAmplitude,
            ),
    {
        self.v = check_ampl_opened(v)?;
        Ok(())
    }

    /// Encodes the bits: one segment per bit, `tb` ticks wide, silence
    /// for zeros and alternating marks for ones.
    pub fn encode(&self, bits: &[u8]) -> (out: Vec<SigElement>)
        requires
            self.wf(),
            bits@.len() * self.tb() <= u64::MAX,
        ensures
            out@.len() == bits@.len(),
            forall|i: int|
                0 <= i < out@.len() ==> out@[i]@ == level_run(
                    ami_levels(bits@, self.v() as int),
                    self.tb() as int,
                )[i],
    {
        let ghost segs = level_run(ami_levels(bits@, self.v() as int), self.tb() as int);
        let mut out: Vec<SigElement> = Vec::new();
        let mut t: u64 = 0;
        let mut lvl: i64 = self.v;
        let mut i: usize = 0;
        while i < bits.len()
            invariant
                self.wf(),
                bits@.len() * self.tb() <= u64::MAX,
                segs == level_run(ami_levels(bits@, self.v() as int), self.tb() as int),
                0 <= i <= bits@.len(),
                t == i * self.tb(),
                lvl == if count_marks(bits@.take(i as int)) % 2 == 1 {
                    -(self.v() as int)
                } else {
                    self.v() as int
                },
                out@.len() == i,
                forall|j: int| 0 <= j < i ==> out@[j]@ == segs[j],
            decreases bits@.len() - i,
        {
            proof {
                lemma_mul_inequality(i as int + 1, bits@.len() as int, self.tb() as int);
                assert((i as int + 1) * (self.tb() as int) == i as int * (self.tb() as int)
                    + self.tb() as int) by (nonlinear_arith);
                lemma_count_marks_step(bits@, i as int);
            }
            let tf = t + self.tb;
            if bits[i] == 1 {
                lvl = -lvl;
                out.push(SigElement { ti: t, tf, lvl });
            } else {
                out.push(SigElement { ti: t, tf, lvl: 0 });
            }
            t = tf;
            i = i + 1;
        }
        out
    }
}

} // verus!
