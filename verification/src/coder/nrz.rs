//! The two non-return-to-zero coders: NRZ-L (level) and NRZ-I
//! (inverted).

use vstd::arithmetic::mul::lemma_mul_inequality;
use vstd::prelude::*;

use crate::coder::count_marks;
use crate::coder::lemma_count_marks_step;
use crate::coder::level_run;
use crate::coder::SigElement;
use crate::util::check_ampl_closed;
use crate::util::check_ampl_opened;
use crate::util::check_bit_period;
use crate::util::CoderError;

verus! {

/// NRZ-L levels: `+v` for a 1 bit, `-v` for anything else. The level of
/// a bit depends on that bit alone.
pub open spec fn nrzl_levels(bits: Seq<u8>, v: int) -> Seq<int> {
    Seq::new(bits.len(), |i: int| if bits[i] == 1 { v } else { -v })
}

/// NRZ-I levels: the polarity accumulator starts at `+v` and is
/// inverted by every 1 bit, so the level of bit `i` is `-v` when the
/// bits up to and including `i` hold an odd number of marks, else `+v`.
pub open spec fn nrzi_levels(bits: Seq<u8>, v: int) -> Seq<int> {
    Seq::new(
        bits.len(),
        |i: int| if count_marks(bits.take(i + 1)) % 2 == 1 { -v } else { v },
    )
}

/// NRZ-I encodes data in transitions, not absolute levels: the level
/// changes between one bit and the next exactly when the next bit is
/// 1, and stays exactly when it is not.
pub proof fn lemma_nrzi_transitions(bits: Seq<u8>, v: int)
    requires
        v != 0,
    ensures
        forall|i: int|
            #![trigger nrzi_levels(bits, v)[i]]
            0 <= i < bits.len() - 1 ==> (nrzi_levels(bits, v)[i + 1] != nrzi_levels(bits, v)[i]
                <==> bits[i + 1] == 1),
{
    assert forall|i: int|
        #![trigger nrzi_levels(bits, v)[i]]
        0 <= i < bits.len() - 1 implies (nrzi_levels(bits, v)[i + 1] != nrzi_levels(bits, v)[i]
        <==> bits[i + 1] == 1) by {
        lemma_count_marks_step(bits, i + 1);
    }
}

/// The non-return-to-zero level coder: a 1 bit is sent as `+v`, a 0 bit
/// as `-v`, one segment per bit.
#[derive(Debug, Clone, Copy, PartialEq, Eq, Structural)]
pub struct Nrzl {
    tb: u64,
    v: i64,
}

impl Nrzl {
    /// The configured bit period, in ticks.
    pub closed spec fn tb(&self) -> u64 {
        self.tb
    }

    /// The configured amplitude, in voltage steps.
    pub closed spec fn v(&self) -> i64 {
        self.v
    }

    /// Validated parameters: a positive bit period and (the scheme is
    /// "closed") a strictly positive amplitude.
    pub open spec fn wf(&self) -> bool {
        self.tb() >= 1 && self.v() >= 1
    }

    /// A coder with the default bit period and amplitude.
    pub fn new() -> (r: Self)
        ensures
            r.tb() == crate::coder::GLOB_BASE_TB,
            r.v() == crate::coder::GLOB_BASE_V,
            r.wf(),
    {
        Self { tb: crate::coder::GLOB_BASE_TB, v: crate::coder::GLOB_BASE_V }
    }

    /// Replaces the bit period, keeping the old value when the new one
    /// is rejected.
    pub fn on_tb(&mut self, tb: u64) -> (r: Result<(), CoderError>)
        ensures
            r is Ok <==> tb >= 1,
            r is Ok ==> final(self).tb() == tb && final(self).v() == old(self).v(),
            r is Err ==> *final(self) == *old(self) && r == Err::<(), CoderError>(
                CoderError::InvalidBitPeriod,
            ),
    {
        self.tb = check_bit_period(tb)?;
        Ok(())
    }

    /// Replaces the amplitude, keeping the old value when the new one
    /// is rejected.
    pub fn on_v(&mut self, v: i64) -> (r: Result<(), CoderError>)
        ensures
            r is Ok <==> v >= 1,
            r is Ok ==> final(self).v() == v && final(self).tb() == old(self).tb(),
            r is Err ==> *final(self) == *old(self) && r == Err::<(), CoderError>(
                CoderError::BadAmplitude,
            ),
    {
        self.v = check_ampl_closed(v)?;
        Ok(())
    }

    /// Encodes the bits: one segment per bit, `tb` ticks wide, at level
    /// `+v` for a 1 bit and `-v` otherwise.
    pub fn encode(&self, bits: &[u8]) -> (out: Vec<SigElement>)
        requires
            self.wf(),
            bits@.len() * self.tb() <= u64::MAX,
        ensures
            out@.len() == bits@.len(),
            forall|i: int|
                0 <= i < out@.len() ==> out@[i]@ == level_run(
                    nrzl_levels(bits@, self.v() as int),
                    self.tb() as int,
                )[i],
    {
        let ghost segs = level_run(nrzl_levels(bits@, self.v() as int), self.tb() as int);
        let mut out: Vec<SigElement> = Vec::new();
        let mut t: u64 = 0;
        let mut i: usize = 0;
        while i < bits.len()
            invariant
                self.wf(),
                bits@.len() * self.tb() <= u64::MAX,
                segs == level_run(nrzl_levels(bits@, self.v() as int), self.tb() as int),
                0 <= i <= bits@.len(),
                t == i * self.tb(),
                out@.len() == i,
                forall|j: int| 0 <= j < i ==> out@[j]@ == segs[j],
            decreases bits@.len() - i,
        {
            proof {
                lemma_mul_inequality(i as int + 1, bits@.len() as int, self.tb() as int);
                assert((i as int + 1) * (self.tb() as int) == i as int * (self.tb() as int)
                    + self.tb() as int) by (nonlinear_arith);
            }
            let tf = t + self.tb;
            let lvl = if bits[i] == 1 {
                self.v
            } else {
                -self.v
            };
            out.push(SigElement { ti: t, tf, lvl });
            t = tf;
            i = i + 1;
        }
        out
    }
}

/// The non-return-to-zero inverted coder: a 1 bit toggles the line, a 0
/// bit holds it, one segment per bit.
#[derive(Debug, Clone, Copy, PartialEq, Eq, Structural)]
pub struct Nrzi {
    tb: u64,
    v: i64,
}

impl Nrzi {
    /// The configured bit period, in ticks.
    pub closed spec fn tb(&self) -> u64 {
        self.tb
    }

    /// The configured amplitude, in voltage steps.
    pub closed spec fn v(&self) -> i64 {
        self.v
    }

    /// Validated parameters: a positive bit period and (the scheme is
    /// "open") a nonzero amplitude with a representable negation.
    pub open spec fn wf(&self) -> bool {
        self.tb() >= 1 && self.v() != 0 && self.v() != i64::MIN
    }

    /// A coder with the default bit period and amplitude.
    pub fn new() -> (r: Self)
        ensures
            r.tb() == crate::coder::GLOB_BASE_TB,
            r.v() == crate::coder::GLOB_BASE_V,
            r.wf(),
    {
        Self { tb: crate::coder::GLOB_BASE_TB, v: crate::coder::GLOB_BASE_V }
    }

    /// Replaces the bit period, keeping the old value when the new one
    /// is rejected.
    pub fn on_tb(&mut self, tb: u64) -> (r: Result<(), CoderError>)
        ensures
            r is Ok <==> tb >= 1,
            r is Ok ==> final(self).tb() == tb && final(self).v() == old(self).v(),
            r is Err ==> *final(self) == *old(self) && r == Err::<(), CoderError>(
                CoderError::InvalidBitPeriod,
            ),
    {
        self.tb = check_bit_period(tb)?;
        Ok(())
    }

    /// Replaces the amplitude, keeping the old value when the new one
    /// is rejected.
    pub fn on_v(&mut self, v: i64) -> (r: Result<(), CoderError>)
        ensures
            r is Ok <==> v != 0 && v != i64::MIN,
            r is Ok ==> final(self).v() == v && final(self).tb() == old(self).tb(),
            r is Err ==> *final(self) == *old(self) && r == Err::<(), CoderError>(
                CoderError::BadAmplitude,
            ),
    {
        self.v = check_ampl_opened(v)?;
        Ok(())
    }

    /// Encodes the bits: one segment per bit, `tb` ticks wide, whose
    /// level starts from `+v` and is inverted by each 1 bit.
    pub fn encode(&self, bits: &[u8]) -> (out: Vec<SigElement>)
        requires
            self.wf(),
            bits@.len() * self.tb() <= u64::MAX,
        ensures
            out@.len() == bits@.len(),
            forall|i: int|
                0 <= i < out@.len() ==> out@[i]@ == level_run(
                    nrzi_levels(bits@, self.v() as int),
                    self.tb() as int,
                )[i],
    {
        let ghost segs = level_run(nrzi_levels(bits@, self.v() as int), self.tb() as int);
        let mut out: Vec<SigElement> = Vec::new();
        let mut t: u64 = 0;
        let mut lvl: i64 = self.v;
        let mut i: usize = 0;
        while i < bits.len()
            invariant
                self.wf(),
                bits@.len() * self.tb() <= u64::MAX,
                segs == level_run(nrzi_levels(bits@, self.v() as int), self.tb() as int),
                0 <= i <= bits@.len(),
                t == i * self.tb(),
                lvl == if count_marks(bits@.take(i as int)) % 2 == 1 {
                    -(self.v() as int)
                } else {
                    self.v() as int
                },
                out@.len() == i,
                forall|j: int| 0 <= j < i ==> out@[j]@ == segs[j],
            decreases bits@.len() - i,
        {
            proof {
                lemma_mul_inequality(i as int + 1, bits@.len() as int, self.tb() as int);
                assert((i as int + 1) * (self.tb() as int) == i as int * (self.tb() as int)
                    + self.tb() as int) by (nonlinear_arith);
                lemma_count_marks_step(bits@, i as int);
            }
            let tf = t + self.tb;
            if bits[i] == 1 {
                lvl = -lvl;
            }
            out.push(SigElement { ti: t, tf, lvl });
            t = tf;
            i = i + 1;
        }
        out
    }
}

} // verus!
