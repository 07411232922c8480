//! The Manchester coder, in the IEEE 802.3 polarity convention.

use vstd::arithmetic::mul::lemma_mul_inequality;
use vstd::prelude::*;

use crate::coder::SigElement;
use crate::coder::SigModel;
use crate::util::check_ampl_closed;
use crate::util::check_bit_period;
use crate::util::CoderError;

verus! {

/// The Manchester segment sequence, in time subunits of half a tick, so
/// that a bit period spans exactly `2 * tb` subunits and each half of
/// it `tb`. Every bit yields two half-period segments; in the 802.3
/// convention a 0 bit is sent as `+v` then `-v` and a 1 bit as `-v`
/// then `+v`.
pub open spec fn manch_spec(bits: Seq<u8>, tb: int, v: int) -> Seq<SigModel> {
    Seq::new(
        2 * bits.len(),
        |k: int|
            {
                let i = k / 2;
                if k % 2 == 0 {
                    SigModel {
                        ti: i * (2 * tb),
                        tf: i * (2 * tb) + tb,
                        lvl: if bits[i] == 1 {
                            -v
                        } else {
                            v
                        },
                    }
                } else {
                    SigModel {
                        ti: i * (2 * tb) + tb,
                        tf: (i + 1) * (2 * tb),
                        lvl: if bits[i] == 1 {
                            v
                        } else {
                            -v
                        },
                    }
                }
            },
    )
}

/// Manchester segments are contiguous: the first starts at time zero
/// and each next segment starts where the previous one ends.
pub proof fn lemma_manch_contiguous(bits: Seq<u8>, tb: int, v: int)
    ensures
        manch_spec(bits, tb, v).len() > 0 ==> manch_spec(bits, tb, v)[0].ti == 0,
        forall|k: int|
            #![trigger manch_spec(bits, tb, v)[k]]
            0 <= k < manch_spec(bits, tb, v).len() - 1 ==> manch_spec(bits, tb, v)[k].tf
                == manch_spec(bits, tb, v)[k + 1].ti,
{
    let segs = manch_spec(bits, tb, v);
    if segs.len() > 0 {
        assert(0int / 2 == 0 && 0int % 2 == 0);
        assert(segs[0].ti == 0);
    }
    assert forall|k: int|
        #![trigger segs[k]]
        0 <= k < segs.len() - 1 implies segs[k].tf == segs[k + 1].ti by {
        if k % 2 == 0 {
            assert((k + 1) / 2 == k / 2 && (k + 1) % 2 == 1);
        } else {
            assert((k + 1) / 2 == k / 2 + 1 && (k + 1) % 2 == 0);
        }
    }
}

/// Every bit period decomposes into exactly two half-period segments,
/// and the second half is always the sign-inverse of the first.
#[verifier::rlimit(50)]
pub proof fn lemma_manch_halves(bits: Seq<u8>, tb: int, v: int)
    ensures
        manch_spec(bits, tb, v).len() == 2 * bits.len(),
        forall|i: int|
            #![trigger bits[i]]
            0 <= i < bits.len() ==> manch_spec(bits, tb, v)[2 * i + 1].lvl == -manch_spec(
                bits,
                tb,
                v,
            )[2 * i].lvl,
{
    assert forall|i: int| #![trigger bits[i]] 0 <= i < bits.len() implies manch_spec(bits, tb, v)[2
        * i + 1].lvl == -manch_spec(bits, tb, v)[2 * i].lvl by {
        assert((2 * i) / 2 == i && (2 * i) % 2 == 0 && (2 * i + 1) / 2 == i && (2 * i + 1) % 2
            == 1) by (nonlinear_arith);
        assert(manch_spec(bits, tb, v)[2 * i].lvl == if bits[i] == 1 {
            -v
        } else {
            v
        });
        assert(manch_spec(bits, tb, v)[2 * i + 1].lvl == if bits[i] == 1 {
            v
        } else {
            -v
        });
    }
}

/// The Manchester coder: every bit is sent as two opposite half-period
/// levels, with the mid-bit transition carrying the data.
#[derive(Debug, Clone, Copy, PartialEq, Eq, Structural)]
pub struct Manchester {
    tb: u64,
    v: i64,
}

impl Manchester {
    /// The configured bit period, in ticks.
    pub closed spec fn tb(&self) -> u64 {
        self.tb
    }

    /// The configured amplitude, in voltage steps.
    pub closed spec fn v(&self) -> i64 {
        self.v
    }

    /// Validated parameters: a positive bit period and (the scheme is
    /// "closed") a strictly positive amplitude. The duty cycle is fixed
    /// at one half by design.
    pub open spec fn wf(&self) -> bool {
        self.tb() >= 1 && self.v() >= 1
    }

    /// A coder with the default bit period and amplitude.
    pub fn new() -> (r: Self)
        ensures
            r.tb() == crate::coder::GLOB_BASE_TB,
            r.v() == crate::coder::GLOB_BASE_V,
            r.wf(),
    {
        Self { tb: crate::coder::GLOB_BASE_TB, v: crate::coder::GLOB_BASE_V }
    }

    /// Builds a coder from a validated bit period and amplitude; an
    /// invalid bit period is reported before an invalid amplitude.
    pub fn build(tb: u64, v: i64) -> (r: Result<Self, CoderError>)
        ensures
            r is Ok <==> tb >= 1 && v >= 1,
            r matches Ok(c) ==> c.tb() == tb && c.v() == v,
            tb < 1 ==> r == Err::<Self, CoderError>(CoderError::InvalidBitPeriod),
            tb >= 1 && v < 1 ==> r == Err::<Self, CoderError>(CoderError::BadAmplitude),
    {
        Ok(Self { tb: check_bit_period(tb)?, v: check_ampl_closed(v)? })
    }

    /// Replaces the bit period, keeping the old value when the new one
    /// is rejected.
    pub fn on_tb(&mut self, tb: u64) -> (r: Result<(), CoderError>)
        ensures
            r is Ok <==> tb >= 1,
            r is Ok ==> final(self).tb() == tb && final(self).v() == old(self).v(),
            r is Err ==> *final(self) == *old(self) && r == Err::<(), CoderError>(
                CoderError::InvalidBitPeriod,
            ),
    {
        self.tb = check_bit_period(tb)?;
        Ok(())
    }

    /// Replaces the amplitude, keeping the old value when the new one
    /// is rejected.
    pub fn on_v(&mut self, v: i64) -> (r: Result<(), CoderError>)
        ensures
            r is Ok <==> v >= 1,
            r is Ok ==> final(self).v() == v && final(self).tb() == old(self).tb(),
            r is Err ==> *final(self) == *old(self) && r == Err::<(), CoderError>(
                CoderError::BadAmplitude,
            ),
    {
        self.v = check_ampl_closed(v)?;
        Ok(())
    }

    /// Encodes the bits: two half-period segments per bit, with times
    /// in subunits of half a tick.
    pub fn encode(&self, bits: &[u8]) -> (out: Vec<SigElement>)
        requires
            self.wf(),
            bits@.len() * (self.tb() as int) * 2 <= u64::MAX,
        ensures
            out@.len() == 2 * bits@.len(),
            forall|k: int|
                0 <= k < out@.len() ==> out@[k]@ == manch_spec(
                    bits@,
                    self.tb() as int,
                    self.v() as int,
                )[k],
    {
        let ghost segs = manch_spec(bits@, self.tb() as int, self.v() as int);
        let mut out: Vec<SigElement> = Vec::new();
        if bits.len() == 0 {
            return out;
        }
        let ghost len = bits@.len() as int;
        let ghost tbi = self.tb() as int;
        proof {
            assert(len * tbi * 2 == len * (2 * tbi)) by (nonlinear_arith);
            lemma_mul_inequality(1, len, 2 * tbi);
        }
        let period = 2 * self.tb;
        let mut t: u64 = 0;
        let mut i: usize = 0;
        while i < bits.len()
            invariant
                self.wf(),
                len == bits@.len(),
                tbi == self.tb() as int,
                len * (2 * tbi) <= u64::MAX,
                segs == manch_spec(bits@, tbi, self.v() as int),
                period == 2 * tbi,
                0 <= i <= len,
                t == i * period,
                out@.len() == 2 * i as int,
                forall|j: int| 0 <= j < out@.len() ==> out@[j]@ == segs[j],
            decreases len - i,
        {
            proof {
                lemma_mul_inequality(i as int + 1, len, 2 * tbi);
                assert((i as int + 1) * (2 * tbi) == i as int * (2 * tbi) + 2 * tbi)
                    by (nonlinear_arith);
                assert((2 * (i as int)) / 2 == i as int && (2 * (i as int)) % 2 == 0 && (2 * (
                i as int) + 1) / 2 == i as int && (2 * (i as int) + 1) % 2 == 1)
                    by (nonlinear_arith);
            }
            let half = t + self.tb;
            if bits[i] == 1 {
                out.push(SigElement { ti: t, tf: half, lvl: -self.v });
                out.push(SigElement { ti: half, tf: t + period, lvl: self.v });
            } else {
                out.push(SigElement { ti: t, tf: half, lvl: self.v });
                out.push(SigElement { ti: half, tf: t + period, lvl: -self.v });
            }
            t = t + period;
            i = i + 1;
        }
        out
    }
}

} // verus!
