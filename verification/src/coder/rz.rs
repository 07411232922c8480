//! The return-to-zero coder.

use vstd::arithmetic::mul::lemma_mul_inequality;
use vstd::prelude::*;

use crate::coder::level_run;
use crate::coder::SigElement;
use crate::coder::SigModel;
use crate::util::check_ampl_closed;
use crate::util::check_bit_period;
use crate::util::check_duty;
use crate::util::CoderError;
use crate::util::Duty;

verus! {

/// RZ pulse levels: the active part of a bit period carries `+v` for a
/// 1 bit and `-v` for anything else.
pub open spec fn rz_levels(bits: Seq<u8>, v: int) -> Seq<int> {
    Seq::new(bits.len(), |i: int| if bits[i] == 1 { v } else { -v })
}

/// The RZ segment sequence, in time subunits of one `den`-th of a tick,
/// so that a bit period spans exactly `tb * den` subunits and the pulse
/// `tb * num` of them. When the duty fraction is below one, every bit
/// yields a pulse segment followed by a silence segment; at duty one
/// the silence part has zero width and is omitted, leaving one pulse
/// segment per bit.
pub open spec fn rz_spec(bits: Seq<u8>, tb: int, v: int, num: int, den: int) -> Seq<SigModel> {
    if num < den {
        Seq::new(
            2 * bits.len(),
            |k: int|
                {
                    let i = k / 2;
                    if k % 2 == 0 {
                        SigModel {
                            ti: i * (tb * den),
                            tf: i * (tb * den) + tb * num,
                            lvl: rz_levels(bits, v)[i],
                        }
                    } else {
                        SigModel { ti: i * (tb * den) + tb * num, tf: (i + 1) * (tb * den), lvl: 0 }
                    }
                },
        )
    } else {
        level_run(rz_levels(bits, v), tb * den)
    }
}

/// RZ segments are contiguous: the first starts at time zero and each
/// next segment starts where the previous one ends.
pub proof fn lemma_rz_contiguous(bits: Seq<u8>, tb: int, v: int, num: int, den: int)
    requires
        1 <= num <= den,
    ensures
        rz_spec(bits, tb, v, num, den).len() > 0 ==> rz_spec(bits, tb, v, num, den)[0].ti == 0,
        forall|k: int|
            #![trigger rz_spec(bits, tb, v, num, den)[k]]
            0 <= k < rz_spec(bits, tb, v, num, den).len() - 1 ==> rz_spec(bits, tb, v, num, den)[k].tf
                == rz_spec(bits, tb, v, num, den)[k + 1].ti,
{
    let segs = rz_spec(bits, tb, v, num, den);
    if segs.len() > 0 {
        assert(0int / 2 == 0 && 0int % 2 == 0);
        assert(segs[0].ti == 0);
    }
    assert forall|k: int|
        #![trigger segs[k]]
        0 <= k < segs.len() - 1 implies segs[k].tf == segs[k + 1].ti by {
        if num < den {
            if k % 2 == 0 {
                assert((k + 1) / 2 == k / 2 && (k + 1) % 2 == 1);
            } else {
                assert((k + 1) / 2 == k / 2 + 1 && (k + 1) % 2 == 0);
            }
        }
    }
}

/// While the duty fraction is below one, encoding yields exactly two
/// segments per input bit, and the second of each pair is silence.
pub proof fn lemma_rz_two_per_bit(bits: Seq<u8>, tb: int, v: int, num: int, den: int)
    requires
        1 <= num < den,
    ensures
        rz_spec(bits, tb, v, num, den).len() == 2 * bits.len(),
        forall|i: int|
            #![trigger bits[i]]
            0 <= i < bits.len() ==> rz_spec(bits, tb, v, num, den)[2 * i].lvl == rz_levels(bits, v)[i]
                && rz_spec(bits, tb, v, num, den)[2 * i + 1].lvl == 0,
{
    assert forall|i: int| #![trigger bits[i]] 0 <= i < bits.len() implies rz_spec(
        bits,
        tb,
        v,
        num,
        den,
    )[2 * i].lvl == rz_levels(bits, v)[i] && rz_spec(bits, tb, v, num, den)[2 * i + 1].lvl == 0 by {
        assert((2 * i) / 2 == i && (2 * i) % 2 == 0 && (2 * i + 1) / 2 == i && (2 * i + 1) % 2
            == 1) by (nonlinear_arith);
    }
}

/// The return-to-zero coder: the leading `duty` fraction of each bit
/// period carries the bit's level, the rest of the period is silence.
#[derive(Debug, Clone, Copy, PartialEq, Eq, Structural)]
pub struct Rz {
    tb: u64,
    v: i64,
    duty: Duty,
}

impl Rz {
    /// The configured bit period, in ticks.
    pub closed spec fn tb(&self) -> u64 {
        self.tb
    }

    /// The configured amplitude, in voltage steps.
    pub closed spec fn v(&self) -> i64 {
        self.v
    }

    /// The configured duty fraction.
    pub closed spec fn duty(&self) -> Duty {
        self.duty
    }

    /// Validated parameters: a positive bit period, (the scheme is
    /// "closed") a strictly positive amplitude, and a duty fraction in
    /// `(0, 1]`.
    pub open spec fn wf(&self) -> bool {
        self.tb() >= 1 && self.v() >= 1 && self.duty().wf()
    }

    /// A coder with the default bit period and amplitude and the
    /// conventional duty cycle of one half.
    pub fn new() -> (r: Self)
        ensures
            r.tb() == crate::coder::GLOB_BASE_TB,
            r.v() == crate::coder::GLOB_BASE_V,
            r.duty().num() == 1 && r.duty().den() == 2,
            r.wf(),
    {
        Self { tb: crate::coder::GLOB_BASE_TB, v: crate::coder::GLOB_BASE_V, duty: Duty::half() }
    }

    /// Replaces the bit period, keeping the old value when the new one
    /// is rejected.
    pub fn on_tb(&mut self, tb: u64) -> (r: Result<(), CoderError>)
        ensures
            r is Ok <==> tb >= 1,
            r is Ok ==> final(self).tb() == tb && final(self).v() == old(self).v() && final(self).duty() == old(self).duty(),
            r is Err ==> *final(self) == *old(self) && r == Err::<(), CoderError>(
                CoderError::InvalidBitPeriod,
            ),
    {
        self.tb = check_bit_period(tb)?;
        Ok(())
    }

    /// Replaces the amplitude, keeping the old value when the new one
    /// is rejected.
    pub fn on_v(&mut self, v: i64) -> (r: Result<(), CoderError>)
        ensures
            r is Ok <==> v >= 1,
            r is Ok ==> final(self).v() == v && final(self).tb() == old(self).tb() && final(self).duty() == old(self).duty(),
            r is Err ==> *final(self) == *old(self) && r == Err::<(), CoderError>(
                CoderError::BadAmplitude,
            ),
    {
        self.v = check_ampl_closed(v)?;
        Ok(())
    }

    /// Replaces the duty fraction, keeping the old value when the new
    /// one is rejected.
    pub fn on_duty(&mut self, num: u64, den: u64) -> (r: Result<(), CoderError>)
        ensures
            r is Ok <==> 1 <= num <= den,
            r is Ok ==> final(self).duty().num() == num && final(self).duty().den() == den && final(self).tb() == old(self).tb()
                && final(self).v() == old(self).v(),
            r is Err ==> *final(self) == *old(self) && r == Err::<(), CoderError>(
                CoderError::WrongDuty,
            ),
    {
        self.duty = check_duty(num, den)?;
        Ok(())
    }

    /// Encodes the bits into pulse and silence segments, with times in
    /// subunits of one `den`-th of a tick.
    pub fn encode(&self, bits: &[u8]) -> (out: Vec<SigElement>)
        requires
            self.wf(),
            bits@.len() * (self.tb() as int) * (self.duty().den() as int) <= u64::MAX,
        ensures
            out@.len() == rz_spec(
                bits@,
                self.tb() as int,
                self.v() as int,
                self.duty().num() as int,
                self.duty().den() as int,
            ).len(),
            forall|k: int|
                0 <= k < out@.len() ==> out@[k]@ == rz_spec(
                    bits@,
                    self.tb() as int,
                    self.v() as int,
                    self.duty().num() as int,
                    self.duty().den() as int,
                )[k],
    {
        let ghost segs = rz_spec(
            bits@,
            self.tb() as int,
            self.v() as int,
            self.duty().num() as int,
            self.duty().den() as int,
        );
        let mut out: Vec<SigElement> = Vec::new();
        if bits.len() == 0 {
            return out;
        }
        let ghost len = bits@.len() as int;
        let ghost tbi = self.tb() as int;
        let ghost numi = self.duty().num() as int;
        let ghost deni = self.duty().den() as int;
        proof {
            assert(len * tbi * deni == len * (tbi * deni)) by (nonlinear_arith);
            assert(tbi * numi <= tbi * deni) by (nonlinear_arith)
                requires
                    0 <= tbi,
                    numi <= deni,
            ;
            lemma_mul_inequality(1, len, tbi * deni);
        }
        let num = self.duty.num_val();
        let den = self.duty.den_val();
        let period = self.tb * den;
        let pulse = self.tb * num;
        let split = num < den;
        let mut t: u64 = 0;
        let mut i: usize = 0;
        while i < bits.len()
            invariant
                self.wf(),
                len == bits@.len(),
                tbi == self.tb() as int,
                numi == self.duty().num() as int,
                deni == self.duty().den() as int,
                len * (tbi * deni) <= u64::MAX,
                segs == rz_spec(bits@, tbi, self.v() as int, numi, deni),
                num == self.duty().num() && den == self.duty().den(),
                period == tbi * deni && pulse == tbi * numi,
                split == (num < den),
                pulse <= period,
                0 <= i <= len,
                t == i * period,
                out@.len() == if split {
                    2 * i as int
                } else {
                    i as int
                },
                forall|j: int| 0 <= j < out@.len() ==> out@[j]@ == segs[j],
            decreases len - i,
        {
            proof {
                lemma_mul_inequality(i as int + 1, len, tbi * deni);
                assert((i as int + 1) * (tbi * deni) == i as int * (tbi * deni) + tbi * deni)
                    by (nonlinear_arith);
            }
            let lvl = if bits[i] == 1 {
                self.v
            } else {
                -self.v
            };
            if split {
                proof {
                    assert((2 * (i as int)) / 2 == i as int && (2 * (i as int)) % 2 == 0 && (2 * (
                    i as int) + 1) / 2 == i as int && (2 * (i as int) + 1) % 2 == 1)
                        by (nonlinear_arith);
                }
                out.push(SigElement { ti: t, tf: t + pulse, lvl });
                out.push(SigElement { ti: t + pulse, tf: t + period, lvl: 0 });
            } else {
                out.push(SigElement { ti: t, tf: t + period, lvl });
            }
            t = t + period;
            i = i + 1;
        }
        out
    }
}

} // verus!
