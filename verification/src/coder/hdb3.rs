//! The high-density bipolar order-3 coder.
//!
//! HDB3 behaves like AMI except that every run of four consecutive
//! zeros is replaced by a substitution block carrying a deliberate
//! polarity violation, so long silences still provide transitions. The
//! encoder works in two passes: a symbol-derivation pass over the whole
//! bit sequence, then a timing pass laying one segment per symbol.

use vstd::arithmetic::mul::lemma_mul_inequality;
use vstd::prelude::*;

use crate::coder::level_run;
use crate::coder::SigElement;
use crate::util::check_ampl_opened;
use crate::util::check_bit_period;
use crate::util::CoderError;

verus! {

/// One derived line symbol: a mark of either polarity, or silence.
#[derive(Debug, Clone, Copy, PartialEq, Eq, Structural)]
pub enum Symbol {
    /// A mark sent at `+v`.
    Positive,
    /// A mark sent at `-v`.
    Negative,
    /// No pulse.
    Silence,
}

/// The state of the symbol derivation after some prefix of the bits:
/// the symbols emitted so far, the polarity accumulator (whether the
/// last mark-polarity is positive), whether an odd number of marks has
/// been sent since the last substitution, and the length of the
/// current zero run.
pub struct Hdb3Scan {
    /// Symbols emitted so far.
    pub syms: Seq<Symbol>,
    /// Whether the polarity accumulator is positive.
    pub pos: bool,
    /// Whether an odd number of marks was emitted since the last
    /// substitution.
    pub odd: bool,
    /// Length of the current run of zeros, between 0 and 3.
    pub zrun: int,
}

/// The mark symbol of the given polarity.
pub open spec fn mark_sym(pos: bool) -> Symbol {
    if pos {
        Symbol::Positive
    } else {
        Symbol::Negative
    }
}

/// Before any bit is consumed: no symbols, a positive polarity
/// accumulator, no marks since the (notional) last substitution, and
/// no running zeros.
pub open spec fn hdb3_init() -> Hdb3Scan {
    Hdb3Scan { syms: Seq::empty(), pos: true, odd: false, zrun: 0 }
}

/// Consumes one bit. A 1 bit inverts the polarity accumulator and
/// emits a mark at the new polarity. A 0 bit extends the zero run;
/// when the run reaches four, the three silences just emitted are
/// retracted and a substitution block is emitted instead: `000V` (three
/// silences and a mark at the unchanged polarity) after an odd number
/// of marks, `B00V` (marks at the inverted polarity around two
/// silences) after an even number.
pub open spec fn hdb3_step(st: Hdb3Scan, bit: u8) -> Hdb3Scan {
    if bit == 1 {
        let p = !st.pos;
        Hdb3Scan { syms: st.syms.push(mark_sym(p)), pos: p, odd: !st.odd, zrun: 0 }
    } else if st.zrun == 3 {
        let base = st.syms.take(st.syms.len() - 3);
        if st.odd {
            Hdb3Scan {
                syms: base + seq![Symbol::Silence, Symbol::Silence, Symbol::Silence, mark_sym(st.pos)],
                pos: st.pos,
                odd: false,
                zrun: 0,
            }
        } else {
            let p = !st.pos;
            Hdb3Scan {
                syms: base + seq![mark_sym(p), Symbol::Silence, Symbol::Silence, mark_sym(p)],
                pos: p,
                odd: false,
                zrun: 0,
            }
        }
    } else {
        Hdb3Scan { syms: st.syms.push(Symbol::Silence), pos: st.pos, odd: st.odd, zrun: st.zrun + 1 }
    }
}

/// The derivation state after consuming the whole bit sequence.
pub open spec fn hdb3_scan(bits: Seq<u8>) -> Hdb3Scan
    decreases bits.len(),
{
    if bits.len() == 0 {
        hdb3_init()
    } else {
        hdb3_step(hdb3_scan(bits.drop_last()), bits.last())
    }
}

/// The symbol sequence derived from the bits. It does not depend on
/// the amplitude: the amplitude only scales the levels afterwards.
pub open spec fn hdb3_symbols(bits: Seq<u8>) -> Seq<Symbol> {
    hdb3_scan(bits).syms
}

/// The level a symbol is sent at.
pub open spec fn sym_level(s: Symbol, v: int) -> int {
    match s {
        Symbol::Positive => v,
        Symbol::Negative => -v,
        Symbol::Silence => 0,
    }
}

/// The level sequence: one level per input bit.
pub open spec fn hdb3_levels(bits: Seq<u8>, v: int) -> Seq<int> {
    Seq::new(hdb3_symbols(bits).len(), |i: int| sym_level(hdb3_symbols(bits)[i], v))
}

/// The derivation keeps one symbol per consumed bit and its zero-run
/// counter between 0 and 3, never larger than the symbol count.
pub proof fn lemma_hdb3_scan_wf(bits: Seq<u8>)
    ensures
        hdb3_scan(bits).syms.len() == bits.len(),
        0 <= hdb3_scan(bits).zrun <= 3,
        hdb3_scan(bits).zrun <= hdb3_scan(bits).syms.len(),
    decreases bits.len(),
{
    if bits.len() > 0 {
        lemma_hdb3_scan_wf(bits.drop_last());
    }
}

/// The high-density bipolar order-3 coder: AMI with every four-zero
/// run replaced by a violation block, one segment per bit.
#[derive(Debug, Clone, Copy, PartialEq, Eq, Structural)]
pub struct Hdb3 {
    tb: u64,
    v: i64,
}

impl Hdb3 {
    /// The configured bit period, in ticks.
    pub closed spec fn tb(&self) -> u64 {
        self.tb
    }

    /// The configured amplitude, in voltage steps.
    pub closed spec fn v(&self) -> i64 {
        self.v
    }

    /// Validated parameters: a positive bit period and (the scheme is
    /// "open") a nonzero amplitude with a representable negation.
    pub open spec fn wf(&self) -> bool {
        self.tb() >= 1 && self.v() != 0 && self.v() != i64::MIN
    }

    /// A coder with the default bit period and amplitude.
    pub fn new() -> (r: Self)
        ensures
            r.tb() == crate::coder::GLOB_BASE_TB,
            r.v() == crate::coder::GLOB_BASE_V,
            r.wf(),
    {
        Self { tb: crate::coder::GLOB_BASE_TB, v: crate::coder::GLOB_BASE_V }
    }

    /// Builds a coder from a validated bit period and amplitude; an
    /// invalid bit period is reported before an invalid amplitude.
    pub fn build(tb: u64, v: i64) -> (r: Result<Self, CoderError>)
        ensures
            r is Ok <==> tb >= 1 && v != 0 && v != i64::MIN,
            r matches Ok(c) ==> c.tb() == tb && c.v() == v,
            tb < 1 ==> r == Err::<Self, CoderError>(CoderError::InvalidBitPeriod),
            tb >= 1 && (v == 0 || v == i64::MIN) ==> r == Err::<Self, CoderError>(
                CoderError::BadAmplitude,
            ),
    {
        Ok(Self { tb: check_bit_period(tb)?, v: check_ampl_opened(v)? })
    }

    /// Replaces the bit period, keeping the old value when the new one
    /// is rejected.
    pub fn on_tb(&mut self, tb: u64) -> (r: Result<(), CoderError>)
        ensures
            r is Ok <==> tb >= 1,
            r is Ok ==> final(self).tb() == tb && final(self).v() == old(self).v(),
            r is Err ==> *final(self) == *old(self) && r == Err::<(), CoderError>(
                CoderError::InvalidBitPeriod,
            ),
    {
        self.tb = check_bit_period(tb)?;
        Ok(())
    }

    /// Replaces the amplitude, keeping the old value when the new one
    /// is rejected.
    pub fn on_v(&mut self, v: i64) -> (r: Result<(), CoderError>)
        ensures
            r is Ok <==> v != 0 && v != i64::MIN,
            r is Ok ==> final(self).v() == v && final(self).tb() == old(self).tb(),
            r is Err ==> *final(self) == *old(self) && r == Err::<(), CoderError>(
                CoderError::BadAmplitude,
            ),
    {
        self.v = check_ampl_opened(v)?;
        Ok(())
    }

    /// Encodes the bits: derives the substituted symbol sequence, then
    /// lays out one segment per symbol, `tb` ticks wide.
    pub fn encode(&self, bits: &[u8]) -> (out: Vec<SigElement>)
        requires
            self.wf(),
            bits@.len() * self.tb() <= u64::MAX,
        ensures
            out@.len() == bits@.len(),
            forall|i: int|
                0 <= i < out@.len() ==> out@[i]@ == level_run(
                    hdb3_levels(bits@, self.v() as int),
                    self.tb() as int,
                )[i],
    {
        let mut syms: Vec<Symbol> = Vec::new();
        let mut pos: bool = true;
        let mut odd: bool = false;
        let mut zrun: usize = 0;
        let mut i: usize = 0;
        while i < bits.len()
            invariant
                0 <= i <= bits@.len(),
                syms@ == hdb3_scan(bits@.take(i as int)).syms,
                pos == hdb3_scan(bits@.take(i as int)).pos,
                odd == hdb3_scan(bits@.take(i as int)).odd,
                zrun == hdb3_scan(bits@.take(i as int)).zrun,
                syms@.len() == i,
            decreases bits@.len() - i,
        {
            proof {
                lemma_hdb3_scan_wf(bits@.take(i as int));
                assert(bits@.take(i as int + 1).drop_last() =~= bits@.take(i as int));
                assert(bits@.take(i as int + 1).last() == bits@[i as int]);
            }
            if bits[i] == 1 {
                pos = !pos;
                syms.push(if pos {
                    Symbol::Positive
                } else {
                    Symbol::Negative
                });
                odd = !odd;
                zrun = 0;
            } else if zrun == 3 {
                let base = syms.len() - 3;
                syms.truncate(base);
                if odd {
                    syms.push(Symbol::Silence);
                    syms.push(Symbol::Silence);
                    syms.push(Symbol::Silence);
                    syms.push(if pos {
                        Symbol::Positive
                    } else {
                        Symbol::Negative
                    });
                } else {
                    pos = !pos;
                    let m = if pos {
                        Symbol::Positive
                    } else {
                        Symbol::Negative
                    };
                    syms.push(m);
                    syms.push(Symbol::Silence);
                    syms.push(Symbol::Silence);
                    syms.push(m);
                }
                odd = false;
                zrun = 0;
            } else {
                syms.push(Symbol::Silence);
                zrun = zrun + 1;
            }
            proof {
                assert(syms@ =~= hdb3_scan(bits@.take(i as int + 1)).syms);
            }
            i = i + 1;
        }
        proof {
            assert(bits@.take(bits@.len() as int) =~= bits@);
        }
        let ghost levels = hdb3_levels(bits@, self.v() as int);
        let ghost segs = level_run(levels, self.tb() as int);
        let mut out: Vec<SigElement> = Vec::new();
        let mut t: u64 = 0;
        let mut j: usize = 0;
        while j < syms.len()
            invariant
                self.wf(),
                bits@.len() * self.tb() <= u64::MAX,
                syms@ == hdb3_symbols(bits@),
                syms@.len() == bits@.len(),
                levels == hdb3_levels(bits@, self.v() as int),
                segs == level_run(levels, self.tb() as int),
                0 <= j <= syms@.len(),
                t == j * self.tb(),
                out@.len() == j,
                forall|k: int| 0 <= k < j ==> out@[k]@ == segs[k],
            decreases syms@.len() - j,
        {
            proof {
                lemma_mul_inequality(j as int + 1, bits@.len() as int, self.tb() as int);
                assert((j as int + 1) * (self.tb() as int) == j as int * (self.tb() as int)
                    + self.tb() as int) by (nonlinear_arith);
            }
            let tf = t + self.tb;
            let lvl = match syms[j] {
                Symbol::Positive => self.v,
                Symbol::Negative => -self.v,
                Symbol::Silence => 0,
            };
            out.push(SigElement { ti: t, tf, lvl });
            t = tf;
            j = j + 1;
        }
        out
    }
}

} // verus!
