//! Parameter validation and the bit-string parser.

use vstd::prelude::*;

verus! {

/// The ways a construction or reconfiguration request can be rejected.
/// `encode` itself never fails: these arise only while validating
/// parameters.
#[derive(Debug, Clone, Copy, PartialEq, Eq, Structural)]
pub enum CoderError {
    /// The bit period is not a positive number of ticks.
    InvalidBitPeriod,
    /// The amplitude is zero where a nonzero value is required, not
    /// positive where a positive value is required, or has no
    /// representable negation.
    BadAmplitude,
    /// The duty fraction is not in the half-open interval (0, 1].
    WrongDuty,
}

/// A duty cycle as an exact fraction `num / den` of the bit period,
/// with `0 < num <= den` (so the fraction lies in `(0, 1]`).
#[derive(Debug, Clone, Copy, PartialEq, Eq, Structural)]
pub struct Duty {
    num: u64,
    den: u64,
}

impl Duty {
    /// The numerator of the fraction.
    pub closed spec fn num(&self) -> u64 {
        self.num
    }

    /// The denominator of the fraction.
    pub closed spec fn den(&self) -> u64 {
        self.den
    }

    /// A validated duty fraction is in `(0, 1]`.
    pub open spec fn wf(&self) -> bool {
        1 <= self.num() <= self.den()
    }

    /// The numerator, as a run-time value.
    pub fn num_val(&self) -> (r: u64)
        ensures
            r == self.num(),
    {
        self.num
    }

    /// The denominator, as a run-time value.
    pub fn den_val(&self) -> (r: u64)
        ensures
            r == self.den(),
    {
        self.den
    }

    /// A duty cycle of one half, the conventional default.
    pub fn half() -> (r: Self)
        ensures
            r.num() == 1,
            r.den() == 2,
    {
        Self { num: 1, den: 2 }
    }
}

/// Accepts a bit period exactly when it is a positive number of ticks.
pub fn check_bit_period(tb: u64) -> (r: Result<u64, CoderError>)
    ensures
        r is Ok <==> tb >= 1,
        r is Ok ==> r == Ok::<u64, CoderError>(tb),
        r is Err ==> r == Err::<u64, CoderError>(CoderError::InvalidBitPeriod),
{
    if tb >= 1 {
        Ok(tb)
    } else {
        Err(CoderError::InvalidBitPeriod)
    }
}

/// Accepts an amplitude for the "closed" schemes (NRZ-L, RZ, Manchester,
/// MLT-3), which require a strictly positive value.
pub fn check_ampl_closed(v: i64) -> (r: Result<i64, CoderError>)
    ensures
        r is Ok <==> v >= 1,
        r is Ok ==> r == Ok::<i64, CoderError>(v),
        r is Err ==> r == Err::<i64, CoderError>(CoderError::BadAmplitude),
{
    if v >= 1 {
        Ok(v)
    } else {
        Err(CoderError::BadAmplitude)
    }
}

/// Accepts an amplitude for the "open" schemes (AMI, NRZ-I, HDB3): any
/// nonzero value whose negation is representable, since a negative
/// amplitude is meaningful and selects the initial polarity.
pub fn check_ampl_opened(v: i64) -> (r: Result<i64, CoderError>)
    ensures
        r is Ok <==> v != 0 && v != i64::MIN,
        r is Ok ==> r == Ok::<i64, CoderError>(v),
        r is Err ==> r == Err::<i64, CoderError>(CoderError::BadAmplitude),
{
    if v != 0 && v != i64::MIN {
        Ok(v)
    } else {
        Err(CoderError::BadAmplitude)
    }
}

/// Accepts a duty fraction `num / den` exactly when it lies in `(0, 1]`.
pub fn check_duty(num: u64, den: u64) -> (r: Result<Duty, CoderError>)
    ensures
        r is Ok <==> 1 <= num <= den,
        r is Ok ==> (r matches Ok(d) && d.num() == num && d.den() == den),
        r is Err ==> r == Err::<Duty, CoderError>(CoderError::WrongDuty),
{
    if 1 <= num && num <= den {
        Ok(Duty { num, den })
    } else {
        Err(CoderError::WrongDuty)
    }
}

/// Whether every character of the sequence is the digit '0' or '1'.
pub open spec fn all_bit_chars(s: Seq<char>) -> bool {
    forall|i: int| 0 <= i < s.len() ==> s[i] == '0' || s[i] == '1'
}

/// The bit encoded by one character: '1' maps to 1, anything else to 0.
pub open spec fn bit_of_char(c: char) -> u8 {
    if c == '1' {
        1
    } else {
        0
    }
}

/// Converts a user-typed string of '0' and '1' characters into the bit
/// sequence the coders consume. Empty input or any other character is
/// rejected as a whole rather than truncated.
pub fn parse_bits(input: &str) -> (r: Option<Vec<u8>>)
    ensures
        r is Some <==> input@.len() > 0 && all_bit_chars(input@),
        r matches Some(bits) ==> {
            &&& bits@.len() == input@.len()
            &&& forall|i: int| 0 <= i < bits@.len() ==> bits@[i] == bit_of_char(input@[i])
        },
{
    let n = input.unicode_len();
    if n == 0 {
        return None;
    }
    let mut bits: Vec<u8> = Vec::new();
    let mut i: usize = 0;
    while i < n
        invariant
            n == input@.len(),
            0 <= i <= n,
            bits@.len() == i,
            forall|j: int| 0 <= j < i ==> input@[j] == '0' || input@[j] == '1',
            forall|j: int| 0 <= j < i ==> bits@[j] == bit_of_char(input@[j]),
        decreases n - i,
    {
        let c = input.get_char(i);
        if c == '1' {
            bits.push(1);
        } else if c == '0' {
            bits.push(0);
        } else {
            return None;
        }
        i = i + 1;
    }
    Some(bits)
}

} // verus!
