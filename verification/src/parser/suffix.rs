//! Handle decimal-data suffixes

use vstd::prelude::*;
use vstd::std_specs::convert::TryFromSpec;

use crate::error::Error;
use crate::parser::token::Token;
use crate::parser::util::{eq_ignore_ascii_case, seq_eq_ignore_case};

verus! {

/// A logarithmic or linear unit
pub enum Db<V, UNIT> {
    /// No suffix provided, unknown if linear or log
    Unspecified(V),
    /// Linear suffix provided
    Linear(UNIT),
    /// Log suffix provided
    Logarithmic(V, UNIT),
}

/// Amplitude specifier
pub enum Amplitude<UNIT> {
    /// No amplitude specifier
    Unspecified(UNIT),
    /// `<UNIT>PK`
    ///
    /// Example: `VPK`
    Peak(UNIT),
    /// `<UNIT>PP`
    ///
    /// Example: `VPP`
    PeakToPeak(UNIT),
    /// `<UNIT>RMS`
    ///
    /// Example: `VRMS`
    Rms(UNIT),
}

/// `s` ends with `needle`, ASCII case ignored.
pub open spec fn ends_with_ignore_case(s: Seq<u8>, needle: Seq<u8>) -> bool {
    s.len() >= needle.len() && seq_eq_ignore_case(needle, s.skip(s.len() - needle.len()))
}

/// `PK`
pub open spec fn peak_suffix() -> Seq<u8> {
    seq![80u8, 75u8]
}

/// `PP`
pub open spec fn peak_to_peak_suffix() -> Seq<u8> {
    seq![80u8, 80u8]
}

/// `RMS`
pub open spec fn rms_suffix() -> Seq<u8> {
    seq![82u8, 77u8, 83u8]
}

/// The decimal token `num` with suffix `s` less its last `n` bytes.
pub open spec fn strip_suffix<'a>(num: &'a [u8], s: &'a [u8], n: nat) -> Token<'a> {
    Token::DecimalNumericSuffixProgramData(num, choose|t: &'a [u8]| t@ == s@.take(s@.len() - n))
}

/// What converting `value` into an [`Amplitude`] gives: a suffix ending in
/// `PK`, `PP` or `RMS` (in that order of precedence, case ignored) picks the
/// specifier and leaves the rest of the suffix to the unit; any other token is
/// handed to the unit whole.
pub open spec fn amplitude_spec<'a, UNIT>(value: Token<'a>) -> Result<Amplitude<UNIT>, Error>
    where UNIT: TryFrom<Token<'a>, Error = Error>,
{
    match value {
        Token::DecimalNumericSuffixProgramData(num, s) => {
            if ends_with_ignore_case(s@, peak_suffix()) {
                match UNIT::try_from_spec(strip_suffix(num, s, 2)) {
                    Ok(u) => Ok(Amplitude::Peak(u)),
                    Err(e) => Err(e),
                }
            } else if ends_with_ignore_case(s@, peak_to_peak_suffix()) {
                match UNIT::try_from_spec(strip_suffix(num, s, 2)) {
                    Ok(u) => Ok(Amplitude::PeakToPeak(u)),
                    Err(e) => Err(e),
                }
            } else if ends_with_ignore_case(s@, rms_suffix()) {
                match UNIT::try_from_spec(strip_suffix(num, s, 3)) {
                    Ok(u) => Ok(Amplitude::Rms(u)),
                    Err(e) => Err(e),
                }
            } else {
                match UNIT::try_from_spec(value) {
                    Ok(u) => Ok(Amplitude::Unspecified(u)),
                    Err(e) => Err(e),
                }
            }
        },
        _ => match UNIT::try_from_spec(value) {
            Ok(u) => Ok(Amplitude::Unspecified(u)),
            Err(e) => Err(e),
        },
    }
}

fn ends_with_ignore_ascii(s: &[u8], needle: &[u8]) -> (r: bool)
    ensures
        r == ends_with_ignore_case(s@, needle@),
{
    let m = s.len();
    let n = needle.len();
    if m < n {
        return false;
    }
    let tail = &s[m - n..m];
    proof {
        assert(tail@ =~= s@.skip(m - n));
    }
    eq_ignore_ascii_case(needle, tail)
}

/// `num` with the suffix `s` less its last `n` bytes.
fn strip_suffix_exec<'a>(num: &'a [u8], s: &'a [u8], n: usize) -> (t: Token<'a>)
    requires
        n <= s@.len(),
    ensures
        t == strip_suffix(num, s, n as nat),
{
    let rest = &s[0..s.len() - n];
    proof {
        assert(rest@ =~= s@.take(s@.len() - n));
        let c = choose|c: &'a [u8]| c@ == s@.take(s@.len() - n);
        assert(c@ == rest@);
        assert(c == rest);
    }
    Token::DecimalNumericSuffixProgramData(num, rest)
}

impl<'a, UNIT> TryFrom<Token<'a>> for Amplitude<UNIT> where UNIT: TryFrom<Token<'a>, Error = Error> {
    type Error = Error;

    fn try_from(value: Token<'a>) -> (r: Result<Self, Error>) {
        let pk: &[u8] = &[80u8, 75u8];
        let pp: &[u8] = &[80u8, 80u8];
        let rms: &[u8] = &[82u8, 77u8, 83u8];
        proof {
            assert(pk@ == peak_suffix());
            assert(pp@ == peak_to_peak_suffix());
            assert(rms@ == rms_suffix());
        }
        match value {
            Token::DecimalNumericSuffixProgramData(num, s) => {
                if ends_with_ignore_ascii(s, pk) {
                    match UNIT::try_from(strip_suffix_exec(num, s, 2)) {
                        Ok(u) => Ok(Amplitude::Peak(u)),
                        Err(e) => Err(e),
                    }
                } else if ends_with_ignore_ascii(s, pp) {
                    match UNIT::try_from(strip_suffix_exec(num, s, 2)) {
                        Ok(u) => Ok(Amplitude::PeakToPeak(u)),
                        Err(e) => Err(e),
                    }
                } else if ends_with_ignore_ascii(s, rms) {
                    match UNIT::try_from(strip_suffix_exec(num, s, 3)) {
                        Ok(u) => Ok(Amplitude::Rms(u)),
                        Err(e) => Err(e),
                    }
                } else {
                    match UNIT::try_from(value) {
                        Ok(u) => Ok(Amplitude::Unspecified(u)),
                        Err(e) => Err(e),
                    }
                }
            },
            _ => match UNIT::try_from(value) {
                Ok(u) => Ok(Amplitude::Unspecified(u)),
                Err(e) => Err(e),
            },
        }
    }
}

impl<'a, UNIT> vstd::std_specs::convert::TryFromSpecImpl<Token<'a>> for Amplitude<UNIT> where UNIT: TryFrom<Token<'a>, Error = Error> {
    open spec fn obeys_try_from_spec() -> bool {
        UNIT::obeys_try_from_spec()
    }

    open spec fn try_from_spec(value: Token<'a>) -> Result<Self, Error> {
        amplitude_spec::<UNIT>(value)
    }
}

} // verus!
