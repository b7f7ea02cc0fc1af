//! Sensor functions (`SENSe:FUNCtion`): what a sensor measures, in what
//! presentation, with what suffix.

use vstd::prelude::*;

use crate::error::{Error, ErrorCode, Result};
use crate::option::ScpiEnum;
use crate::parser::response::{concat, join_parts, lemma_concat_push, Formatter, ResponseData};
use crate::parser::token::{SpecToken, Token};
use crate::parser::tokenizer::{lemma_step_state, tok_step, view_next, TokState, Tokenizer};
use crate::parser::util::{mnemonic_match, mnemonic_matches};

verus! {

/// Presentation layer of a sensor function
#[derive(Debug, Clone, Copy, PartialEq, Eq)]
pub enum Presentation {
    XNone,
    Time,
    Frequency,
    Power,
    Voltage,
    Current,
}

impl Default for Presentation {
    fn default() -> (r: Self)
        ensures
            r == Presentation::XNone,
    {
        Self::XNone
    }
}

impl ScpiEnum for Presentation {
    open spec fn mnemonic_text(&self) -> Seq<u8> {
        match *self {
            Presentation::XNone => seq![88u8, 78u8, 79u8, 78u8, 101u8],
            Presentation::Time => seq![88u8, 84u8, 73u8, 77u8, 101u8],
            Presentation::Frequency => seq![88u8, 70u8, 82u8, 101u8, 113u8, 117u8, 101u8, 110u8, 99u8, 121u8],
            Presentation::Power => seq![88u8, 80u8, 79u8, 87u8, 101u8, 114u8],
            Presentation::Voltage => seq![88u8, 86u8, 79u8, 76u8, 116u8, 97u8, 103u8, 101u8],
            Presentation::Current => seq![88u8, 67u8, 85u8, 82u8, 114u8, 101u8, 110u8, 116u8],
        }
    }

    /// The first variant whose mnemonic matches, in declaration order.
    fn from_mnemonic(s: &[u8]) -> (r: Option<Self>)
        ensures
            mnemonic_matches(seq![88u8, 78u8, 79u8, 78u8, 101u8], s@) ==> r == Some(Presentation::XNone),
            !mnemonic_matches(seq![88u8, 78u8, 79u8, 78u8, 101u8], s@) && mnemonic_matches(seq![88u8, 84u8, 73u8, 77u8, 101u8], s@) ==> r == Some(Presentation::Time),
            !mnemonic_matches(seq![88u8, 78u8, 79u8, 78u8, 101u8], s@) && !mnemonic_matches(seq![88u8, 84u8, 73u8, 77u8, 101u8], s@) && mnemonic_matches(seq![88u8, 70u8, 82u8, 101u8, 113u8, 117u8, 101u8, 110u8, 99u8, 121u8], s@) ==> r == Some(Presentation::Frequency),
            !mnemonic_matches(seq![88u8, 78u8, 79u8, 78u8, 101u8], s@) && !mnemonic_matches(seq![88u8, 84u8, 73u8, 77u8, 101u8], s@) && !mnemonic_matches(seq![88u8, 70u8, 82u8, 101u8, 113u8, 117u8, 101u8, 110u8, 99u8, 121u8], s@) && mnemonic_matches(seq![88u8, 80u8, 79u8, 87u8, 101u8, 114u8], s@) ==> r == Some(Presentation::Power),
            !mnemonic_matches(seq![88u8, 78u8, 79u8, 78u8, 101u8], s@) && !mnemonic_matches(seq![88u8, 84u8, 73u8, 77u8, 101u8], s@) && !mnemonic_matches(seq![88u8, 70u8, 82u8, 101u8, 113u8, 117u8, 101u8, 110u8, 99u8, 121u8], s@) && !mnemonic_matches(seq![88u8, 80u8, 79u8, 87u8, 101u8, 114u8], s@) && mnemonic_matches(seq![88u8, 86u8, 79u8, 76u8, 116u8, 97u8, 103u8, 101u8], s@) ==> r == Some(Presentation::Voltage),
            !mnemonic_matches(seq![88u8, 78u8, 79u8, 78u8, 101u8], s@) && !mnemonic_matches(seq![88u8, 84u8, 73u8, 77u8, 101u8], s@) && !mnemonic_matches(seq![88u8, 70u8, 82u8, 101u8, 113u8, 117u8, 101u8, 110u8, 99u8, 121u8], s@) && !mnemonic_matches(seq![88u8, 80u8, 79u8, 87u8, 101u8, 114u8], s@) && !mnemonic_matches(seq![88u8, 86u8, 79u8, 76u8, 116u8, 97u8, 103u8, 101u8], s@) && mnemonic_matches(seq![88u8, 67u8, 85u8, 82u8, 114u8, 101u8, 110u8, 116u8], s@) ==> r == Some(Presentation::Current),
            !mnemonic_matches(seq![88u8, 78u8, 79u8, 78u8, 101u8], s@) && !mnemonic_matches(seq![88u8, 84u8, 73u8, 77u8, 101u8], s@) && !mnemonic_matches(seq![88u8, 70u8, 82u8, 101u8, 113u8, 117u8, 101u8, 110u8, 99u8, 121u8], s@) && !mnemonic_matches(seq![88u8, 80u8, 79u8, 87u8, 101u8, 114u8], s@) && !mnemonic_matches(seq![88u8, 86u8, 79u8, 76u8, 116u8, 97u8, 103u8, 101u8], s@) && !mnemonic_matches(seq![88u8, 67u8, 85u8, 82u8, 114u8, 101u8, 110u8, 116u8], s@) ==> r is None,
    {
        let m0: &[u8] = &[88u8, 78u8, 79u8, 78u8, 101u8];
        proof {
            assert(m0@ == seq![88u8, 78u8, 79u8, 78u8, 101u8]);
        }
        if mnemonic_match(m0, s) {
            return Some(Self::XNone);
        }
        let m1: &[u8] = &[88u8, 84u8, 73u8, 77u8, 101u8];
        proof {
            assert(m1@ == seq![88u8, 84u8, 73u8, 77u8, 101u8]);
        }
        if mnemonic_match(m1, s) {
            return Some(Self::Time);
        }
        let m2: &[u8] = &[88u8, 70u8, 82u8, 101u8, 113u8, 117u8, 101u8, 110u8, 99u8, 121u8];
        proof {
            assert(m2@ == seq![88u8, 70u8, 82u8, 101u8, 113u8, 117u8, 101u8, 110u8, 99u8, 121u8]);
        }
        if mnemonic_match(m2, s) {
            return Some(Self::Frequency);
        }
        let m3: &[u8] = &[88u8, 80u8, 79u8, 87u8, 101u8, 114u8];
        proof {
            assert(m3@ == seq![88u8, 80u8, 79u8, 87u8, 101u8, 114u8]);
        }
        if mnemonic_match(m3, s) {
            return Some(Self::Power);
        }
        let m4: &[u8] = &[88u8, 86u8, 79u8, 76u8, 116u8, 97u8, 103u8, 101u8];
        proof {
            assert(m4@ == seq![88u8, 86u8, 79u8, 76u8, 116u8, 97u8, 103u8, 101u8]);
        }
        if mnemonic_match(m4, s) {
            return Some(Self::Voltage);
        }
        let m5: &[u8] = &[88u8, 67u8, 85u8, 82u8, 114u8, 101u8, 110u8, 116u8];
        proof {
            assert(m5@ == seq![88u8, 67u8, 85u8, 82u8, 114u8, 101u8, 110u8, 116u8]);
        }
        if mnemonic_match(m5, s) {
            return Some(Self::Current);
        }
        None
    }

    fn mnemonic(&self) -> (m: &'static [u8]) {
        match self {
            Presentation::XNone => {
                let m: &'static [u8] = &[88u8, 78u8, 79u8, 78u8, 101u8];
                proof {
                    assert(m@ == seq![88u8, 78u8, 79u8, 78u8, 101u8]);
                }
                m
            },
            Presentation::Time => {
                let m: &'static [u8] = &[88u8, 84u8, 73u8, 77u8, 101u8];
                proof {
                    assert(m@ == seq![88u8, 84u8, 73u8, 77u8, 101u8]);
                }
                m
            },
            Presentation::Frequency => {
                let m: &'static [u8] = &[88u8, 70u8, 82u8, 101u8, 113u8, 117u8, 101u8, 110u8, 99u8, 121u8];
                proof {
                    assert(m@ == seq![88u8, 70u8, 82u8, 101u8, 113u8, 117u8, 101u8, 110u8, 99u8, 121u8]);
                }
                m
            },
            Presentation::Power => {
                let m: &'static [u8] = &[88u8, 80u8, 79u8, 87u8, 101u8, 114u8];
                proof {
                    assert(m@ == seq![88u8, 80u8, 79u8, 87u8, 101u8, 114u8]);
                }
                m
            },
            Presentation::Voltage => {
                let m: &'static [u8] = &[88u8, 86u8, 79u8, 76u8, 116u8, 97u8, 103u8, 101u8];
                proof {
                    assert(m@ == seq![88u8, 86u8, 79u8, 76u8, 116u8, 97u8, 103u8, 101u8]);
                }
                m
            },
            Presentation::Current => {
                let m: &'static [u8] = &[88u8, 67u8, 85u8, 82u8, 114u8, 101u8, 110u8, 116u8];
                proof {
                    assert(m@ == seq![88u8, 67u8, 85u8, 82u8, 114u8, 101u8, 110u8, 116u8]);
                }
                m
            },
        }
    }
}

/// Character data naming a variant; other character data is an illegal
/// parameter value and other data a data type error.
impl<'a> TryFrom<Token<'a>> for Presentation {
    type Error = Error;

    fn try_from(value: Token<'a>) -> (r: Result<Presentation>)
        ensures
            match value {
                Token::CharacterProgramData(s) => match Presentation::from_mnemonic_spec(s@) {
                    Some(v) => r == Ok::<Presentation, Error>(v),
                    None => r == Err::<Presentation, Error>(Error(ErrorCode::IllegalParameterValue, None)),
                },
                _ => r == Err::<Presentation, Error>(Error(ErrorCode::DataTypeError, None)),
            },
    {
        match value {
            Token::CharacterProgramData(s) => match Self::from_mnemonic(s) {
                Some(v) => Ok(v),
                None => Err(Error::new(ErrorCode::IllegalParameterValue)),
            },
            _ => Err(Error::new(ErrorCode::DataTypeError)),
        }
    }
}

impl Presentation {
    /// The variant [`ScpiEnum::from_mnemonic`] gives for `s`.
    pub open spec fn from_mnemonic_spec(s: Seq<u8>) -> Option<Presentation> {
        if mnemonic_matches(seq![88u8, 78u8, 79u8, 78u8, 101u8], s) { Some(Presentation::XNone) } else { if mnemonic_matches(seq![88u8, 84u8, 73u8, 77u8, 101u8], s) { Some(Presentation::Time) } else { if mnemonic_matches(seq![88u8, 70u8, 82u8, 101u8, 113u8, 117u8, 101u8, 110u8, 99u8, 121u8], s) { Some(Presentation::Frequency) } else { if mnemonic_matches(seq![88u8, 80u8, 79u8, 87u8, 101u8, 114u8], s) { Some(Presentation::Power) } else { if mnemonic_matches(seq![88u8, 86u8, 79u8, 76u8, 116u8, 97u8, 103u8, 101u8], s) { Some(Presentation::Voltage) } else { if mnemonic_matches(seq![88u8, 67u8, 85u8, 82u8, 114u8, 101u8, 110u8, 116u8], s) { Some(Presentation::Current) } else { None } } } } } }
    }
}

impl<'a> vstd::std_specs::convert::TryFromSpecImpl<Token<'a>> for Presentation {
    open spec fn obeys_try_from_spec() -> bool {
        true
    }

    open spec fn try_from_spec(value: Token<'a>) -> Result<Presentation> {
        match value {
            Token::CharacterProgramData(s) => match Presentation::from_mnemonic_spec(s@) {
                Some(v) => Ok(v),
                None => Err(Error(ErrorCode::IllegalParameterValue, None)),
            },
            _ => Err(Error(ErrorCode::DataTypeError, None)),
        }
    }
}
/// Current sensor functions
#[derive(Debug, Clone, Copy, PartialEq, Eq)]
pub enum CurrentFunction {
    Ac,
    Dc,
}

impl Default for CurrentFunction {
    fn default() -> (r: Self)
        ensures
            r == CurrentFunction::Dc,
    {
        Self::Dc
    }
}

impl ScpiEnum for CurrentFunction {
    open spec fn mnemonic_text(&self) -> Seq<u8> {
        match *self {
            CurrentFunction::Ac => seq![65u8, 67u8],
            CurrentFunction::Dc => seq![68u8, 67u8],
        }
    }

    /// The first variant whose mnemonic matches, in declaration order.
    fn from_mnemonic(s: &[u8]) -> (r: Option<Self>)
        ensures
            mnemonic_matches(seq![65u8, 67u8], s@) ==> r == Some(CurrentFunction::Ac),
            !mnemonic_matches(seq![65u8, 67u8], s@) && mnemonic_matches(seq![68u8, 67u8], s@) ==> r == Some(CurrentFunction::Dc),
            !mnemonic_matches(seq![65u8, 67u8], s@) && !mnemonic_matches(seq![68u8, 67u8], s@) ==> r is None,
    {
        let m0: &[u8] = &[65u8, 67u8];
        proof {
            assert(m0@ == seq![65u8, 67u8]);
        }
        if mnemonic_match(m0, s) {
            return Some(Self::Ac);
        }
        let m1: &[u8] = &[68u8, 67u8];
        proof {
            assert(m1@ == seq![68u8, 67u8]);
        }
        if mnemonic_match(m1, s) {
            return Some(Self::Dc);
        }
        None
    }

    fn mnemonic(&self) -> (m: &'static [u8]) {
        match self {
            CurrentFunction::Ac => {
                let m: &'static [u8] = &[65u8, 67u8];
                proof {
                    assert(m@ == seq![65u8, 67u8]);
                }
                m
            },
            CurrentFunction::Dc => {
                let m: &'static [u8] = &[68u8, 67u8];
                proof {
                    assert(m@ == seq![68u8, 67u8]);
                }
                m
            },
        }
    }
}

/// Character data naming a variant; other character data is an illegal
/// parameter value and other data a data type error.
impl<'a> TryFrom<Token<'a>> for CurrentFunction {
    type Error = Error;

    fn try_from(value: Token<'a>) -> (r: Result<CurrentFunction>)
        ensures
            match value {
                Token::CharacterProgramData(s) => match CurrentFunction::from_mnemonic_spec(s@) {
                    Some(v) => r == Ok::<CurrentFunction, Error>(v),
                    None => r == Err::<CurrentFunction, Error>(Error(ErrorCode::IllegalParameterValue, None)),
                },
                _ => r == Err::<CurrentFunction, Error>(Error(ErrorCode::DataTypeError, None)),
            },
    {
        match value {
            Token::CharacterProgramData(s) => match Self::from_mnemonic(s) {
                Some(v) => Ok(v),
                None => Err(Error::new(ErrorCode::IllegalParameterValue)),
            },
            _ => Err(Error::new(ErrorCode::DataTypeError)),
        }
    }
}

impl CurrentFunction {
    /// The variant [`ScpiEnum::from_mnemonic`] gives for `s`.
    pub open spec fn from_mnemonic_spec(s: Seq<u8>) -> Option<CurrentFunction> {
        if mnemonic_matches(seq![65u8, 67u8], s) { Some(CurrentFunction::Ac) } else { if mnemonic_matches(seq![68u8, 67u8], s) { Some(CurrentFunction::Dc) } else { None } }
    }
}

impl<'a> vstd::std_specs::convert::TryFromSpecImpl<Token<'a>> for CurrentFunction {
    open spec fn obeys_try_from_spec() -> bool {
        true
    }

    open spec fn try_from_spec(value: Token<'a>) -> Result<CurrentFunction> {
        match value {
            Token::CharacterProgramData(s) => match CurrentFunction::from_mnemonic_spec(s@) {
                Some(v) => Ok(v),
                None => Err(Error(ErrorCode::IllegalParameterValue, None)),
            },
            _ => Err(Error(ErrorCode::DataTypeError, None)),
        }
    }
}
/// Power sensor functions
#[derive(Debug, Clone, Copy, PartialEq, Eq)]
pub enum PowerFunction {
    Ac,
    Dc,
    Distortion,
    PsDensity,
    SndRatio,
    Snr,
    Thd,
}

impl Default for PowerFunction {
    fn default() -> (r: Self)
        ensures
            r == PowerFunction::Dc,
    {
        Self::Dc
    }
}

impl ScpiEnum for PowerFunction {
    open spec fn mnemonic_text(&self) -> Seq<u8> {
        match *self {
            PowerFunction::Ac => seq![65u8, 67u8],
            PowerFunction::Dc => seq![68u8, 67u8],
            PowerFunction::Distortion => seq![68u8, 73u8, 83u8, 84u8, 111u8, 114u8, 116u8, 105u8, 111u8, 110u8],
            PowerFunction::PsDensity => seq![80u8, 83u8, 68u8, 101u8, 110u8, 115u8, 105u8, 116u8, 121u8],
            PowerFunction::SndRatio => seq![83u8, 78u8, 68u8, 82u8, 97u8, 116u8, 105u8, 111u8],
            PowerFunction::Snr => seq![83u8, 78u8, 82u8],
            PowerFunction::Thd => seq![84u8, 72u8, 68u8],
        }
    }

    /// The first variant whose mnemonic matches, in declaration order.
    fn from_mnemonic(s: &[u8]) -> (r: Option<Self>)
        ensures
            mnemonic_matches(seq![65u8, 67u8], s@) ==> r == Some(PowerFunction::Ac),
            !mnemonic_matches(seq![65u8, 67u8], s@) && mnemonic_matches(seq![68u8, 67u8], s@) ==> r == Some(PowerFunction::Dc),
            !mnemonic_matches(seq![65u8, 67u8], s@) && !mnemonic_matches(seq![68u8, 67u8], s@) && mnemonic_matches(seq![68u8, 73u8, 83u8, 84u8, 111u8, 114u8, 116u8, 105u8, 111u8, 110u8], s@) ==> r == Some(PowerFunction::Distortion),
            !mnemonic_matches(seq![65u8, 67u8], s@) && !mnemonic_matches(seq![68u8, 67u8], s@) && !mnemonic_matches(seq![68u8, 73u8, 83u8, 84u8, 111u8, 114u8, 116u8, 105u8, 111u8, 110u8], s@) && mnemonic_matches(seq![80u8, 83u8, 68u8, 101u8, 110u8, 115u8, 105u8, 116u8, 121u8], s@) ==> r == Some(PowerFunction::PsDensity),
            !mnemonic_matches(seq![65u8, 67u8], s@) && !mnemonic_matches(seq![68u8, 67u8], s@) && !mnemonic_matches(seq![68u8, 73u8, 83u8, 84u8, 111u8, 114u8, 116u8, 105u8, 111u8, 110u8], s@) && !mnemonic_matches(seq![80u8, 83u8, 68u8, 101u8, 110u8, 115u8, 105u8, 116u8, 121u8], s@) && mnemonic_matches(seq![83u8, 78u8, 68u8, 82u8, 97u8, 116u8, 105u8, 111u8], s@) ==> r == Some(PowerFunction::SndRatio),
            !mnemonic_matches(seq![65u8, 67u8], s@) && !mnemonic_matches(seq![68u8, 67u8], s@) && !mnemonic_matches(seq![68u8, 73u8, 83u8, 84u8, 111u8, 114u8, 116u8, 105u8, 111u8, 110u8], s@) && !mnemonic_matches(seq![80u8, 83u8, 68u8, 101u8, 110u8, 115u8, 105u8, 116u8, 121u8], s@) && !mnemonic_matches(seq![83u8, 78u8, 68u8, 82u8, 97u8, 116u8, 105u8, 111u8], s@) && mnemonic_matches(seq![83u8, 78u8, 82u8], s@) ==> r == Some(PowerFunction::Snr),
            !mnemonic_matches(seq![65u8, 67u8], s@) && !mnemonic_matches(seq![68u8, 67u8], s@) && !mnemonic_matches(seq![68u8, 73u8, 83u8, 84u8, 111u8, 114u8, 116u8, 105u8, 111u8, 110u8], s@) && !mnemonic_matches(seq![80u8, 83u8, 68u8, 101u8, 110u8, 115u8, 105u8, 116u8, 121u8], s@) && !mnemonic_matches(seq![83u8, 78u8, 68u8, 82u8, 97u8, 116u8, 105u8, 111u8], s@) && !mnemonic_matches(seq![83u8, 78u8, 82u8], s@) && mnemonic_matches(seq![84u8, 72u8, 68u8], s@) ==> r == Some(PowerFunction::Thd),
            !mnemonic_matches(seq![65u8, 67u8], s@) && !mnemonic_matches(seq![68u8, 67u8], s@) && !mnemonic_matches(seq![68u8, 73u8, 83u8, 84u8, 111u8, 114u8, 116u8, 105u8, 111u8, 110u8], s@) && !mnemonic_matches(seq![80u8, 83u8, 68u8, 101u8, 110u8, 115u8, 105u8, 116u8, 121u8], s@) && !mnemonic_matches(seq![83u8, 78u8, 68u8, 82u8, 97u8, 116u8, 105u8, 111u8], s@) && !mnemonic_matches(seq![83u8, 78u8, 82u8], s@) && !mnemonic_matches(seq![84u8, 72u8, 68u8], s@) ==> r is None,
    {
        let m0: &[u8] = &[65u8, 67u8];
        proof {
            assert(m0@ == seq![65u8, 67u8]);
        }
        if mnemonic_match(m0, s) {
            return Some(Self::Ac);
        }
        let m1: &[u8] = &[68u8, 67u8];
        proof {
            assert(m1@ == seq![68u8, 67u8]);
        }
        if mnemonic_match(m1, s) {
            return Some(Self::Dc);
        }
        let m2: &[u8] = &[68u8, 73u8, 83u8, 84u8, 111u8, 114u8, 116u8, 105u8, 111u8, 110u8];
        proof {
            assert(m2@ == seq![68u8, 73u8, 83u8, 84u8, 111u8, 114u8, 116u8, 105u8, 111u8, 110u8]);
        }
        if mnemonic_match(m2, s) {
            return Some(Self::Distortion);
        }
        let m3: &[u8] = &[80u8, 83u8, 68u8, 101u8, 110u8, 115u8, 105u8, 116u8, 121u8];
        proof {
            assert(m3@ == seq![80u8, 83u8, 68u8, 101u8, 110u8, 115u8, 105u8, 116u8, 121u8]);
        }
        if mnemonic_match(m3, s) {
            return Some(Self::PsDensity);
        }
        let m4: &[u8] = &[83u8, 78u8, 68u8, 82u8, 97u8, 116u8, 105u8, 111u8];
        proof {
            assert(m4@ == seq![83u8, 78u8, 68u8, 82u8, 97u8, 116u8, 105u8, 111u8]);
        }
        if mnemonic_match(m4, s) {
            return Some(Self::SndRatio);
        }
        let m5: &[u8] = &[83u8, 78u8, 82u8];
        proof {
            assert(m5@ == seq![83u8, 78u8, 82u8]);
        }
        if mnemonic_match(m5, s) {
            return Some(Self::Snr);
        }
        let m6: &[u8] = &[84u8, 72u8, 68u8];
        proof {
            assert(m6@ == seq![84u8, 72u8, 68u8]);
        }
        if mnemonic_match(m6, s) {
            return Some(Self::Thd);
        }
        None
    }

    fn mnemonic(&self) -> (m: &'static [u8]) {
        match self {
            PowerFunction::Ac => {
                let m: &'static [u8] = &[65u8, 67u8];
                proof {
                    assert(m@ == seq![65u8, 67u8]);
                }
                m
            },
            PowerFunction::Dc => {
                let m: &'static [u8] = &[68u8, 67u8];
                proof {
                    assert(m@ == seq![68u8, 67u8]);
                }
                m
            },
            PowerFunction::Distortion => {
                let m: &'static [u8] = &[68u8, 73u8, 83u8, 84u8, 111u8, 114u8, 116u8, 105u8, 111u8, 110u8];
                proof {
                    assert(m@ == seq![68u8, 73u8, 83u8, 84u8, 111u8, 114u8, 116u8, 105u8, 111u8, 110u8]);
                }
                m
            },
            PowerFunction::PsDensity => {
                let m: &'static [u8] = &[80u8, 83u8, 68u8, 101u8, 110u8, 115u8, 105u8, 116u8, 121u8];
                proof {
                    assert(m@ == seq![80u8, 83u8, 68u8, 101u8, 110u8, 115u8, 105u8, 116u8, 121u8]);
                }
                m
            },
            PowerFunction::SndRatio => {
                let m: &'static [u8] = &[83u8, 78u8, 68u8, 82u8, 97u8, 116u8, 105u8, 111u8];
                proof {
                    assert(m@ == seq![83u8, 78u8, 68u8, 82u8, 97u8, 116u8, 105u8, 111u8]);
                }
                m
            },
            PowerFunction::Snr => {
                let m: &'static [u8] = &[83u8, 78u8, 82u8];
                proof {
                    assert(m@ == seq![83u8, 78u8, 82u8]);
                }
                m
            },
            PowerFunction::Thd => {
                let m: &'static [u8] = &[84u8, 72u8, 68u8];
                proof {
                    assert(m@ == seq![84u8, 72u8, 68u8]);
                }
                m
            },
        }
    }
}

/// Character data naming a variant; other character data is an illegal
/// parameter value and other data a data type error.
impl<'a> TryFrom<Token<'a>> for PowerFunction {
    type Error = Error;

    fn try_from(value: Token<'a>) -> (r: Result<PowerFunction>)
        ensures
            match value {
                Token::CharacterProgramData(s) => match PowerFunction::from_mnemonic_spec(s@) {
                    Some(v) => r == Ok::<PowerFunction, Error>(v),
                    None => r == Err::<PowerFunction, Error>(Error(ErrorCode::IllegalParameterValue, None)),
                },
                _ => r == Err::<PowerFunction, Error>(Error(ErrorCode::DataTypeError, None)),
            },
    {
        match value {
            Token::CharacterProgramData(s) => match Self::from_mnemonic(s) {
                Some(v) => Ok(v),
                None => Err(Error::new(ErrorCode::IllegalParameterValue)),
            },
            _ => Err(Error::new(ErrorCode::DataTypeError)),
        }
    }
}

impl PowerFunction {
    /// The variant [`ScpiEnum::from_mnemonic`] gives for `s`.
    pub open spec fn from_mnemonic_spec(s: Seq<u8>) -> Option<PowerFunction> {
        if mnemonic_matches(seq![65u8, 67u8], s) { Some(PowerFunction::Ac) } else { if mnemonic_matches(seq![68u8, 67u8], s) { Some(PowerFunction::Dc) } else { if mnemonic_matches(seq![68u8, 73u8, 83u8, 84u8, 111u8, 114u8, 116u8, 105u8, 111u8, 110u8], s) { Some(PowerFunction::Distortion) } else { if mnemonic_matches(seq![80u8, 83u8, 68u8, 101u8, 110u8, 115u8, 105u8, 116u8, 121u8], s) { Some(PowerFunction::PsDensity) } else { if mnemonic_matches(seq![83u8, 78u8, 68u8, 82u8, 97u8, 116u8, 105u8, 111u8], s) { Some(PowerFunction::SndRatio) } else { if mnemonic_matches(seq![83u8, 78u8, 82u8], s) { Some(PowerFunction::Snr) } else { if mnemonic_matches(seq![84u8, 72u8, 68u8], s) { Some(PowerFunction::Thd) } else { None } } } } } } }
    }
}

impl<'a> vstd::std_specs::convert::TryFromSpecImpl<Token<'a>> for PowerFunction {
    open spec fn obeys_try_from_spec() -> bool {
        true
    }

    open spec fn try_from_spec(value: Token<'a>) -> Result<PowerFunction> {
        match value {
            Token::CharacterProgramData(s) => match PowerFunction::from_mnemonic_spec(s@) {
                Some(v) => Ok(v),
                None => Err(Error(ErrorCode::IllegalParameterValue, None)),
            },
            _ => Err(Error(ErrorCode::DataTypeError, None)),
        }
    }
}
/// Voltage sensor functions
#[derive(Debug, Clone, Copy, PartialEq, Eq)]
pub enum VoltageFunction {
    Ac,
    Dc,
}

impl Default for VoltageFunction {
    fn default() -> (r: Self)
        ensures
            r == VoltageFunction::Dc,
    {
        Self::Dc
    }
}

impl ScpiEnum for VoltageFunction {
    open spec fn mnemonic_text(&self) -> Seq<u8> {
        match *self {
            VoltageFunction::Ac => seq![65u8, 67u8],
            VoltageFunction::Dc => seq![68u8, 67u8],
        }
    }

    /// The first variant whose mnemonic matches, in declaration order.
    fn from_mnemonic(s: &[u8]) -> (r: Option<Self>)
        ensures
            mnemonic_matches(seq![65u8, 67u8], s@) ==> r == Some(VoltageFunction::Ac),
            !mnemonic_matches(seq![65u8, 67u8], s@) && mnemonic_matches(seq![68u8, 67u8], s@) ==> r == Some(VoltageFunction::Dc),
            !mnemonic_matches(seq![65u8, 67u8], s@) && !mnemonic_matches(seq![68u8, 67u8], s@) ==> r is None,
    {
        let m0: &[u8] = &[65u8, 67u8];
        proof {
            assert(m0@ == seq![65u8, 67u8]);
        }
        if mnemonic_match(m0, s) {
            return Some(Self::Ac);
        }
        let m1: &[u8] = &[68u8, 67u8];
        proof {
            assert(m1@ == seq![68u8, 67u8]);
        }
        if mnemonic_match(m1, s) {
            return Some(Self::Dc);
        }
        None
    }

    fn mnemonic(&self) -> (m: &'static [u8]) {
        match self {
            VoltageFunction::Ac => {
                let m: &'static [u8] = &[65u8, 67u8];
                proof {
                    assert(m@ == seq![65u8, 67u8]);
                }
                m
            },
            VoltageFunction::Dc => {
                let m: &'static [u8] = &[68u8, 67u8];
                proof {
                    assert(m@ == seq![68u8, 67u8]);
                }
                m
            },
        }
    }
}

/// Character data naming a variant; other character data is an illegal
/// parameter value and other data a data type error.
impl<'a> TryFrom<Token<'a>> for VoltageFunction {
    type Error = Error;

    fn try_from(value: Token<'a>) -> (r: Result<VoltageFunction>)
        ensures
            match value {
                Token::CharacterProgramData(s) => match VoltageFunction::from_mnemonic_spec(s@) {
                    Some(v) => r == Ok::<VoltageFunction, Error>(v),
                    None => r == Err::<VoltageFunction, Error>(Error(ErrorCode::IllegalParameterValue, None)),
                },
                _ => r == Err::<VoltageFunction, Error>(Error(ErrorCode::DataTypeError, None)),
            },
    {
        match value {
            Token::CharacterProgramData(s) => match Self::from_mnemonic(s) {
                Some(v) => Ok(v),
                None => Err(Error::new(ErrorCode::IllegalParameterValue)),
            },
            _ => Err(Error::new(ErrorCode::DataTypeError)),
        }
    }
}

impl VoltageFunction {
    /// The variant [`ScpiEnum::from_mnemonic`] gives for `s`.
    pub open spec fn from_mnemonic_spec(s: Seq<u8>) -> Option<VoltageFunction> {
        if mnemonic_matches(seq![65u8, 67u8], s) { Some(VoltageFunction::Ac) } else { if mnemonic_matches(seq![68u8, 67u8], s) { Some(VoltageFunction::Dc) } else { None } }
    }
}

impl<'a> vstd::std_specs::convert::TryFromSpecImpl<Token<'a>> for VoltageFunction {
    open spec fn obeys_try_from_spec() -> bool {
        true
    }

    open spec fn try_from_spec(value: Token<'a>) -> Result<VoltageFunction> {
        match value {
            Token::CharacterProgramData(s) => match VoltageFunction::from_mnemonic_spec(s@) {
                Some(v) => Ok(v),
                None => Err(Error(ErrorCode::IllegalParameterValue, None)),
            },
            _ => Err(Error(ErrorCode::DataTypeError, None)),
        }
    }
}
/// Sensor function
#[derive(Debug, Clone, Copy, PartialEq, Eq)]
pub enum Function {
    Current(CurrentFunction),
    Frequency,
    FResistance,
    Power(PowerFunction),
    Resistance,
    Temperature,
    Voltage(VoltageFunction),
}

impl ScpiEnum for Function {
    open spec fn mnemonic_text(&self) -> Seq<u8> {
        match *self {
            Function::Current(_) => seq![67u8, 85u8, 82u8, 82u8, 101u8, 110u8, 116u8],
            Function::Frequency => seq![70u8, 82u8, 69u8, 81u8, 117u8, 101u8, 110u8, 99u8, 121u8],
            Function::FResistance => seq![70u8, 82u8, 69u8, 83u8, 105u8, 115u8, 116u8, 97u8, 110u8, 99u8, 101u8],
            Function::Power(_) => seq![80u8, 79u8, 87u8, 101u8, 114u8],
            Function::Resistance => seq![82u8, 69u8, 83u8, 105u8, 115u8, 116u8, 97u8, 110u8, 99u8, 101u8],
            Function::Temperature => seq![84u8, 69u8, 77u8, 80u8, 101u8, 114u8, 97u8, 116u8, 117u8, 114u8, 101u8],
            Function::Voltage(_) => seq![86u8, 79u8, 76u8, 84u8, 97u8, 103u8, 101u8],
        }
    }

    /// The first variant whose mnemonic matches, in declaration order.
    fn from_mnemonic(s: &[u8]) -> (r: Option<Self>)
        ensures
            mnemonic_matches(seq![67u8, 85u8, 82u8, 82u8, 101u8, 110u8, 116u8], s@) ==> r == Some(Function::Current(CurrentFunction::Dc)),
            !mnemonic_matches(seq![67u8, 85u8, 82u8, 82u8, 101u8, 110u8, 116u8], s@) && mnemonic_matches(seq![70u8, 82u8, 69u8, 81u8, 117u8, 101u8, 110u8, 99u8, 121u8], s@) ==> r == Some(Function::Frequency),
            !mnemonic_matches(seq![67u8, 85u8, 82u8, 82u8, 101u8, 110u8, 116u8], s@) && !mnemonic_matches(seq![70u8, 82u8, 69u8, 81u8, 117u8, 101u8, 110u8, 99u8, 121u8], s@) && mnemonic_matches(seq![70u8, 82u8, 69u8, 83u8, 105u8, 115u8, 116u8, 97u8, 110u8, 99u8, 101u8], s@) ==> r == Some(Function::FResistance),
            !mnemonic_matches(seq![67u8, 85u8, 82u8, 82u8, 101u8, 110u8, 116u8], s@) && !mnemonic_matches(seq![70u8, 82u8, 69u8, 81u8, 117u8, 101u8, 110u8, 99u8, 121u8], s@) && !mnemonic_matches(seq![70u8, 82u8, 69u8, 83u8, 105u8, 115u8, 116u8, 97u8, 110u8, 99u8, 101u8], s@) && mnemonic_matches(seq![80u8, 79u8, 87u8, 101u8, 114u8], s@) ==> r == Some(Function::Power(PowerFunction::Dc)),
            !mnemonic_matches(seq![67u8, 85u8, 82u8, 82u8, 101u8, 110u8, 116u8], s@) && !mnemonic_matches(seq![70u8, 82u8, 69u8, 81u8, 117u8, 101u8, 110u8, 99u8, 121u8], s@) && !mnemonic_matches(seq![70u8, 82u8, 69u8, 83u8, 105u8, 115u8, 116u8, 97u8, 110u8, 99u8, 101u8], s@) && !mnemonic_matches(seq![80u8, 79u8, 87u8, 101u8, 114u8], s@) && mnemonic_matches(seq![82u8, 69u8, 83u8, 105u8, 115u8, 116u8, 97u8, 110u8, 99u8, 101u8], s@) ==> r == Some(Function::Resistance),
            !mnemonic_matches(seq![67u8, 85u8, 82u8, 82u8, 101u8, 110u8, 116u8], s@) && !mnemonic_matches(seq![70u8, 82u8, 69u8, 81u8, 117u8, 101u8, 110u8, 99u8, 121u8], s@) && !mnemonic_matches(seq![70u8, 82u8, 69u8, 83u8, 105u8, 115u8, 116u8, 97u8, 110u8, 99u8, 101u8], s@) && !mnemonic_matches(seq![80u8, 79u8, 87u8, 101u8, 114u8], s@) && !mnemonic_matches(seq![82u8, 69u8, 83u8, 105u8, 115u8, 116u8, 97u8, 110u8, 99u8, 101u8], s@) && mnemonic_matches(seq![84u8, 69u8, 77u8, 80u8, 101u8, 114u8, 97u8, 116u8, 117u8, 114u8, 101u8], s@) ==> r == Some(Function::Temperature),
            !mnemonic_matches(seq![67u8, 85u8, 82u8, 82u8, 101u8, 110u8, 116u8], s@) && !mnemonic_matches(seq![70u8, 82u8, 69u8, 81u8, 117u8, 101u8, 110u8, 99u8, 121u8], s@) && !mnemonic_matches(seq![70u8, 82u8, 69u8, 83u8, 105u8, 115u8, 116u8, 97u8, 110u8, 99u8, 101u8], s@) && !mnemonic_matches(seq![80u8, 79u8, 87u8, 101u8, 114u8], s@) && !mnemonic_matches(seq![82u8, 69u8, 83u8, 105u8, 115u8, 116u8, 97u8, 110u8, 99u8, 101u8], s@) && !mnemonic_matches(seq![84u8, 69u8, 77u8, 80u8, 101u8, 114u8, 97u8, 116u8, 117u8, 114u8, 101u8], s@) && mnemonic_matches(seq![86u8, 79u8, 76u8, 84u8, 97u8, 103u8, 101u8], s@) ==> r == Some(Function::Voltage(VoltageFunction::Dc)),
            !mnemonic_matches(seq![67u8, 85u8, 82u8, 82u8, 101u8, 110u8, 116u8], s@) && !mnemonic_matches(seq![70u8, 82u8, 69u8, 81u8, 117u8, 101u8, 110u8, 99u8, 121u8], s@) && !mnemonic_matches(seq![70u8, 82u8, 69u8, 83u8, 105u8, 115u8, 116u8, 97u8, 110u8, 99u8, 101u8], s@) && !mnemonic_matches(seq![80u8, 79u8, 87u8, 101u8, 114u8], s@) && !mnemonic_matches(seq![82u8, 69u8, 83u8, 105u8, 115u8, 116u8, 97u8, 110u8, 99u8, 101u8], s@) && !mnemonic_matches(seq![84u8, 69u8, 77u8, 80u8, 101u8, 114u8, 97u8, 116u8, 117u8, 114u8, 101u8], s@) && !mnemonic_matches(seq![86u8, 79u8, 76u8, 84u8, 97u8, 103u8, 101u8], s@) ==> r is None,
    {
        let m0: &[u8] = &[67u8, 85u8, 82u8, 82u8, 101u8, 110u8, 116u8];
        proof {
            assert(m0@ == seq![67u8, 85u8, 82u8, 82u8, 101u8, 110u8, 116u8]);
        }
        if mnemonic_match(m0, s) {
            return Some(Self::Current(CurrentFunction::Dc));
        }
        let m1: &[u8] = &[70u8, 82u8, 69u8, 81u8, 117u8, 101u8, 110u8, 99u8, 121u8];
        proof {
            assert(m1@ == seq![70u8, 82u8, 69u8, 81u8, 117u8, 101u8, 110u8, 99u8, 121u8]);
        }
        if mnemonic_match(m1, s) {
            return Some(Self::Frequency);
        }
        let m2: &[u8] = &[70u8, 82u8, 69u8, 83u8, 105u8, 115u8, 116u8, 97u8, 110u8, 99u8, 101u8];
        proof {
            assert(m2@ == seq![70u8, 82u8, 69u8, 83u8, 105u8, 115u8, 116u8, 97u8, 110u8, 99u8, 101u8]);
        }
        if mnemonic_match(m2, s) {
            return Some(Self::FResistance);
        }
        let m3: &[u8] = &[80u8, 79u8, 87u8, 101u8, 114u8];
        proof {
            assert(m3@ == seq![80u8, 79u8, 87u8, 101u8, 114u8]);
        }
        if mnemonic_match(m3, s) {
            return Some(Self::Power(PowerFunction::Dc));
        }
        let m4: &[u8] = &[82u8, 69u8, 83u8, 105u8, 115u8, 116u8, 97u8, 110u8, 99u8, 101u8];
        proof {
            assert(m4@ == seq![82u8, 69u8, 83u8, 105u8, 115u8, 116u8, 97u8, 110u8, 99u8, 101u8]);
        }
        if mnemonic_match(m4, s) {
            return Some(Self::Resistance);
        }
        let m5: &[u8] = &[84u8, 69u8, 77u8, 80u8, 101u8, 114u8, 97u8, 116u8, 117u8, 114u8, 101u8];
        proof {
            assert(m5@ == seq![84u8, 69u8, 77u8, 80u8, 101u8, 114u8, 97u8, 116u8, 117u8, 114u8, 101u8]);
        }
        if mnemonic_match(m5, s) {
            return Some(Self::Temperature);
        }
        let m6: &[u8] = &[86u8, 79u8, 76u8, 84u8, 97u8, 103u8, 101u8];
        proof {
            assert(m6@ == seq![86u8, 79u8, 76u8, 84u8, 97u8, 103u8, 101u8]);
        }
        if mnemonic_match(m6, s) {
            return Some(Self::Voltage(VoltageFunction::Dc));
        }
        None
    }

    fn mnemonic(&self) -> (m: &'static [u8]) {
        match self {
            Function::Current(_) => {
                let m: &'static [u8] = &[67u8, 85u8, 82u8, 82u8, 101u8, 110u8, 116u8];
                proof {
                    assert(m@ == seq![67u8, 85u8, 82u8, 82u8, 101u8, 110u8, 116u8]);
                }
                m
            },
            Function::Frequency => {
                let m: &'static [u8] = &[70u8, 82u8, 69u8, 81u8, 117u8, 101u8, 110u8, 99u8, 121u8];
                proof {
                    assert(m@ == seq![70u8, 82u8, 69u8, 81u8, 117u8, 101u8, 110u8, 99u8, 121u8]);
                }
                m
            },
            Function::FResistance => {
                let m: &'static [u8] = &[70u8, 82u8, 69u8, 83u8, 105u8, 115u8, 116u8, 97u8, 110u8, 99u8, 101u8];
                proof {
                    assert(m@ == seq![70u8, 82u8, 69u8, 83u8, 105u8, 115u8, 116u8, 97u8, 110u8, 99u8, 101u8]);
                }
                m
            },
            Function::Power(_) => {
                let m: &'static [u8] = &[80u8, 79u8, 87u8, 101u8, 114u8];
                proof {
                    assert(m@ == seq![80u8, 79u8, 87u8, 101u8, 114u8]);
                }
                m
            },
            Function::Resistance => {
                let m: &'static [u8] = &[82u8, 69u8, 83u8, 105u8, 115u8, 116u8, 97u8, 110u8, 99u8, 101u8];
                proof {
                    assert(m@ == seq![82u8, 69u8, 83u8, 105u8, 115u8, 116u8, 97u8, 110u8, 99u8, 101u8]);
                }
                m
            },
            Function::Temperature => {
                let m: &'static [u8] = &[84u8, 69u8, 77u8, 80u8, 101u8, 114u8, 97u8, 116u8, 117u8, 114u8, 101u8];
                proof {
                    assert(m@ == seq![84u8, 69u8, 77u8, 80u8, 101u8, 114u8, 97u8, 116u8, 117u8, 114u8, 101u8]);
                }
                m
            },
            Function::Voltage(_) => {
                let m: &'static [u8] = &[86u8, 79u8, 76u8, 84u8, 97u8, 103u8, 101u8];
                proof {
                    assert(m@ == seq![86u8, 79u8, 76u8, 84u8, 97u8, 103u8, 101u8]);
                }
                m
            },
        }
    }
}

/// Character data naming a variant; other character data is an illegal
/// parameter value and other data a data type error.
impl<'a> TryFrom<Token<'a>> for Function {
    type Error = Error;

    fn try_from(value: Token<'a>) -> (r: Result<Function>)
        ensures
            match value {
                Token::CharacterProgramData(s) => match Function::from_mnemonic_spec(s@) {
                    Some(v) => r == Ok::<Function, Error>(v),
                    None => r == Err::<Function, Error>(Error(ErrorCode::IllegalParameterValue, None)),
                },
                _ => r == Err::<Function, Error>(Error(ErrorCode::DataTypeError, None)),
            },
    {
        match value {
            Token::CharacterProgramData(s) => match Self::from_mnemonic(s) {
                Some(v) => Ok(v),
                None => Err(Error::new(ErrorCode::IllegalParameterValue)),
            },
            _ => Err(Error::new(ErrorCode::DataTypeError)),
        }
    }
}

impl Function {
    /// The variant [`ScpiEnum::from_mnemonic`] gives for `s`.
    pub open spec fn from_mnemonic_spec(s: Seq<u8>) -> Option<Function> {
        if mnemonic_matches(seq![67u8, 85u8, 82u8, 82u8, 101u8, 110u8, 116u8], s) { Some(Function::Current(CurrentFunction::Dc)) } else { if mnemonic_matches(seq![70u8, 82u8, 69u8, 81u8, 117u8, 101u8, 110u8, 99u8, 121u8], s) { Some(Function::Frequency) } else { if mnemonic_matches(seq![70u8, 82u8, 69u8, 83u8, 105u8, 115u8, 116u8, 97u8, 110u8, 99u8, 101u8], s) { Some(Function::FResistance) } else { if mnemonic_matches(seq![80u8, 79u8, 87u8, 101u8, 114u8], s) { Some(Function::Power(PowerFunction::Dc)) } else { if mnemonic_matches(seq![82u8, 69u8, 83u8, 105u8, 115u8, 116u8, 97u8, 110u8, 99u8, 101u8], s) { Some(Function::Resistance) } else { if mnemonic_matches(seq![84u8, 69u8, 77u8, 80u8, 101u8, 114u8, 97u8, 116u8, 117u8, 114u8, 101u8], s) { Some(Function::Temperature) } else { if mnemonic_matches(seq![86u8, 79u8, 76u8, 84u8, 97u8, 103u8, 101u8], s) { Some(Function::Voltage(VoltageFunction::Dc)) } else { None } } } } } } }
    }
}

impl<'a> vstd::std_specs::convert::TryFromSpecImpl<Token<'a>> for Function {
    open spec fn obeys_try_from_spec() -> bool {
        true
    }

    open spec fn try_from_spec(value: Token<'a>) -> Result<Function> {
        match value {
            Token::CharacterProgramData(s) => match Function::from_mnemonic_spec(s@) {
                Some(v) => Ok(v),
                None => Err(Error(ErrorCode::IllegalParameterValue, None)),
            },
            _ => Err(Error(ErrorCode::DataTypeError, None)),
        }
    }
}
/// Sensor function suffix
#[derive(Debug, Clone, Copy, PartialEq, Eq)]
pub enum Suffix {
    Ratio,
    Sum,
}

impl ScpiEnum for Suffix {
    open spec fn mnemonic_text(&self) -> Seq<u8> {
        match *self {
            Suffix::Ratio => seq![82u8, 65u8, 84u8, 105u8, 111u8],
            Suffix::Sum => seq![83u8, 85u8, 77u8],
        }
    }

    /// The first variant whose mnemonic matches, in declaration order.
    fn from_mnemonic(s: &[u8]) -> (r: Option<Self>)
        ensures
            mnemonic_matches(seq![82u8, 65u8, 84u8, 105u8, 111u8], s@) ==> r == Some(Suffix::Ratio),
            !mnemonic_matches(seq![82u8, 65u8, 84u8, 105u8, 111u8], s@) && mnemonic_matches(seq![83u8, 85u8, 77u8], s@) ==> r == Some(Suffix::Sum),
            !mnemonic_matches(seq![82u8, 65u8, 84u8, 105u8, 111u8], s@) && !mnemonic_matches(seq![83u8, 85u8, 77u8], s@) ==> r is None,
    {
        let m0: &[u8] = &[82u8, 65u8, 84u8, 105u8, 111u8];
        proof {
            assert(m0@ == seq![82u8, 65u8, 84u8, 105u8, 111u8]);
        }
        if mnemonic_match(m0, s) {
            return Some(Self::Ratio);
        }
        let m1: &[u8] = &[83u8, 85u8, 77u8];
        proof {
            assert(m1@ == seq![83u8, 85u8, 77u8]);
        }
        if mnemonic_match(m1, s) {
            return Some(Self::Sum);
        }
        None
    }

    fn mnemonic(&self) -> (m: &'static [u8]) {
        match self {
            Suffix::Ratio => {
                let m: &'static [u8] = &[82u8, 65u8, 84u8, 105u8, 111u8];
                proof {
                    assert(m@ == seq![82u8, 65u8, 84u8, 105u8, 111u8]);
                }
                m
            },
            Suffix::Sum => {
                let m: &'static [u8] = &[83u8, 85u8, 77u8];
                proof {
                    assert(m@ == seq![83u8, 85u8, 77u8]);
                }
                m
            },
        }
    }
}

/// Character data naming a variant; other character data is an illegal
/// parameter value and other data a data type error.
impl<'a> TryFrom<Token<'a>> for Suffix {
    type Error = Error;

    fn try_from(value: Token<'a>) -> (r: Result<Suffix>)
        ensures
            match value {
                Token::CharacterProgramData(s) => match Suffix::from_mnemonic_spec(s@) {
                    Some(v) => r == Ok::<Suffix, Error>(v),
                    None => r == Err::<Suffix, Error>(Error(ErrorCode::IllegalParameterValue, None)),
                },
                _ => r == Err::<Suffix, Error>(Error(ErrorCode::DataTypeError, None)),
            },
    {
        match value {
            Token::CharacterProgramData(s) => match Self::from_mnemonic(s) {
                Some(v) => Ok(v),
                None => Err(Error::new(ErrorCode::IllegalParameterValue)),
            },
            _ => Err(Error::new(ErrorCode::DataTypeError)),
        }
    }
}

impl Suffix {
    /// The variant [`ScpiEnum::from_mnemonic`] gives for `s`.
    pub open spec fn from_mnemonic_spec(s: Seq<u8>) -> Option<Suffix> {
        if mnemonic_matches(seq![82u8, 65u8, 84u8, 105u8, 111u8], s) { Some(Suffix::Ratio) } else { if mnemonic_matches(seq![83u8, 85u8, 77u8], s) { Some(Suffix::Sum) } else { None } }
    }
}

impl<'a> vstd::std_specs::convert::TryFromSpecImpl<Token<'a>> for Suffix {
    open spec fn obeys_try_from_spec() -> bool {
        true
    }

    open spec fn try_from_spec(value: Token<'a>) -> Result<Suffix> {
        match value {
            Token::CharacterProgramData(s) => match Suffix::from_mnemonic_spec(s@) {
                Some(v) => Ok(v),
                None => Err(Error(ErrorCode::IllegalParameterValue, None)),
            },
            _ => Err(Error(ErrorCode::DataTypeError, None)),
        }
    }
}

} // verus!

verus! {

/// A sensor function: presentation, function and suffix.
#[derive(Debug, Clone, Copy, PartialEq, Eq)]
pub struct SensorFunction {
    pub presentation: Presentation,
    pub function: Function,
    pub suffix: Option<Suffix>,
}

/// Whether the step's token is a header mnemonic separator `:`.
pub open spec fn is_separator_token(t: Option<core::result::Result<SpecToken, ErrorCode>>) -> bool {
    t == Some(core::result::Result::Ok::<SpecToken, ErrorCode>(SpecToken::HeaderMnemonicSeparator))
}

/// Skips one `:` if it comes next.
pub open spec fn skip_separator_state(st: TokState) -> TokState {
    let (t, next) = tok_step(st);
    if is_separator_token(t) { next } else { st }
}

/// Reads the optional sub-function (`:AC`, `:DC`, ...) after a current,
/// power or voltage function; `None` on a tokenizer error.
pub open spec fn sub_function_spec(f: Function, st: TokState) -> Option<(Function, TokState)> {
    match f {
        Function::Current(_) | Function::Power(_) | Function::Voltage(_) => {
            let st1 = skip_separator_state(st);
            let (t, st2) = tok_step(st1);
            match t {
                Some(Ok(SpecToken::ProgramMnemonic(m))) => {
                    let sub = match f {
                        Function::Current(_) => match CurrentFunction::from_mnemonic_spec(m) {
                            Some(c) => Some(Function::Current(c)),
                            None => None,
                        },
                        Function::Power(_) => match PowerFunction::from_mnemonic_spec(m) {
                            Some(c) => Some(Function::Power(c)),
                            None => None,
                        },
                        _ => match VoltageFunction::from_mnemonic_spec(m) {
                            Some(c) => Some(Function::Voltage(c)),
                            None => None,
                        },
                    };
                    match sub {
                        Some(g) => Some((g, st2)),
                        None => Some((f, st1)),
                    }
                },
                Some(Err(_)) => None,
                _ => Some((f, st1)),
            }
        },
        _ => Some((f, st)),
    }
}

/// Reads the optional suffix; `None` on a tokenizer error or a mnemonic that
/// is no suffix.
pub open spec fn suffix_spec(st: TokState) -> Option<(Option<Suffix>, TokState)> {
    let st1 = skip_separator_state(st);
    let (t, st2) = tok_step(st1);
    match t {
        Some(Ok(SpecToken::ProgramMnemonic(m))) => match Suffix::from_mnemonic_spec(m) {
            Some(x) => Some((Some(x), st2)),
            None => None,
        },
        Some(Err(_)) => None,
        _ => Some((None, st1)),
    }
}

/// A sensor function written as `[<presentation>:]<function>[:<sub>][:<suffix>]`
/// (IEEE 488.2 header syntax), with nothing after it.
pub open spec fn sensor_function_spec(s: Seq<u8>) -> Option<SensorFunction> {
    let st0: TokState = (s, true, false);
    let (t0, after_first) = tok_step(st0);
    match t0 {
        Some(Ok(SpecToken::ProgramMnemonic(first))) => {
            let (presentation, st1) = match Presentation::from_mnemonic_spec(first) {
                Some(p) => (p, after_first),
                None => (Presentation::XNone, st0),
            };
            let (t2, st3) = tok_step(skip_separator_state(st1));
            match t2 {
                Some(Ok(SpecToken::ProgramMnemonic(func))) => match Function::from_mnemonic_spec(func) {
                    None => None,
                    Some(f) => match sub_function_spec(f, st3) {
                        None => None,
                        Some((function, st4)) => match suffix_spec(st4) {
                            None => None,
                            Some((suffix, st5)) => if tok_step(st5).0 is Some {
                                None
                            } else {
                                Some(SensorFunction { presentation, function, suffix })
                            },
                        },
                    },
                },
                _ => None,
            }
        },
        _ => None,
    }
}

/// The next token, without reading it.
fn peek<'a>(t: &Tokenizer<'a>) -> (r: Option<core::result::Result<Token<'a>, ErrorCode>>)
    ensures
        view_next(r) == tok_step(t.state()).0,
{
    let mut c = *t;
    c.next()
}

/// Reads the next token.
fn advance<'a>(t: &mut Tokenizer<'a>) -> (r: Option<core::result::Result<Token<'a>, ErrorCode>>)
    ensures
        view_next(r) == tok_step(old(t).state()).0,
        final(t).state() == tok_step(old(t).state()).1,
{
    let ghost t0 = *t;
    let r = t.next();
    proof {
        lemma_step_state(t0, *t);
    }
    r
}

/// Skips a `:` if one comes next.
fn skip_separator(t: &mut Tokenizer)
    ensures
        final(t).state() == skip_separator_state(old(t).state()),
{
    let mut c = *t;
    let r = advance(&mut c);
    if let Some(Ok(Token::HeaderMnemonicSeparator)) = r {
        *t = c;
    }
}

impl SensorFunction {
    /// A sensor function from its parts.
    pub fn new(presentation: Presentation, function: Function, suffix: Option<Suffix>) -> (f: Self)
        ensures
            f == (SensorFunction { presentation, function, suffix }),
    {
        Self { presentation, function, suffix }
    }

    /// Reads a sensor function from its text, see [`sensor_function_spec`].
    #[verifier::rlimit(40)]
    pub fn new_from_str(sensor_function: &[u8]) -> (r: Option<Self>)
        ensures
            r == sensor_function_spec(sensor_function@),
    {
        let mut toks = Tokenizer::new(sensor_function);
        let ghost st0 = toks.state();
        proof {
            assert(toks.rest() == sensor_function@);
        }
        // Get presentation
        let presentation = match peek(&toks) {
            Some(Ok(Token::ProgramMnemonic(first))) => {
                if let Some(presentation) = Presentation::from_mnemonic(first) {
                    advance(&mut toks);
                    presentation
                } else {
                    Presentation::XNone
                }
            },
            _ => return None,
        };
        // Consume seperator
        skip_separator(&mut toks);
        // Get function
        let func = match advance(&mut toks) {
            Some(Ok(Token::ProgramMnemonic(func))) => func,
            _ => return None,
        };
        let f = match Function::from_mnemonic(func) {
            Some(f) => f,
            None => return None,
        };
        let function = match f {
            Function::Current(_) | Function::Power(_) | Function::Voltage(_) => {
                skip_separator(&mut toks);
                match peek(&toks) {
                    // Maybe an additional specifier [DC/AC]?
                    Some(Ok(Token::ProgramMnemonic(sub))) => {
                        let g = match f {
                            Function::Current(_) => match CurrentFunction::from_mnemonic(sub) {
                                Some(c) => Some(Function::Current(c)),
                                None => None,
                            },
                            Function::Power(_) => match PowerFunction::from_mnemonic(sub) {
                                Some(c) => Some(Function::Power(c)),
                                None => None,
                            },
                            _ => match VoltageFunction::from_mnemonic(sub) {
                                Some(c) => Some(Function::Voltage(c)),
                                None => None,
                            },
                        };
                        match g {
                            Some(g) => {
                                advance(&mut toks);
                                g
                            },
                            None => f,
                        }
                    },
                    // Something went wrong
                    Some(Err(_)) => return None,
                    // No additional mnemonic
                    _ => f,
                }
            },
            func => func,
        };
        skip_separator(&mut toks);
        // Get suffix
        let suffix = match peek(&toks) {
            Some(Ok(Token::ProgramMnemonic(suffix))) => {
                let suffix = match Suffix::from_mnemonic(suffix) {
                    Some(s) => s,
                    None => return None,
                };
                advance(&mut toks);
                Some(suffix)
            },
            Some(Err(_)) => return None,
            _ => None,
        };
        // No straggling tokens
        if peek(&toks).is_some() {
            return None;
        }
        Some(Self::new(presentation, function, suffix))
    }
}

} // verus!

verus! {

/// "Invalid sensor function"
pub open spec fn invalid_sensor_function_message() -> Seq<u8> {
    seq![73u8, 110u8, 118u8, 97u8, 108u8, 105u8, 100u8, 32u8, 115u8, 101u8, 110u8, 115u8, 111u8, 114u8, 32u8, 102u8, 117u8, 110u8, 99u8, 116u8, 105u8, 111u8, 110u8]
}

/// String data holding a sensor function.
impl<'a> TryFrom<Token<'a>> for SensorFunction {
    type Error = Error;

    fn try_from(value: Token<'a>) -> (r: Result<SensorFunction>)
        ensures
            match value@ {
                SpecToken::StringProgramData(s) => match sensor_function_spec(s) {
                    Some(f) => r == Ok::<SensorFunction, Error>(f),
                    None => (r matches Err(e) && e.0 == ErrorCode::IllegalParameterValue
                        && (e.1 matches Some(m) && m@ == invalid_sensor_function_message())),
                },
                _ => r == Err::<SensorFunction, Error>(Error(ErrorCode::DataTypeError, None)),
            },
    {
        if let Token::StringProgramData(string) = value {
            if let Some(func) = Self::new_from_str(string) {
                Ok(func)
            } else {
                let m: &'static [u8] = &[73u8, 110u8, 118u8, 97u8, 108u8, 105u8, 100u8, 32u8, 115u8, 101u8, 110u8, 115u8, 111u8, 114u8, 32u8, 102u8, 117u8, 110u8, 99u8, 116u8, 105u8, 111u8, 110u8];
                proof {
                    assert(m@ == invalid_sensor_function_message());
                }
                Err(Error::extended(ErrorCode::IllegalParameterValue, m))
            }
        } else {
            Err(Error::new(ErrorCode::DataTypeError))
        }
    }
}

/// A sensor function is answered with a fresh error message each time; the
/// contract of `try_from` above states the result.
impl<'a> vstd::std_specs::convert::TryFromSpecImpl<Token<'a>> for SensorFunction {
    open spec fn obeys_try_from_spec() -> bool {
        false
    }

    open spec fn try_from_spec(value: Token<'a>) -> Result<SensorFunction> {
        match value@ {
            SpecToken::StringProgramData(s) => match sensor_function_spec(s) {
                Some(f) => Ok(f),
                None => Err(Error(ErrorCode::IllegalParameterValue, None)),
            },
            _ => Err(Error(ErrorCode::DataTypeError, None)),
        }
    }
}

/// The sub-function of a current, power or voltage function, as a short
/// form.
pub open spec fn sub_short_form(f: Function) -> Option<Seq<u8>> {
    match f {
        Function::Current(x) => Some(crate::option::short_form_of(x.mnemonic_text())),
        Function::Power(x) => Some(crate::option::short_form_of(x.mnemonic_text())),
        Function::Voltage(x) => Some(crate::option::short_form_of(x.mnemonic_text())),
        _ => None,
    }
}

/// The text of a sensor function in short forms, in double quotes:
/// `"[<presentation>:]<function>[:<sub>][:<suffix>]"`.
pub open spec fn sensor_function_text(f: SensorFunction) -> Seq<u8> {
    seq![34u8] + presentation_text(f.presentation) + function_text(f.function) + suffix_text(f.suffix) + seq![34u8]
}

impl ResponseData for SensorFunction {
    open spec fn response(&self) -> Option<Seq<u8>> {
        Some(sensor_function_text(*self))
    }

    /// Writes the whole text at once: it succeeds exactly when the formatter
    /// takes it.
    fn format_response_data<F: Formatter>(&self, formatter: &mut F) -> (r: Result<()>)
        ensures
            r is Ok <==> old(formatter).accepts(sensor_function_text(*self).len()),
    {
        let quote: &[u8] = &[34u8];
        proof {
            assert(quote@ == seq![34u8]);
        }
        let mut parts: Vec<&[u8]> = Vec::new();
        add_part(&mut parts, quote);
        let ghost a = concat(parts@);
        presentation_parts(self.presentation, &mut parts);
        let ghost b = concat(parts@);
        function_parts(self.function, &mut parts);
        let ghost c = concat(parts@);
        suffix_parts(self.suffix, &mut parts);
        let ghost d = concat(parts@);
        add_part(&mut parts, quote);
        proof {
            assert(concat(Seq::<&[u8]>::empty()) == Seq::<u8>::empty());
            assert(a == seq![34u8]);
            assert(concat(parts@) =~= sensor_function_text(*self));
        }
        let text = join_parts(&parts);
        let ghost b0 = formatter.bytes();
        let r = formatter.push_str(text.as_slice());
        proof {
            crate::parser::response::lemma_extends_append(b0, text@);
            assert(b0 + Seq::<u8>::empty() =~= b0);
            crate::parser::response::lemma_extends_append(b0, Seq::empty());
        }
        r
    }
}

/// The presentation text of a sensor function.
pub open spec fn presentation_text(p: Presentation) -> Seq<u8> {
    if p == Presentation::XNone {
        Seq::empty()
    } else {
        crate::option::short_form_of(p.mnemonic_text()) + seq![58u8]
    }
}

fn presentation_parts<'a>(presentation: Presentation, parts: &mut Vec<&'a [u8]>)
    ensures
        concat(final(parts)@) == concat(old(parts)@) + presentation_text(presentation),
{
    let colon: &[u8] = &[58u8];
    proof {
        assert(colon@ == seq![58u8]);
        assert(concat(old(parts)@) + Seq::<u8>::empty() =~= concat(old(parts)@));
    }
    match presentation {
        Presentation::XNone => {},
        p => {
            let ghost c0 = concat(parts@);
            add_part(parts, p.short_form());
            add_part(parts, colon);
            proof {
                assert(c0 + crate::option::short_form_of(p.mnemonic_text()) + seq![58u8]
                    =~= c0 + presentation_text(presentation));
            }
        },
    }
}

/// The function text of a sensor function: short form and sub-function.
pub open spec fn function_text(f: Function) -> Seq<u8> {
    crate::option::short_form_of(f.mnemonic_text()) + match sub_short_form(f) {
        Some(x) => seq![58u8] + x,
        None => Seq::empty(),
    }
}

fn function_parts<'a>(function: Function, parts: &mut Vec<&'a [u8]>)
    ensures
        concat(final(parts)@) == concat(old(parts)@) + function_text(function),
{
    let colon: &[u8] = &[58u8];
    proof {
        assert(colon@ == seq![58u8]);
    }
    let ghost c0 = concat(parts@);
    add_part(parts, function.short_form());
    let ghost c1 = concat(parts@);
    match function {
        Function::Current(x) => {
            add_part(parts, colon);
            add_part(parts, x.short_form());
        },
        Function::Power(x) => {
            add_part(parts, colon);
            add_part(parts, x.short_form());
        },
        Function::Voltage(x) => {
            add_part(parts, colon);
            add_part(parts, x.short_form());
        },
        _ => {},
    }
    proof {
        assert(concat(parts@) =~= c0 + function_text(function));
    }
}

/// The suffix text of a sensor function.
pub open spec fn suffix_text(s: Option<Suffix>) -> Seq<u8> {
    match s {
        Some(x) => seq![58u8] + crate::option::short_form_of(x.mnemonic_text()),
        None => Seq::empty(),
    }
}

fn suffix_parts<'a>(suffix: Option<Suffix>, parts: &mut Vec<&'a [u8]>)
    ensures
        concat(final(parts)@) == concat(old(parts)@) + suffix_text(suffix),
{
    let colon: &[u8] = &[58u8];
    proof {
        assert(colon@ == seq![58u8]);
        assert(concat(old(parts)@) + Seq::<u8>::empty() =~= concat(old(parts)@));
    }
    let ghost c0 = concat(parts@);
    if let Some(x) = suffix {
        add_part(parts, colon);
        add_part(parts, x.short_form());
        proof {
            assert(concat(parts@) =~= c0 + suffix_text(suffix));
        }
    }
}

/// Appends a part.
fn add_part<'a>(parts: &mut Vec<&'a [u8]>, p: &'a [u8])
    ensures
        final(parts)@ == old(parts)@.push(p),
        concat(final(parts)@) == concat(old(parts)@) + p@,
{
    proof {
        lemma_concat_push(parts@, p);
    }
    parts.push(p);
}

} // verus!
