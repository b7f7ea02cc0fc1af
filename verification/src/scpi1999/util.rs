//! Parameters that can be set to `ONCE` besides on and off.

use vstd::prelude::*;
use vstd::std_specs::convert::TryFromSpec;

use crate::error::{Error, Result};
use crate::parser::parameters::token_bool;
use crate::parser::response::{Formatter, ResponseData};
use crate::parser::token::{SpecToken, Token};
use crate::parser::util::{mnemonic_compare, mnemonic_eq};

verus! {

/// A setting that is on, off or on once.
#[derive(Debug, Clone, Copy, PartialEq, Eq)]
pub enum Auto {
    Once,
    Bool(bool),
}

/// `ONCE`
pub open spec fn once_mnemonic() -> Seq<u8> {
    seq![79u8, 78u8, 67u8, 69u8]
}

/// A data token as an [`Auto`]: `ONCE`, or a boolean.
pub open spec fn token_auto(t: SpecToken) -> Result<Auto> {
    match t {
        SpecToken::CharacterProgramData(s) if mnemonic_eq(once_mnemonic(), s) => Ok(Auto::Once),
        _ => match token_bool(t) {
            Ok(b) => Ok(Auto::Bool(b)),
            Err(e) => Err(e),
        },
    }
}

impl<'a> TryFrom<Token<'a>> for Auto {
    type Error = Error;

    fn try_from(value: Token<'a>) -> (r: Result<Auto>) {
        if let Token::CharacterProgramData(s) = value {
            let once: &[u8] = &[79u8, 78u8, 67u8, 69u8];
            proof {
                assert(once@ == once_mnemonic());
            }
            if mnemonic_compare(once, s) {
                return Ok(Self::Once);
            }
        }
        match bool::try_from(value) {
            Ok(b) => Ok(Self::Bool(b)),
            Err(e) => Err(e),
        }
    }
}

impl<'a> vstd::std_specs::convert::TryFromSpecImpl<Token<'a>> for Auto {
    open spec fn obeys_try_from_spec() -> bool {
        true
    }

    open spec fn try_from_spec(value: Token<'a>) -> Result<Auto> {
        token_auto(value@)
    }
}

impl ResponseData for Auto {
    /// `ONCE`, or the boolean as `1` or `0`.
    open spec fn response(&self) -> Option<Seq<u8>> {
        match *self {
            Auto::Once => Some(once_mnemonic()),
            Auto::Bool(v) => Some(if v { seq![49u8] } else { seq![48u8] }),
        }
    }

    fn format_response_data<F: Formatter>(&self, formatter: &mut F) -> (r: Result<()>) {
        match self {
            Auto::Once => {
                let once: &[u8] = &[79u8, 78u8, 67u8, 69u8];
                proof {
                    assert(once@ == once_mnemonic());
                    crate::parser::response::lemma_extends_append(old(formatter).bytes(), once@);
                }
                formatter.push_ascii(once)
            },
            Auto::Bool(value) => value.format_response_data(formatter),
        }
    }
}

impl From<bool> for Auto {
    fn from(value: bool) -> (a: Self) {
        Self::Bool(value)
    }
}

impl vstd::std_specs::convert::FromSpecImpl<bool> for Auto {
    open spec fn obeys_from_spec() -> bool {
        true
    }

    open spec fn from_spec(value: bool) -> Self {
        Auto::Bool(value)
    }
}

/// The setting after a one-time run: `ONCE` becomes off, on and off stay.
pub open spec fn after_run(a: Auto) -> Auto {
    match a {
        Auto::Once => Auto::Bool(false),
        Auto::Bool(v) => Auto::Bool(v),
    }
}

/// Whether the setting asks for an automatic run (`ONCE` counts as on).
pub open spec fn auto_on(a: Auto) -> bool {
    a == Auto::Once || a == Auto::Bool(true)
}

/// `ONCE` runs once: after a run, the setting asks for another run only if it
/// was on, and a second run changes nothing more.
pub proof fn lemma_auto_once_runs_once(a: Auto)
    ensures
        auto_on(after_run(a)) == (a == Auto::Bool(true)),
        after_run(after_run(a)) == after_run(a),
        a == Auto::Once ==> auto_on(a) && !auto_on(after_run(a)),
{
}

impl Auto {
    /// After a one-time run: `ONCE` becomes off, on and off stay.
    pub fn auto_once(&mut self)
        ensures
            *final(self) == after_run(*old(self)),
    {
        *self = match self {
            Auto::Once => Self::Bool(false),
            Auto::Bool(value) => Self::Bool(*value),
        };
    }

    /// Whether the setting is on (`ONCE` counts as on).
    pub fn auto_enabled(&self) -> (b: bool)
        ensures
            b == auto_on(*self),
    {
        matches!(self, Self::Once | Self::Bool(true))
    }
}

} // verus!
