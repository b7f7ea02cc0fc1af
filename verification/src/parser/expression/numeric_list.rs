//! # 8.3.3 Numeric Lists
//!
//! A numeric list is a an expression format for compactly expressing numbers and ranges of
//! numbers in a single parameter.

use vstd::prelude::*;

use crate::error::{Error, ErrorCode};
use crate::parser::token::{SpecToken, Token as Number};
use crate::parser::tokenizer::{lemma_skip_skip, lex_nrf, view_result, Tokenizer};
use crate::parser::util::ascii_digit;

verus! {

/// Numeric list token
#[derive(Clone, PartialEq, Debug)]
pub enum Token<'a> {
    /// One number
    Numeric(Number<'a>),
    /// A range `begin:end`
    NumericRange(Number<'a>, Number<'a>),
}

/// The value of a numeric list token.
pub enum SpecNumericToken {
    Numeric(SpecToken),
    NumericRange(SpecToken, SpecToken),
}

impl<'a> View for Token<'a> {
    type V = SpecNumericToken;

    open spec fn view(&self) -> SpecNumericToken {
        match *self {
            Token::Numeric(n) => SpecNumericToken::Numeric(n@),
            Token::NumericRange(a, b) => SpecNumericToken::NumericRange(a@, b@),
        }
    }
}

pub open spec fn view_numeric_result<'a>(r: Result<Token<'a>, ErrorCode>) -> Result<SpecNumericToken, ErrorCode> {
    match r {
        Ok(t) => Ok(t@),
        Err(e) => Err(e),
    }
}

/// A number (`<NRf>`) or a range of two numbers separated by `:` at the
/// start of `s`, and the number of bytes read.
pub open spec fn spec_numeric_entry(s: Seq<u8>) -> (Result<SpecNumericToken, ErrorCode>, nat) {
    let a = lex_nrf(s);
    match a.0 {
        Err(e) => (Err(e), a.1),
        Ok(begin) => if a.1 < s.len() && s[a.1 as int] == 58 {
            let c = lex_nrf(s.skip((a.1 + 1) as int));
            match c.0 {
                Err(e) => (Err(e), a.1 + 1 + c.1),
                Ok(end) => (Ok(SpecNumericToken::NumericRange(begin, end)), a.1 + 1 + c.1),
            }
        } else {
            (Ok(SpecNumericToken::Numeric(begin)), a.1)
        },
    }
}

/// `InvalidExpression`, carrying the message of the error that caused it.
pub open spec fn expression_error(cause: ErrorCode) -> Error {
    Error(ErrorCode::InvalidExpression, Some(choose|m: &'static [u8]| m@ == cause.message()))
}

/// "Invalid character"
pub open spec fn invalid_character_message() -> Seq<u8> {
    seq![73u8, 110u8, 118u8, 97u8, 108u8, 105u8, 100u8, 32u8, 99u8, 104u8, 97u8, 114u8, 97u8, 99u8, 116u8, 101u8, 114u8]
}

pub open spec fn invalid_character() -> Error {
    Error(ErrorCode::InvalidExpression, Some(choose|m: &'static [u8]| m@ == invalid_character_message()))
}

/// One step of a numeric list over `s`: the entry (`None` at the end), the
/// bytes read and whether the list is still at its first entry.
pub open spec fn spec_numeric_next(s: Seq<u8>, first: bool) -> (Option<Result<SpecNumericToken, Error>>, nat, bool) {
    if s.len() == 0 {
        (None, 0, first)
    } else {
        let c = s[0];
        if c == 44 && !first {
            let e = spec_numeric_entry(s.skip(1));
            (Some(match e.0 {
                Ok(t) => Ok(t),
                Err(err) => Err(expression_error(err)),
            }), e.1 + 1, first)
        } else if ascii_digit(c) || c == 45 || (c == 43 && first) {
            let e = spec_numeric_entry(s);
            (Some(match e.0 {
                Ok(t) => Ok(t),
                Err(err) => Err(expression_error(err)),
            }), e.1, false)
        } else {
            (Some(Err(invalid_character())), 0, first)
        }
    }
}

pub open spec fn view_numeric_next<'a>(r: Option<Result<Token<'a>, Error>>) -> Option<Result<SpecNumericToken, Error>> {
    match r {
        Some(Ok(t)) => Some(Ok(t@)),
        Some(Err(e)) => Some(Err(e)),
        None => None,
    }
}

/// Numeric list expression tokenizer
#[derive(Clone)]
pub struct NumericList<'a> {
    pub tokenizer: Tokenizer<'a>,
    pub first: bool,
}

impl<'a> NumericList<'a> {
    /// A numeric list over the expression `s`.
    pub fn new(s: &'a [u8]) -> (l: NumericList<'a>)
        ensures
            l.tokenizer.rest() == s@,
            l.first,
    {
        let t = Tokenizer::new(s);
        proof {
            assert(t.rest() == s@);
        }
        NumericList { tokenizer: t, first: true }
    }

    /// Reads a number or a range of two numbers.
    pub fn read_numeric_data(&mut self) -> (r: Result<Token<'a>, ErrorCode>)
        ensures
            ({
                let e = spec_numeric_entry(old(self).tokenizer.rest());
                &&& view_numeric_result(r) == e.0
                &&& e.1 <= old(self).tokenizer.rest().len()
                &&& final(self).tokenizer.rest() == old(self).tokenizer.rest().skip(e.1 as int)
                &&& final(self).tokenizer.buffer() == old(self).tokenizer.buffer()
                &&& final(self).first == old(self).first
            }),
    {
        let ghost s0 = self.tokenizer.rest();
        let ghost b = self.tokenizer.buffer();
        let ghost p0 = self.tokenizer.position();
        let begin = match self.tokenizer.read_nrf() {
            Ok(t) => t,
            Err(e) => {
                proof {
                    lemma_skip_skip(b, p0 as int, self.tokenizer.position() - p0);
                }
                return Err(e);
            },
        };
        let ghost p1 = self.tokenizer.position();
        proof {
            lemma_skip_skip(b, p0 as int, p1 - p0);
        }
        if let Some(c) = self.tokenizer.peek_byte() {
            if c == 58 {
                self.tokenizer.advance(1);
                proof {
                    lemma_skip_skip(b, p0 as int, p1 - p0 + 1);
                }
                let end = self.tokenizer.read_nrf();
                proof {
                    lemma_skip_skip(b, p0 as int, self.tokenizer.position() - p0);
                    lemma_skip_skip(b, (p1 + 1) as int, self.tokenizer.position() - p1 - 1);
                }
                return match end {
                    Ok(end) => Ok(Token::NumericRange(begin, end)),
                    Err(e) => Err(e),
                };
            }
        }
        Ok(Token::Numeric(begin))
    }

    /// The next entry of the list; `None` at its end.
    pub fn next(&mut self) -> (r: Option<Result<Token<'a>, Error>>)
        ensures
            ({
                let st = spec_numeric_next(old(self).tokenizer.rest(), old(self).first);
                &&& view_numeric_next(r) == st.0
                &&& final(self).tokenizer.rest() == old(self).tokenizer.rest().skip(st.1 as int)
                &&& final(self).tokenizer.buffer() == old(self).tokenizer.buffer()
                &&& final(self).first == st.2
            }),
    {
        let ghost s0 = self.tokenizer.rest();
        let ghost b = self.tokenizer.buffer();
        let ghost p0 = self.tokenizer.position();
        let c = match self.tokenizer.peek_byte() {
            Some(c) => c,
            None => {
                proof {
                    assert(s0.skip(0) == s0);
                }
                return None;
            },
        };
        if c == 44 && !self.first {
            self.tokenizer.advance(1);
            proof {
                lemma_skip_skip(b, p0 as int, 1);
            }
            let r = self.read_numeric_data();
            proof {
                lemma_skip_skip(s0, 1, spec_numeric_entry(s0.skip(1)).1 as int);
            }
            Some(match r {
                Ok(t) => Ok(t),
                Err(err) => Err(expression_error_from(err)),
            })
        } else if (48 <= c && c <= 57) || c == 45 || (c == 43 && self.first) {
            self.first = false;
            let r = self.read_numeric_data();
            Some(match r {
                Ok(t) => Ok(t),
                Err(err) => Err(expression_error_from(err)),
            })
        } else {
            proof {
                assert(s0.skip(0) == s0);
            }
            Some(Err(invalid_character_error()))
        }
    }
}

/// Builds [`expression_error`].
fn expression_error_from(cause: ErrorCode) -> (e: Error)
    ensures
        e == expression_error(cause),
{
    let m = cause.get_message();
    proof {
        let c = choose|m: &'static [u8]| m@ == cause.message();
        assert(c == m);
    }
    Error::extended(ErrorCode::InvalidExpression, m)
}

/// Builds [`invalid_character`].
fn invalid_character_error() -> (e: Error)
    ensures
        e == invalid_character(),
{
    let m: &'static [u8] = &[73u8, 110u8, 118u8, 97u8, 108u8, 105u8, 100u8, 32u8, 99u8, 104u8, 97u8, 114u8, 97u8, 99u8, 116u8, 101u8, 114u8];
    proof {
        assert(m@ == invalid_character_message());
        let c = choose|m: &'static [u8]| m@ == invalid_character_message();
        assert(c == m);
    }
    Error::extended(ErrorCode::InvalidExpression, m)
}

/// An `<NRf>` that is read is at least one byte long.
proof fn lemma_nrf_reads(s: Seq<u8>)
    ensures
        lex_nrf(s).0 is Ok ==> lex_nrf(s).1 >= 1,
{
}

/// Every entry that a numeric list hands out reads input, so iterating the
/// list until it stops or fails always ends.
pub proof fn lemma_numeric_list_progress(s: Seq<u8>, first: bool)
    ensures
        spec_numeric_next(s, first).0 matches Some(Ok(_)) ==> spec_numeric_next(s, first).1 > 0,
{
    lemma_nrf_reads(s);
}

/// Negative numbers are accepted wherever numbers are: a list entry that
/// is an `<NRf>` starting with a digit or with `-` (and is not the start
/// of a range) is handed out as that number, at the first entry or after a
/// comma.
pub proof fn lemma_negative_numbers(s: Seq<u8>, first: bool)
    requires
        s.len() > 0,
        s[0] == 45 || ascii_digit(s[0]),
        lex_nrf(s).0 is Ok,
        lex_nrf(s).1 >= s.len() || s[lex_nrf(s).1 as int] != 58,
    ensures
        spec_numeric_next(s, first).0
            == Some(Ok::<SpecNumericToken, Error>(SpecNumericToken::Numeric(lex_nrf(s).0->Ok_0))),
        !first ==> spec_numeric_next(seq![44u8] + s, first).0
            == Some(Ok::<SpecNumericToken, Error>(SpecNumericToken::Numeric(lex_nrf(s).0->Ok_0))),
{
    assert((seq![44u8] + s).skip(1) =~= s);
}

} // verus!
