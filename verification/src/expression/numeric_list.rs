//! Numeric list tokenizer over integers: `1,2:5` reads as `1`, a separator
//! and the range `2:5`.

use vstd::prelude::*;

use crate::error::ErrorCode;
use crate::parser::lexical::{lexical_partial_isize, parse_partial_isize};
use crate::parser::util::ascii_digit;

verus! {

/// Numeric list token
#[derive(Clone, PartialEq, Eq, Debug)]
pub enum Token {
    /// One number
    Numeric(isize),
    /// A range `begin:end`
    NumericRange(isize, isize),
    /// A separator `,`
    Separator,
}

/// Whether a number can be read from `s` without the parser running past
/// its input: there is nothing left, or a digit or a sign comes first.
pub open spec fn number_start(s: Seq<u8>) -> bool {
    s.len() == 0 || ascii_digit(s[0]) || s[0] == 43 || s[0] == 45
}

/// A number, or a range of two numbers separated by `:`, read by
/// `lexical-core` at the start of `s`, and the bytes read.
pub open spec fn spec_numeric_data(s: Seq<u8>) -> (Result<Token, ErrorCode>, nat) {
    match lexical_partial_isize(s) {
        Err(_) => (Err(ErrorCode::NumericDataError), 0),
        Ok((begin, len)) => {
            let t = s.skip(len as int);
            if t.len() > 0 && t[0] == 58 {
                match lexical_partial_isize(t.skip(1)) {
                    Err(_) => (Err(ErrorCode::NumericDataError), (len + 1) as nat),
                    Ok((end, len2)) => if len2 == 0 {
                        (Err(ErrorCode::InvalidExpression), (len + 1) as nat)
                    } else {
                        (Ok(Token::NumericRange(begin, end)), (len + 1 + len2) as nat)
                    },
                }
            } else {
                (Ok(Token::Numeric(begin)), len as nat)
            }
        },
    }
}

/// One step of the tokenizer over `s`: the token (`None` at the end), the
/// bytes read and whether a number is expected next.
pub open spec fn spec_numeric_next(s: Seq<u8>, expect_num: bool) -> (Option<Result<Token, ErrorCode>>, nat, bool) {
    if s.len() == 0 {
        (None, 0, expect_num)
    } else if s[0] == 44 {
        if expect_num {
            (Some(Err(ErrorCode::InvalidExpression)), 0, expect_num)
        } else {
            (Some(Ok(Token::Separator)), 1, true)
        }
    } else if ascii_digit(s[0]) || s[0] == 45 || s[0] == 43 {
        let r = spec_numeric_data(s);
        (Some(r.0), r.1, false)
    } else {
        (Some(Err(ErrorCode::InvalidExpression)), 0, expect_num)
    }
}

/// Numeric list expression tokenizer
#[derive(Clone)]
pub struct Tokenizer<'a> {
    pub chars: &'a [u8],
    pub expect_num: bool,
}

impl<'a> Tokenizer<'a> {
    /// Reads a number, or a range `begin:end`.
    pub fn read_numeric_data(&mut self) -> (r: Result<Token, ErrorCode>)
        requires
            number_start(old(self).chars@),
        ensures
            ({
                let d = spec_numeric_data(old(self).chars@);
                r == d.0 && d.1 <= old(self).chars@.len() && final(self).chars@ == old(self).chars@.skip(d.1 as int)
            }),
            final(self).expect_num == old(self).expect_num,
    {
        let ghost s0 = self.chars@;
        /* Read mantissa */
        let (begin, len) = match parse_partial_isize(self.chars) {
            Ok(v) => v,
            Err(_) => {
                proof {
                    assert(s0.skip(0) == s0);
                }
                return Err(ErrorCode::NumericDataError);
            },
        };
        self.chars = &self.chars[len..self.chars.len()];
        if self.chars.len() > 0 && self.chars[0] == 58 {
            self.chars = &self.chars[1..self.chars.len()];
            proof {
                assert(s0.skip(len as int).skip(1) == s0.skip(len + 1));
            }
            let (end, len2) = match parse_partial_isize(self.chars) {
                Ok(v) => v,
                Err(_) => return Err(ErrorCode::NumericDataError),
            };
            if len2 == 0 {
                return Err(ErrorCode::InvalidExpression);
            }
            proof {
                assert(s0.skip(len + 1).skip(len2 as int) == s0.skip(len + 1 + len2));
            }
            self.chars = &self.chars[len2..self.chars.len()];
            return Ok(Token::NumericRange(begin, end));
        }
        Ok(Token::Numeric(begin))
    }

    /// The next token; `None` at the end of the list.
    pub fn next(&mut self) -> (r: Option<Result<Token, ErrorCode>>)
        ensures
            ({
                let st = spec_numeric_next(old(self).chars@, old(self).expect_num);
                r == st.0 && final(self).chars@ == old(self).chars@.skip(st.1 as int)
                    && final(self).expect_num == st.2
            }),
    {
        let ghost s0 = self.chars@;
        proof {
            assert(s0.skip(0) == s0);
        }
        if self.chars.len() == 0 {
            return None;
        }
        let x = self.chars[0];
        if x == 44 {
            if self.expect_num {
                Some(Err(ErrorCode::InvalidExpression))
            } else {
                self.chars = &self.chars[1..self.chars.len()];
                self.expect_num = true;
                Some(Ok(Token::Separator))
            }
        } else if (48 <= x && x <= 57) || x == 45 || x == 43 {
            self.expect_num = false;
            Some(self.read_numeric_data())
        } else {
            Some(Err(ErrorCode::InvalidExpression))
        }
    }
}

} // verus!
