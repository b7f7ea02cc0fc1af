//! Channel list tokenizer that reports the separators between its entries.

use vstd::prelude::*;

use crate::error::ErrorCode;
pub use crate::parser::expression::channel_list::{ChannelSpec, ChannelSpecIterator};
use crate::parser::expression::channel_list::{
    spec_channel_path, spec_channel_range, ChannelList, SpecChannelToken, Token as ListToken,
};
use crate::parser::util::ascii_digit;

verus! {

/// Channel list token
#[derive(Clone, PartialEq, Eq, Debug)]
pub enum Token<'a> {
    /// A channel spec consisting of at least one numeric.
    /// Example: `1!2!3` is a three-dimensional spec
    ChannelSpec(ChannelSpec<'a>),
    /// A range consisting of two channel-specs separated by a colon.
    /// Example: `1!1:2!3` is a range from '1,1' to '2,3' (row-major)
    ChannelRange(ChannelSpec<'a>, ChannelSpec<'a>),
    /// A module-channel, contains a module (numeric or character data) and a sub-channel-list.
    ModuleChannel(&'a [u8], &'a [u8]),
    /// A character pathname (can be a file, resource etc...)
    PathName(&'a [u8]),
    /// A channel separator i.e. comma
    Separator,
}

/// The value of a token: an entry of the list, or a separator.
pub enum SpecToken {
    Entry(SpecChannelToken),
    Separator,
}

impl<'a> View for Token<'a> {
    type V = SpecToken;

    open spec fn view(&self) -> SpecToken {
        match *self {
            Token::ChannelSpec(s) => SpecToken::Entry(SpecChannelToken::ChannelSpec(s.0@, s.1 as nat)),
            Token::ChannelRange(a, b) => SpecToken::Entry(
                SpecChannelToken::ChannelRange(a.0@, a.1 as nat, b.0@, b.1 as nat),
            ),
            Token::ModuleChannel(m, c) => SpecToken::Entry(SpecChannelToken::ModuleChannel(m@, c@)),
            Token::PathName(p) => SpecToken::Entry(SpecChannelToken::PathName(p@)),
            Token::Separator => SpecToken::Separator,
        }
    }
}

/// One step of the tokenizer over `s`: the token (`None` at the end) and
/// the bytes read.
pub open spec fn spec_next(s: Seq<u8>) -> (Option<Result<SpecToken, ErrorCode>>, nat) {
    if s.len() == 0 {
        (None, 0)
    } else {
        let x = s[0];
        if x == 44 {
            (Some(Ok(SpecToken::Separator)), 1)
        } else {
            let r = if ascii_digit(x) || x == 43 || x == 45 {
                spec_channel_range(s)
            } else if x == 34 || x == 39 {
                spec_channel_path(s, x)
            } else {
                (Err(ErrorCode::InvalidExpression), 0)
            };
            (Some(match r.0 {
                Ok(t) => Ok(SpecToken::Entry(t)),
                Err(e) => Err(e),
            }), r.1)
        }
    }
}

pub open spec fn view_next<'a>(r: Option<Result<Token<'a>, ErrorCode>>) -> Option<Result<SpecToken, ErrorCode>> {
    match r {
        Some(Ok(t)) => Some(Ok(t@)),
        Some(Err(e)) => Some(Err(e)),
        None => None,
    }
}

/// Channel list expression tokenizer
#[derive(Clone)]
pub struct Tokenizer<'a> {
    pub chars: &'a [u8],
}

impl<'a> Tokenizer<'a> {
    /// Create a new channel-list tokenizer
    ///
    /// # Returns
    /// `Some(Tokenizer)` - Expression is a channel-list (starts with '@')
    /// `None` - Expression is not a channel-list
    pub fn new(expr: &'a [u8]) -> (r: Option<Self>)
        ensures
            match r {
                Some(t) => expr@.len() > 0 && expr@[0] == 64 && t.chars@ == expr@.skip(1),
                None => !(expr@.len() > 0 && expr@[0] == 64),
            },
    {
        if expr.len() > 0 && expr[0] == 64 {
            Some(Tokenizer { chars: &expr[1..expr.len()] })
        } else {
            None
        }
    }

    /// The next token; `None` at the end of the list.
    pub fn next(&mut self) -> (r: Option<Result<Token<'a>, ErrorCode>>)
        requires
            old(self).chars@.len() < usize::MAX,
        ensures
            ({
                let st = spec_next(old(self).chars@);
                view_next(r) == st.0 && final(self).chars@ == old(self).chars@.skip(st.1 as int)
            }),
    {
        let ghost s0 = self.chars@;
        proof {
            assert(s0.skip(0) == s0);
        }
        if self.chars.len() == 0 {
            return None;
        }
        let x = self.chars[0];
        if x == 44 {
            self.chars = &self.chars[1..self.chars.len()];
            return Some(Ok(Token::Separator));
        }
        let mut list = ChannelList { chars: self.chars, first: false };
        let r = if (48 <= x && x <= 57) || x == 43 || x == 45 {
            list.read_channel_range()
        } else if x == 34 || x == 39 {
            list.read_channel_path(x)
        } else {
            Err(ErrorCode::InvalidExpression)
        };
        self.chars = list.chars;
        Some(match r {
            Ok(ListToken::ChannelSpec(s)) => Ok(Token::ChannelSpec(s)),
            Ok(ListToken::ChannelRange(a, b)) => Ok(Token::ChannelRange(a, b)),
            Ok(ListToken::ModuleChannel(m, c)) => Ok(Token::ModuleChannel(m, c)),
            Ok(ListToken::PathName(p)) => Ok(Token::PathName(p)),
            Err(e) => Err(e),
        })
    }
}

} // verus!
