//! # 8.3.2 Channel Lists
//! Channel lists are used to specify electrical ports on an instrument. They are typically used for
//! signal routing either in a standalone switch box or in an instrument with multiple input
//! channels.
//!
//! A channel list may appear in measurement, configuration, and other such commands. For
//! example, MEAS:VOLT? (@1,3,4:6) says measure the voltage on channels 1, 3, and 4
//! through 6.

use vstd::prelude::*;

use crate::error::ErrorCode;
use crate::parser::lexical::{lexical_partial_isize, parse_partial_isize};
use crate::parser::token::{SpecToken, Token as DataToken};
use crate::parser::tokenizer::{lemma_skip_skip, lemma_span_le, lemma_string_end_plain, lex_string, Tokenizer};
use crate::parser::util::{ascii, ascii_digit, class_pred, scan, span, CharClass};

verus! {

/// A channel spec: its bytes and its dimension (one more than the number of
/// `!` separators).
#[derive(Clone, Copy, PartialEq, Eq, Debug)]
pub struct ChannelSpec<'a>(pub &'a [u8], pub usize);

/// Number of `!` in `s`.
pub open spec fn bangs(s: Seq<u8>) -> nat
    decreases s.len(),
{
    if s.len() == 0 {
        0
    } else {
        bangs(s.drop_last()) + if s.last() == 33 { 1nat } else { 0nat }
    }
}

pub proof fn lemma_bangs_le(s: Seq<u8>)
    ensures
        bangs(s) <= s.len(),
    decreases s.len(),
{
    if s.len() > 0 {
        lemma_bangs_le(s.drop_last());
    }
}

impl<'a> ChannelSpec<'a> {
    /// Iterates over the numbers of this spec.
    pub fn into_iter(self) -> (it: ChannelSpecIterator<'a>)
        ensures
            it.chars@ == self.0@,
    {
        ChannelSpecIterator { chars: self.0 }
    }

    /// Returns the dimension of this channel spec
    pub fn dimension(&self) -> (d: usize)
        ensures
            d == self.1,
    {
        self.1
    }

    /// Returns the length of this channel spec. Identical to `dimension()`
    pub fn len(&self) -> (d: usize)
        ensures
            d == self.1,
    {
        self.dimension()
    }

    /// True for a spec of dimension 0.
    pub fn is_empty(&self) -> (b: bool)
        ensures
            b == (self.1 == 0),
    {
        self.len() == 0
    }
}

/// One number read from the bytes `s` of a channel spec, and what is left.
pub open spec fn spec_number(s: Seq<u8>) -> (Option<Result<isize, ErrorCode>>, Seq<u8>) {
    if s.len() == 0 {
        (None, s)
    } else {
        let t = if s[0] == 33 { s.skip(1) } else { s };
        match lexical_partial_isize(t) {
            Ok((n, len)) => (Some(Ok(n)), t.skip(len as int)),
            Err(_) => (Some(Err(ErrorCode::ExpressionError)), t),
        }
    }
}

/// Iterates over a channel spec, returning a result for each dimension.
/// If the iterator encounters a badly formatted value, an error will be returned.
/// Example: `"1!2!3"` would iterate as `Ok(1),Ok(2),Ok(3)`.
pub struct ChannelSpecIterator<'a> {
    pub chars: &'a [u8],
}

impl<'a> ChannelSpecIterator<'a> {
    /// The next number of the spec. A number is read by `lexical-core` after
    /// an optional `!`; a malformed one is an [`ErrorCode::ExpressionError`].
    pub fn next(&mut self) -> (r: Option<Result<isize, ErrorCode>>)
        ensures
            (r, final(self).chars@) == spec_number(old(self).chars@),
    {
        if self.chars.len() == 0 {
            return None;
        }
        if self.chars[0] == 33 {
            self.chars = &self.chars[1..self.chars.len()];
        }
        match parse_partial_isize(self.chars) {
            Ok((n, len)) => {
                self.chars = &self.chars[len..self.chars.len()];
                Some(Ok(n))
            },
            Err(_) => Some(Err(ErrorCode::ExpressionError)),
        }
    }
}

/// Channel list token
#[derive(Clone, PartialEq, Eq, Debug)]
pub enum Token<'a> {
    /// A channel spec consisting of at least one numeric.
    /// Example: `1!2!3` is a three-dimensional spec
    ChannelSpec(ChannelSpec<'a>),
    /// A range consisting of two channel-specs separated by a colon.
    /// Example: `1!1:2!3` is a range from '1,1' to '2,3' (row-major)
    ChannelRange(ChannelSpec<'a>, ChannelSpec<'a>),
    /// A module-channel, contains a module (numeric or character data) and a sub-channel-list.
    ModuleChannel(&'a [u8], &'a [u8]),
    /// A character pathname (can be a file, resource etc...)
    PathName(&'a [u8]),
}

/// The value of a channel list token: byte strings as sequences.
pub enum SpecChannelToken {
    ChannelSpec(Seq<u8>, nat),
    ChannelRange(Seq<u8>, nat, Seq<u8>, nat),
    ModuleChannel(Seq<u8>, Seq<u8>),
    PathName(Seq<u8>),
}

impl<'a> View for Token<'a> {
    type V = SpecChannelToken;

    open spec fn view(&self) -> SpecChannelToken {
        match *self {
            Token::ChannelSpec(s) => SpecChannelToken::ChannelSpec(s.0@, s.1 as nat),
            Token::ChannelRange(a, b) => SpecChannelToken::ChannelRange(a.0@, a.1 as nat, b.0@, b.1 as nat),
            Token::ModuleChannel(m, c) => SpecChannelToken::ModuleChannel(m@, c@),
            Token::PathName(p) => SpecChannelToken::PathName(p@),
        }
    }
}

/// Result of reading a channel list token, and the number of bytes read.
pub type ChannelLexed = (Result<SpecChannelToken, ErrorCode>, nat);

/// The bytes of a channel spec at the start of `s` (digits, signs and `!`)
/// and its dimension; an empty spec is an [`ErrorCode::InvalidExpression`].
pub open spec fn spec_channel_spec(s: Seq<u8>) -> Result<(Seq<u8>, nat), ErrorCode> {
    let n = span(s, class_pred(CharClass::ChannelSpec));
    if n == 0 {
        Err(ErrorCode::InvalidExpression)
    } else {
        Ok((s.take(n as int), 1 + bangs(s.take(n as int))))
    }
}

/// A channel spec, or a range of two specs of one dimension separated by `:`.
pub open spec fn spec_channel_range(s: Seq<u8>) -> ChannelLexed {
    match spec_channel_spec(s) {
        Err(e) => (Err(e), 0),
        Ok((b, d1)) => {
            let n = b.len();
            if n < s.len() && s[n as int] == 58 {
                match spec_channel_spec(s.skip((n + 1) as int)) {
                    Err(e) => (Err(e), n + 1),
                    Ok((e2, d2)) => if d1 != d2 {
                        (Err(ErrorCode::InvalidExpression), n + 1 + e2.len())
                    } else {
                        (Ok(SpecChannelToken::ChannelRange(b, d1, e2, d2)), n + 1 + e2.len())
                    },
                }
            } else {
                (Ok(SpecChannelToken::ChannelSpec(b, d1)), n)
            }
        },
    }
}

/// A quoted path name; the bytes read are the body and its two quotes.
pub open spec fn spec_channel_path(s: Seq<u8>, x: u8) -> ChannelLexed {
    match lex_string(s, x, true).0 {
        Err(e) => (Err(e), 0),
        Ok(SpecToken::StringProgramData(p)) => (
            Ok(SpecChannelToken::PathName(p)),
            if p.len() + 2 <= s.len() { (p.len() + 2) as nat } else { s.len() },
        ),
        Ok(_) => (Err(ErrorCode::InvalidExpression), 0),
    }
}

/// The token that starts `s`, by its first byte.
pub open spec fn spec_channel_token(s: Seq<u8>) -> ChannelLexed {
    let x = s[0];
    if ascii_digit(x) || x == 43 || x == 45 {
        spec_channel_range(s)
    } else if x == 34 || x == 39 {
        spec_channel_path(s, x)
    } else {
        (Err(ErrorCode::InvalidExpression), 0)
    }
}

/// One step of a channel list over `s`: the token (`None` at the end), the
/// bytes read and whether the list is still at its first entry.
pub open spec fn spec_channel_next(s: Seq<u8>, first: bool) -> (Option<Result<SpecChannelToken, ErrorCode>>, nat, bool) {
    if s.len() == 0 {
        (None, 0, first)
    } else if s[0] == 44 {
        if first {
            (Some(Err(ErrorCode::InvalidExpression)), 0, first)
        } else if s.len() == 1 {
            (None, 1, first)
        } else {
            let r = spec_channel_token(s.skip(1));
            (Some(r.0), r.1 + 1, false)
        }
    } else {
        let r = spec_channel_token(s);
        (Some(r.0), r.1, false)
    }
}

pub open spec fn view_channel_result<'a>(r: Result<Token<'a>, ErrorCode>) -> Result<SpecChannelToken, ErrorCode> {
    match r {
        Ok(t) => Ok(t@),
        Err(e) => Err(e),
    }
}

/// Channel list expression tokenizer
#[derive(Clone)]
pub struct ChannelList<'a> {
    pub chars: &'a [u8],
    pub first: bool,
}

impl<'a> ChannelList<'a> {
    /// Create a new channel-list tokenizer
    ///
    /// # Returns
    /// `Some(Tokenizer)` - Expression is a channel-list (starts with '@')
    /// `None` - Expression is not a channel-list
    pub fn new(expr: &'a [u8]) -> (r: Option<Self>)
        ensures
            match r {
                Some(l) => expr@.len() > 0 && expr@[0] == 64 && l.chars@ == expr@.skip(1) && l.first,
                None => !(expr@.len() > 0 && expr@[0] == 64),
            },
    {
        if expr.len() > 0 && expr[0] == 64 {
            Some(ChannelList { chars: &expr[1..expr.len()], first: true })
        } else {
            None
        }
    }

    /// Drop `n` bytes.
    fn skip(&mut self, n: usize)
        requires
            n <= old(self).chars@.len(),
        ensures
            final(self).chars@ == old(self).chars@.skip(n as int),
            final(self).first == old(self).first,
    {
        self.chars = &self.chars[n..self.chars.len()];
    }

    /// Reads the bytes of a channel spec and its dimension.
    pub fn read_channel_spec(&mut self) -> (r: Result<(&'a [u8], usize), ErrorCode>)
        requires
            old(self).chars@.len() < usize::MAX,
        ensures
            match (r, spec_channel_spec(old(self).chars@)) {
                (Ok((s, d)), Ok((ss, sd))) => s@ == ss && d == sd
                    && final(self).chars@ == old(self).chars@.skip(s@.len() as int),
                (Err(e), Err(se)) => e == se && final(self).chars@ == old(self).chars@,
                _ => false,
            },
            final(self).first == old(self).first,
    {
        let end = scan(self.chars, 0, CharClass::ChannelSpec);
        let mut dim: usize = 1;
        let mut i: usize = 0;
        proof {
            assert(self.chars@.skip(0) == self.chars@);
        }
        while i < end
            invariant
                i <= end <= self.chars@.len() < usize::MAX,
                dim == 1 + bangs(self.chars@.take(i as int)),
            decreases end - i,
        {
            proof {
                assert(self.chars@.take(i + 1).drop_last() == self.chars@.take(i as int));
                lemma_bangs_le(self.chars@.take(i + 1));
            }
            if self.chars[i] == 33 {
                dim = dim + 1;
            }
            i = i + 1;
        }
        let s = &self.chars[0..end];
        if end == 0 {
            Err(ErrorCode::InvalidExpression)
        } else {
            self.skip(end);
            Ok((s, dim))
        }
    }

    /// Reads a channel spec, or a range `begin:end` of two specs of one dimension.
    pub fn read_channel_range(&mut self) -> (r: Result<Token<'a>, ErrorCode>)
        requires
            old(self).chars@.len() < usize::MAX,
        ensures
            ({
                let l = spec_channel_range(old(self).chars@);
                view_channel_result(r) == l.0 && final(self).chars@ == old(self).chars@.skip(l.1 as int)
                    && l.1 <= old(self).chars@.len()
            }),
            final(self).first == old(self).first,
    {
        let ghost s0 = self.chars@;
        proof {
            lemma_span_le(s0, class_pred(CharClass::ChannelSpec));
        }
        // Read beginning spec
        let (begin, dim1) = match self.read_channel_spec() {
            Ok(v) => v,
            Err(e) => return Err(e),
        };
        // Try to read the ending spec
        if self.chars.len() > 0 && self.chars[0] == 58 {
            self.skip(1);
            proof {
                lemma_skip_skip(s0, begin@.len() as int, 1);
                lemma_span_le(s0.skip((begin@.len() + 1) as int), class_pred(CharClass::ChannelSpec));
            }
            let (end, dim2) = match self.read_channel_spec() {
                Ok(v) => v,
                Err(e) => return Err(e),
            };
            proof {
                lemma_skip_skip(s0, (begin@.len() + 1) as int, end@.len() as int);
            }
            if dim1 != dim2 {
                return Err(ErrorCode::InvalidExpression);
            }
            // Return range
            return Ok(Token::ChannelRange(ChannelSpec(begin, dim1), ChannelSpec(end, dim2)));
        }
        // Return spec
        Ok(Token::ChannelSpec(ChannelSpec(begin, dim1)))
    }

    /// Reads a quoted path name.
    pub fn read_channel_path(&mut self, x: u8) -> (r: Result<Token<'a>, ErrorCode>)
        ensures
            ({
                let l = spec_channel_path(old(self).chars@, x);
                view_channel_result(r) == l.0 && final(self).chars@ == old(self).chars@.skip(l.1 as int)
                    && l.1 <= old(self).chars@.len()
            }),
            final(self).first == old(self).first,
    {
        let s = self.chars;
        let mut t = Tokenizer::new(s);
        proof {
            assert(t.rest() == s@);
        }
        match t.read_string_data(x, true) {
            Err(e) => Err(e),
            Ok(DataToken::StringProgramData(p)) => {
                //Forward past the string and its quotes
                let n = if p.len() <= s.len() && s.len() - p.len() >= 2 { p.len() + 2 } else { s.len() };
                self.skip(n);
                Ok(Token::PathName(p))
            },
            Ok(_) => Err(ErrorCode::InvalidExpression),
        }
    }

    /// The next token of the list; `None` at its end. A leading separator
    /// is refused; the separators between tokens are skipped.
    pub fn next(&mut self) -> (r: Option<Result<Token<'a>, ErrorCode>>)
        requires
            old(self).chars@.len() < usize::MAX,
        ensures
            ({
                let st = spec_channel_next(old(self).chars@, old(self).first);
                &&& r matches Some(x) ==> st.0 == Some(view_channel_result(x))
                &&& r is None ==> st.0 is None
                &&& final(self).chars@ == old(self).chars@.skip(st.1 as int)
                &&& final(self).first == st.2
            }),
    {
        let ghost s0 = self.chars@;
        if self.chars.len() == 0 {
            return None;
        }
        //Ignore non-leading separator
        if self.chars[0] == 44 {
            if self.first {
                return Some(Err(ErrorCode::InvalidExpression));
            }
            self.skip(1);
            if self.chars.len() == 0 {
                return None;
            }
        }
        self.first = false;
        let ghost s1 = self.chars@;
        let x = self.chars[0];
        //Read token
        let r = if is_digit_or_sign(x) {
            self.read_channel_range()
        } else if x == 34 || x == 39 {
            self.read_channel_path(x)
        } else {
            Err(ErrorCode::InvalidExpression)
        };
        proof {
            if s0[0] == 44 {
                let l = spec_channel_token(s1);
                lemma_skip_skip(s0, 1, l.1 as int);
            }
        }
        Some(r)
    }
}

fn is_digit_or_sign(x: u8) -> (b: bool)
    ensures
        b == (ascii_digit(x) || x == 43 || x == 45),
{
    (48 <= x && x <= 57) || x == 43 || x == 45
}

/// Every token that a channel list hands out reads input, so iterating the
/// list until it stops or fails always ends.
pub proof fn lemma_channel_list_progress(s: Seq<u8>, first: bool)
    ensures
        spec_channel_next(s, first).0 matches Some(Ok(_)) ==> spec_channel_next(s, first).1 > 0,
{
    if s.len() > 0 && s[0] != 44 {
        lemma_span_le(s, class_pred(CharClass::ChannelSpec));
    }
}

/// A channel range joins two specs of one dimension: specs of different
/// dimensions on the two sides of `:` are refused.
pub proof fn lemma_channel_range_dimensions(s: Seq<u8>)
    ensures
        spec_channel_range(s).0 matches Ok(SpecChannelToken::ChannelRange(_, d1, _, d2)) ==> d1 == d2,
        ({
            match spec_channel_spec(s) {
                Ok((b, d1)) => b.len() < s.len() && s[b.len() as int] == 58 ==> match spec_channel_spec(s.skip((b.len() + 1) as int)) {
                    Ok((_, d2)) => d1 != d2 ==> spec_channel_range(s).0 == Err::<SpecChannelToken, ErrorCode>(ErrorCode::InvalidExpression),
                    Err(_) => true,
                },
                Err(_) => true,
            }
        }),
{
}

/// The dimension of a channel spec is one more than the number of `!` in
/// its text, so at least one; both ends of a range have that of their own
/// text.
pub proof fn lemma_channel_dimension(s: Seq<u8>)
    ensures
        spec_channel_range(s).0 matches Ok(SpecChannelToken::ChannelSpec(b, d)) ==> d == 1 + bangs(b) && d >= 1,
        spec_channel_range(s).0 matches Ok(SpecChannelToken::ChannelRange(b, d1, e, d2)) ==> d1 == 1 + bangs(b)
            && d2 == 1 + bangs(e) && d1 >= 1,
{
}

/// A path name may be quoted with either kind of quote: an entry that is
/// an ASCII body without quotes, in double or in single quotes, is the path
/// name of that body, and the whole entry is read.
pub proof fn lemma_quoted_paths(p: Seq<u8>, first: bool)
    requires
        forall|i: int| 0 <= i < p.len() ==> #[trigger] p[i] != 34 && p[i] != 39 && ascii(p[i]),
    ensures
        spec_channel_next(seq![34u8] + p + seq![34u8], first).0 == Some(Ok::<SpecChannelToken, ErrorCode>(SpecChannelToken::PathName(p))),
        spec_channel_next(seq![39u8] + p + seq![39u8], first).0 == Some(Ok::<SpecChannelToken, ErrorCode>(SpecChannelToken::PathName(p))),
        spec_channel_next(seq![34u8] + p + seq![34u8], first).1 == p.len() + 2,
        spec_channel_next(seq![39u8] + p + seq![39u8], first).1 == p.len() + 2,
{
    lemma_string_end_plain(p, 34);
    lemma_string_end_plain(p, 39);
    let a = seq![34u8] + p + seq![34u8];
    let b = seq![39u8] + p + seq![39u8];
    assert(a.skip(1) =~= p + seq![34u8]);
    assert(b.skip(1) =~= p + seq![39u8]);
    assert(a.subrange(1, (p.len() + 1) as int) =~= p);
    assert(b.subrange(1, (p.len() + 1) as int) =~= p);
    assert(a.skip((p.len() + 2) as int) =~= Seq::<u8>::empty());
    assert(b.skip((p.len() + 2) as int) =~= Seq::<u8>::empty());
}

} // verus!
