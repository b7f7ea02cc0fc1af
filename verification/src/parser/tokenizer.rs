//! The tokenizer splits a SCPI command into more managable tokens.
//!
//! The `lex_*` spec functions below give the grammar that the tokenizer
//! reads (IEEE 488.2 chapter 7). Each takes the bytes left to read and gives
//! the token (or error) together with the number of bytes consumed.

use vstd::prelude::*;

use crate::error::ErrorCode;

use super::lexical::{
    decimal_text, lemma_decimal_digits, lemma_decimal_digits_all, lexical_partial_u64, lexical_usize,
    parse_partial_binary, parse_partial_hex, parse_partial_octal, parse_usize, radix_digits, NumberError,
};
use super::token::{SpecToken, Token};
use super::util::{lemma_span, scan, skip_ws, skip_digits, skip_sign, ascii_to_digit, is_ascii_alpha, is_ascii_digit, is_ascii_ws,
    ascii, ascii_alpha, ascii_digit, ascii_ws, class_pred, digit_value, span, CharClass,
};

verus! {

/// A read token (or error) and the number of bytes consumed.
pub type Lexed = (Result<SpecToken, ErrorCode>, nat);

pub open spec fn digit_p() -> spec_fn(u8) -> bool {
    class_pred(CharClass::Digit)
}

pub open spec fn ws_p() -> spec_fn(u8) -> bool {
    class_pred(CharClass::Space)
}

pub open spec fn mnemonic_p() -> spec_fn(u8) -> bool {
    class_pred(CharClass::Mnemonic)
}

pub open spec fn suffix_p() -> spec_fn(u8) -> bool {
    class_pred(CharClass::Suffix)
}

/// `,`, `;` or line feed.
pub open spec fn is_separator(c: u8) -> bool {
    c == 44 || c == 59 || c == 10
}

/// Skip whitespace from `at` and require a separator (or the end) there:
/// `tok` on success, `err` otherwise.
pub open spec fn lex_to_separator(s: Seq<u8>, at: nat, err: ErrorCode, tok: SpecToken) -> Lexed {
    let p = at + span(s.skip(at as int), ws_p());
    if p < s.len() && !is_separator(s[p as int]) {
        (Err(err), p)
    } else {
        (Ok(tok), p)
    }
}

/// Length of a program mnemonic at the start of `s`: alphanumerics and `_`,
/// with a leading `*` allowed in a common command.
pub open spec fn mnemonic_len(s: Seq<u8>, common: bool) -> nat {
    if common && s.len() > 0 && s[0] == 42 {
        1 + span(s.skip(1), mnemonic_p())
    } else {
        span(s, mnemonic_p())
    }
}

/// <program mnemonic> (IEEE 488.2 7.6.1), at most 12 characters.
pub open spec fn lex_mnemonic(s: Seq<u8>, common: bool) -> Lexed {
    let n = mnemonic_len(s, common);
    if n > 12 {
        (Err(ErrorCode::ProgramMnemonicTooLong), 13)
    } else {
        (Ok(SpecToken::ProgramMnemonic(s.take(n as int))), n)
    }
}

/// <CHARACTER PROGRAM DATA> (IEEE 488.2 7.7.1), at most 12 characters,
/// followed by a separator.
pub open spec fn lex_character(s: Seq<u8>) -> Lexed {
    let n = span(s, mnemonic_p());
    if n > 12 {
        (Err(ErrorCode::CharacterDataTooLong), 13)
    } else {
        lex_to_separator(s, n, ErrorCode::InvalidCharacterData, SpecToken::CharacterProgramData(s.take(n as int)))
    }
}

/// 1 if `s` has a `+` or `-` at `at`, else 0.
pub open spec fn sign_len(s: Seq<u8>, at: nat) -> nat {
    if at < s.len() && (s[at as int] == 43 || s[at as int] == 45) {
        1
    } else {
        0
    }
}

/// The exponent part of an <NRf> starting at `i`, if any.
pub open spec fn lex_exponent(s: Seq<u8>, i: nat) -> Lexed {
    if i < s.len() && (s[i as int] == 69 || s[i as int] == 101) {
        let j = i + 1 + sign_len(s, i + 1);
        let d = span(s.skip(j as int), digit_p());
        if d == 0 {
            (Err(ErrorCode::NumericDataError), j)
        } else {
            (Ok(SpecToken::DecimalNumericProgramData(s.take((j + d) as int))), j + d)
        }
    } else {
        (Ok(SpecToken::DecimalNumericProgramData(s.take(i as int))), i)
    }
}

/// <NRf>: `[+|-] digits [. digits] [(E|e) [+|-] digits]` with at least one
/// mantissa digit.
pub open spec fn lex_nrf(s: Seq<u8>) -> Lexed {
    let i0 = sign_len(s, 0);
    let d1 = span(s.skip(i0 as int), digit_p());
    let i1 = i0 + d1;
    if i1 < s.len() && s[i1 as int] == 46 {
        let d2 = span(s.skip((i1 + 1) as int), digit_p());
        if d1 == 0 && d2 == 0 {
            (Err(ErrorCode::NumericDataError), i1 + 1)
        } else {
            lex_exponent(s, i1 + 1 + d2)
        }
    } else if d1 == 0 {
        (Err(ErrorCode::NumericDataError), i1)
    } else {
        lex_exponent(s, i1)
    }
}

/// <SUFFIX PROGRAM DATA> (IEEE 488.2 7.7.3) at `p`, at most 12 characters,
/// after the numeric `val`.
pub open spec fn lex_suffix(s: Seq<u8>, p: nat, val: Seq<u8>) -> Lexed {
    let n = span(s.skip(p as int), suffix_p());
    if n > 12 {
        (Err(ErrorCode::SuffixTooLong), p + 13)
    } else {
        lex_to_separator(
            s,
            p + n,
            ErrorCode::InvalidSuffix,
            SpecToken::DecimalNumericSuffixProgramData(val, s.subrange(p as int, (p + n) as int)),
        )
    }
}

/// <DECIMAL NUMERIC PROGRAM DATA> (IEEE 488.2 7.7.2), optionally followed
/// by a suffix.
pub open spec fn lex_numeric(s: Seq<u8>) -> Lexed {
    let r = lex_nrf(s);
    match r.0 {
        Err(_) => r,
        Ok(tok) => {
            let i = r.1;
            let p = i + span(s.skip(i as int), ws_p());
            if p < s.len() {
                if ascii_alpha(s[p as int]) || s[p as int] == 47 {
                    lex_suffix(s, p, s.take(i as int))
                } else {
                    lex_to_separator(s, p, ErrorCode::InvalidSuffix, tok)
                }
            } else {
                (Ok(tok), p)
            }
        },
    }
}

/// The error a lexical failure is reported as.
pub open spec fn number_error_code(e: NumberError) -> ErrorCode {
    match e {
        NumberError::InvalidDigit => ErrorCode::InvalidCharacterInNumber,
        NumberError::Overflow | NumberError::Underflow => ErrorCode::DataOutOfRange,
        _ => ErrorCode::NumericDataError,
    }
}

/// Radix of a <NONDECIMAL NUMERIC PROGRAM DATA> letter: `H` 16, `Q` 8, `B` 2.
pub open spec fn nondecimal_radix(r: u8) -> Option<u32> {
    if r == 72 || r == 104 {
        Some(16)
    } else if r == 81 || r == 113 {
        Some(8)
    } else if r == 66 || r == 98 {
        Some(2)
    } else {
        None
    }
}

/// <NONDECIMAL NUMERIC PROGRAM DATA> (IEEE 488.2 7.7.4): the digits after
/// `#` and the radix letter `r`, as read by `lexical-core`.
pub open spec fn lex_nondecimal(r: u8, s: Seq<u8>) -> Lexed {
    match nondecimal_radix(r) {
        None => (Err(ErrorCode::NumericDataError), 0),
        Some(radix) => match lexical_partial_u64(s, radix) {
            Err(e) => (Err(number_error_code(e)), 0),
            Ok((v, len)) => if len > 0 {
                lex_to_separator(s, len as nat, ErrorCode::SuffixNotAllowed, SpecToken::NonDecimalNumericProgramData(v))
            } else {
                (Err(ErrorCode::NumericDataError), 0)
            },
        },
    }
}

/// How a string body ends: at the closing quote (its index), or with an
/// error after consuming some bytes.
pub enum StringEnd {
    Closed(nat),
    Failed(ErrorCode, nat),
}

pub open spec fn shift_end(e: StringEnd, k: nat) -> StringEnd {
    match e {
        StringEnd::Closed(i) => StringEnd::Closed(i + k),
        StringEnd::Failed(err, c) => StringEnd::Failed(err, c + k),
    }
}

/// Scan a string body quoted by `x`: a doubled quote stands for itself, a
/// single one closes the string. With `ascii`, bytes above 127 are refused.
pub open spec fn string_end(t: Seq<u8>, x: u8, ascii_only: bool) -> StringEnd
    decreases t.len(),
{
    if t.len() == 0 {
        StringEnd::Failed(ErrorCode::InvalidStringData, 0)
    } else if t[0] == x {
        if t.len() > 1 && t[1] == x {
            shift_end(string_end(t.skip(2), x, ascii_only), 2)
        } else {
            StringEnd::Closed(0)
        }
    } else if ascii_only && !ascii(t[0]) {
        StringEnd::Failed(ErrorCode::InvalidCharacter, 1)
    } else {
        shift_end(string_end(t.skip(1), x, ascii_only), 1)
    }
}

/// <STRING PROGRAM DATA> (IEEE 488.2 7.7.5): the first byte opens the
/// string; the token holds the body as written (doubled quotes included).
pub open spec fn lex_string(s: Seq<u8>, x: u8, ascii_only: bool) -> Lexed {
    if s.len() == 0 {
        (Err(ErrorCode::InvalidStringData), 0)
    } else {
        match string_end(s.skip(1), x, ascii_only) {
            StringEnd::Closed(k) => lex_to_separator(
                s,
                k + 2,
                ErrorCode::SuffixNotAllowed,
                SpecToken::StringProgramData(s.subrange(1, (k + 1) as int)),
            ),
            StringEnd::Failed(err, c) => (Err(err), c + 1),
        }
    }
}

/// <ARBITRARY BLOCK PROGRAM DATA> (IEEE 488.2 7.7.6) after `#` and the
/// length-of-length digit `format`: `0` takes everything up to a final line
/// feed, otherwise `format` digits give the payload length.
pub open spec fn lex_arbitrary(format: u8, s: Seq<u8>) -> Lexed {
    match digit_value(format, 10) {
        None => (Err(ErrorCode::InvalidBlockData), 0),
        Some(len) => if len == 0 {
            if s.len() == 0 {
                (Err(ErrorCode::InvalidBlockData), 0)
            } else if s.last() == 10 {
                (Ok(SpecToken::ArbitraryBlockData(s.drop_last())), s.len())
            } else {
                (Err(ErrorCode::InvalidBlockData), s.len())
            }
        } else if s.len() < len {
            (Err(ErrorCode::InvalidBlockData), 0)
        } else {
            match lexical_usize(s.take(len as int)) {
                Err(_) => (Err(ErrorCode::InvalidBlockData), 0),
                Ok(plen) => if s.len() - len < plen {
                    (Err(ErrorCode::InvalidBlockData), len as nat)
                } else {
                    lex_to_separator(
                        s,
                        (len + plen) as nat,
                        ErrorCode::SuffixNotAllowed,
                        SpecToken::ArbitraryBlockData(s.subrange(len as int, len + plen)),
                    )
                },
            }
        },
    }
}

/// Bytes allowed inside an expression: ASCII other than `"`, `'`, `;`,
/// `(` and `)`.
pub open spec fn expr_p() -> spec_fn(u8) -> bool {
    |c: u8| c != 34 && c != 39 && c != 59 && c != 40 && c != 41 && ascii(c)
}

/// <EXPRESSION PROGRAM DATA> (IEEE 488.2 7.7.7): the first byte opens the
/// expression, which runs to the closing `)`.
pub open spec fn lex_expression(s: Seq<u8>) -> Lexed {
    if s.len() == 0 {
        (Err(ErrorCode::InvalidExpression), 0)
    } else {
        let t = s.skip(1);
        let j = span(t, expr_p());
        if j < t.len() && t[j as int] == 41 {
            lex_to_separator(s, j + 2, ErrorCode::SuffixNotAllowed, SpecToken::ExpressionProgramData(t.take(j as int)))
        } else if j < t.len() {
            (Err(ErrorCode::InvalidExpression), j + 2)
        } else {
            (Err(ErrorCode::InvalidExpression), j + 1)
        }
    }
}

/// One step of the tokenizer.
pub struct Step {
    /// `None` at the end of the message.
    pub token: Option<Result<SpecToken, ErrorCode>>,
    pub consumed: nat,
    pub in_header: bool,
    pub in_common: bool,
}

pub open spec fn step_of(r: Lexed, in_header: bool, in_common: bool) -> Step {
    Step { token: Some(r.0), consumed: r.1, in_header, in_common }
}

/// The next token of `s`, given whether the header is still being read and
/// whether it is a common (`*`) command header.
#[verifier::opaque]
pub open spec fn lex_next(s: Seq<u8>, in_header: bool, in_common: bool) -> Step {
    if s.len() == 0 {
        Step { token: None, consumed: 0, in_header, in_common }
    } else {
        let x = s[0];
        if x == 42 {
            step_of(lex_mnemonic(s, true), in_header, true)
        } else if x == 58 {
            if s.len() > 1 && !ascii_alpha(s[1]) {
                step_of((Err(ErrorCode::InvalidSeparator), 1), in_header, in_common)
            } else if !in_header || in_common {
                step_of((Err(ErrorCode::InvalidSeparator), 1), in_header, in_common)
            } else {
                step_of((Ok(SpecToken::HeaderMnemonicSeparator), 1), in_header, in_common)
            }
        } else if x == 63 {
            if s.len() > 1 && !ascii_ws(s[1]) && s[1] != 59 {
                step_of((Err(ErrorCode::SyntaxError), 1), in_header, in_common)
            } else if !in_header {
                step_of((Err(ErrorCode::SyntaxError), 1), in_header, in_common)
            } else {
                step_of((Ok(SpecToken::HeaderQuerySuffix), 1), false, in_common)
            }
        } else if x == 59 {
            step_of((Ok(SpecToken::ProgramMessageUnitSeparator), 1 + span(s.skip(1), ws_p())), true, false)
        } else if x == 10 {
            if s.len() == 1 {
                Step { token: None, consumed: 1, in_header, in_common }
            } else {
                step_of((Err(ErrorCode::SyntaxError), 2), in_header, in_common)
            }
        } else if x == 44 {
            if in_header {
                step_of((Err(ErrorCode::HeaderSeparatorError), 1), in_header, in_common)
            } else {
                let p = 1 + span(s.skip(1), ws_p());
                if p < s.len() && is_separator(s[p as int]) {
                    step_of((Err(ErrorCode::SyntaxError), p), in_header, in_common)
                } else {
                    step_of((Ok(SpecToken::ProgramDataSeparator), p), in_header, in_common)
                }
            }
        } else if ascii_ws(x) {
            step_of((Ok(SpecToken::ProgramHeaderSeparator), span(s, ws_p())), false, in_common)
        } else if ascii_alpha(x) {
            if in_header {
                step_of(lex_mnemonic(s, false), in_header, in_common)
            } else {
                step_of(lex_character(s), in_header, in_common)
            }
        } else if ascii_digit(x) || x == 45 || x == 43 || x == 46 {
            if in_header {
                step_of((Err(ErrorCode::CommandHeaderError), 0), in_header, in_common)
            } else {
                step_of(lex_numeric(s), in_header, in_common)
            }
        } else if x == 35 {
            if in_header {
                step_of((Err(ErrorCode::CommandHeaderError), 1), in_header, in_common)
            } else if s.len() < 2 {
                step_of((Err(ErrorCode::BlockDataError), 1), in_header, in_common)
            } else {
                let r = if ascii_digit(s[1]) {
                    lex_arbitrary(s[1], s.skip(2))
                } else {
                    lex_nondecimal(s[1], s.skip(2))
                };
                step_of((r.0, r.1 + 2), in_header, in_common)
            }
        } else if x == 39 || x == 34 {
            if in_header {
                step_of((Err(ErrorCode::CommandHeaderError), 0), in_header, in_common)
            } else {
                step_of(lex_string(s, x, true), in_header, in_common)
            }
        } else if x == 40 {
            step_of(lex_expression(s), in_header, in_common)
        } else {
            step_of((Err(if ascii(x) { ErrorCode::SyntaxError } else { ErrorCode::InvalidCharacter }), 1), in_header, in_common)
        }
    }
}

} // verus!

verus! {

/// `s.skip(a).skip(b)` is `s.skip(a + b)`.
pub proof fn lemma_skip_skip(s: Seq<u8>, a: int, b: int)
    requires
        0 <= a,
        0 <= b,
        a + b <= s.len(),
    ensures
        s.skip(a).skip(b) == s.skip(a + b),
{
    assert(s.skip(a).skip(b) =~= s.skip(a + b));
}

/// A data separator consumes at least one byte, and no more than there is.
pub proof fn lemma_lex_next_bounds(s: Seq<u8>, in_header: bool, in_common: bool)
    ensures
        lex_next(s, in_header, in_common).token == Some(Ok::<SpecToken, ErrorCode>(SpecToken::ProgramDataSeparator))
            ==> 0 < lex_next(s, in_header, in_common).consumed <= s.len(),
{
    reveal(lex_next);
    if s.len() > 0 && s[0] == 44 && !in_header {
        lemma_span_le(s.skip(1), ws_p());
    }
}

pub open spec fn view_result<'a>(r: Result<Token<'a>, ErrorCode>) -> Result<SpecToken, ErrorCode> {
    match r {
        Ok(t) => Ok(t@),
        Err(e) => Err(e),
    }
}

/// `s` is the rest of an arbitrary block after `#` and the length digit
/// `format` (1 to 9), as a response writes it: the `format` digits give
/// the length of all that follows them.
pub open spec fn block_input(format: u8, s: Seq<u8>) -> bool {
    &&& 49 <= format <= 57
    &&& format - 48 <= s.len()
    &&& s.take(format - 48) == decimal_text(s.len() - (format - 48))
}

/// Reads tokens from a byte string holding a SCPI program message.
#[derive(Clone, Copy)]
pub struct Tokenizer<'a> {
    buf: &'a [u8],
    pos: usize,
    in_header: bool,
    in_common: bool,
}

impl<'a> Tokenizer<'a> {
    #[verifier::type_invariant]
    pub closed spec fn inv(self) -> bool {
        self.pos <= self.buf@.len()
    }

    /// The whole input.
    pub closed spec fn buffer(self) -> Seq<u8> {
        self.buf@
    }

    /// How many bytes of the input have been read.
    pub closed spec fn position(self) -> nat {
        self.pos as nat
    }

    /// Whether a program header is being read.
    pub closed spec fn header(self) -> bool {
        self.in_header
    }

    /// Whether the header being read is a common (`*`) command header.
    pub closed spec fn common(self) -> bool {
        self.in_common
    }

    /// The bytes left to read.
    pub open spec fn rest(self) -> Seq<u8> {
        self.buffer().skip(self.position() as int)
    }

    /// `self` has read `n` more bytes than `old` and is otherwise the same.
    pub open spec fn advanced(self, old: Self, n: nat) -> bool {
        &&& self.buffer() == old.buffer()
        &&& self.position() == old.position() + n
        &&& self.position() <= self.buffer().len()
        &&& self.header() == old.header()
        &&& self.common() == old.common()
    }

    /// A tokenizer over a program message, starting in the header.
    pub fn new(buf: &'a [u8]) -> (t: Self)
        ensures
            t.buffer() == buf@,
            t.position() == 0,
            t.header(),
            !t.common(),
    {
        Tokenizer::from_byte_iter(buf)
    }

    /// A tokenizer over program data only (no header).
    pub fn new_params(buf: &'a [u8]) -> (t: Self)
        ensures
            t.buffer() == buf@,
            t.position() == 0,
            !t.header(),
            !t.common(),
    {
        Tokenizer { buf, pos: 0, in_header: false, in_common: false }
    }

    /// A tokenizer over `buf`, starting in the header.
    pub fn from_byte_iter(buf: &'a [u8]) -> (t: Self)
        ensures
            t.buffer() == buf@,
            t.position() == 0,
            t.header(),
            !t.common(),
    {
        Tokenizer { buf, pos: 0, in_header: true, in_common: false }
    }

    /// The bytes left to read, as a slice of the input.
    pub fn as_slice(&self) -> (s: &'a [u8])
        ensures
            s@ == self.rest(),
    {
        proof {
            use_type_invariant(self);
        }
        &self.buf[self.pos..self.buf.len()]
    }

    /// The next byte to read, if any, without reading it.
    pub fn peek_byte(&self) -> (b: Option<u8>)
        ensures
            b == if self.rest().len() > 0 { Some(self.rest()[0]) } else { None::<u8> },
    {
        proof {
            use_type_invariant(self);
        }
        if self.pos < self.buf.len() {
            Some(self.buf[self.pos])
        } else {
            None
        }
    }

    /// Read `n` bytes.
    pub fn advance(&mut self, n: usize)
        requires
            n <= old(self).rest().len(),
        ensures
            final(self).advanced(*old(self), n as nat),
    {
        proof {
            use_type_invariant(&*self);
        }
        let len = self.buf.len();
        assert(self.pos + n <= len);
        self.pos = self.pos + n;
    }

    /// Skip whitespace and require a separator (`,`, `;`, line feed) or the
    /// end of input next; `error` otherwise.
    pub fn skip_ws_to_separator(&mut self, error: ErrorCode) -> (r: Result<(), ErrorCode>)
        ensures
            ({
                let p = span(old(self).rest(), ws_p());
                &&& final(self).advanced(*old(self), p)
                &&& r == if p < old(self).rest().len() && !is_separator(old(self).rest()[p as int]) {
                    Err(error)
                } else {
                    Ok(())
                }
            }),
    {
        proof {
            use_type_invariant(&*self);
        }
        let mut p = self.pos;
        skip_ws(self.buf, &mut p);
        self.pos = p;
        if p < self.buf.len() {
            let c = self.buf[p];
            if c != 44 && c != 59 && c != 10 {
                return Err(error);
            }
        }
        Ok(())
    }
}

} // verus!

verus! {

impl<'a> Tokenizer<'a> {
    /// <program mnemonic>
    /// See IEEE 488.2-1992 7.6.1
    /// Must start with a alphabetic character followed by alphanumeric and '_' characters.
    ///
    /// Returned errors:
    /// * ProgramMnemonicTooLong if longer than 12 characters
    pub fn read_mnemonic(&mut self, common: bool) -> (r: Result<Token<'a>, ErrorCode>)
        ensures
            ({
                let l = lex_mnemonic(old(self).rest(), common);
                view_result(r) == l.0 && final(self).advanced(*old(self), l.1)
            }),
    {
        proof {
            use_type_invariant(&*self);
        }
        let ghost s = self.rest();
        let start = self.pos;
        let mut from = start;
        if common && start < self.buf.len() && self.buf[start] == 42 {
            from = start + 1;
            proof {
                lemma_skip_skip(self.buf@, start as int, 1);
            }
        }
        let end = scan(self.buf, from, CharClass::Mnemonic);
        if end - start > 12 {
            self.pos = start + 13;
            return Err(ErrorCode::ProgramMnemonicTooLong);
        }
        self.pos = end;
        let tok = &self.buf[start..end];
        assert(tok@ =~= s.take((end - start) as int));
        Ok(Token::ProgramMnemonic(tok))
    }

    /// <CHARACTER PROGRAM DATA>
    /// See IEEE 488.2-1992 7.7.1
    /// Consists of a single <program mnemonic>
    ///
    /// Returned errors:
    /// * CharacterDataTooLong if longer than 12 characters
    /// * InvalidCharacterData if not followed by a separator
    pub fn read_character_data(&mut self) -> (r: Result<Token<'a>, ErrorCode>)
        ensures
            ({
                let l = lex_character(old(self).rest());
                view_result(r) == l.0 && final(self).advanced(*old(self), l.1)
            }),
    {
        proof {
            use_type_invariant(&*self);
        }
        let ghost s = self.rest();
        let start = self.pos;
        let end = scan(self.buf, start, CharClass::Mnemonic);
        if end - start > 12 {
            self.pos = start + 13;
            return Err(ErrorCode::CharacterDataTooLong);
        }
        self.pos = end;
        let tok = &self.buf[start..end];
        assert(tok@ =~= s.take((end - start) as int));
        proof {
            lemma_skip_skip(self.buf@, start as int, (end - start) as int);
        }
        match self.skip_ws_to_separator(ErrorCode::InvalidCharacterData) {
            Ok(()) => Ok(Token::CharacterProgramData(tok)),
            Err(e) => Err(e),
        }
    }
}

} // verus!

verus! {

/// Reading to a separator at `a + at` of `s` is reading at `at` of
/// `s.skip(a)`, `a` bytes further on.
pub proof fn lemma_separator_shift(s: Seq<u8>, a: nat, at: nat, err: ErrorCode, tok: SpecToken)
    requires
        a + at <= s.len(),
    ensures
        lex_to_separator(s, a + at, err, tok).0 == lex_to_separator(s.skip(a as int), at, err, tok).0,
        lex_to_separator(s, a + at, err, tok).1 == lex_to_separator(s.skip(a as int), at, err, tok).1 + a,
{
    lemma_skip_skip(s, a as int, at as int);
}

/// `lex_suffix` at `p` of `s` is `lex_suffix` at the start of `s.skip(p)`.
pub proof fn lemma_suffix_shift(s: Seq<u8>, p: nat, val: Seq<u8>)
    requires
        p <= s.len(),
    ensures
        lex_suffix(s, p, val).0 == lex_suffix(s.skip(p as int), 0, val).0,
        lex_suffix(s, p, val).1 == lex_suffix(s.skip(p as int), 0, val).1 + p,
{
    let t = s.skip(p as int);
    assert(t.skip(0) =~= t);
    let n = span(t, suffix_p());
    if n <= 12 {
        assert(n <= t.len()) by {
            lemma_span_le(t, suffix_p());
        }
        assert(t.subrange(0, n as int) =~= s.subrange(p as int, (p + n) as int));
        lemma_separator_shift(
            s,
            p,
            n,
            ErrorCode::InvalidSuffix,
            SpecToken::DecimalNumericSuffixProgramData(val, s.subrange(p as int, (p + n) as int)),
        );
    }
}

/// A span is never longer than the sequence.
pub proof fn lemma_span_le(s: Seq<u8>, p: spec_fn(u8) -> bool)
    ensures
        span(s, p) <= s.len(),
    decreases s.len(),
{
    if s.len() > 0 && p(s[0]) {
        lemma_span_le(s.drop_first(), p);
    }
}

impl<'a> Tokenizer<'a> {
    /// <NRf>: `[+|-] digits [. digits] [(E|e) [+|-] digits]`.
    #[verifier::rlimit(80)]
    pub fn read_nrf(&mut self) -> (r: Result<Token<'a>, ErrorCode>)
        ensures
            ({
                let l = lex_nrf(old(self).rest());
                view_result(r) == l.0 && final(self).advanced(*old(self), l.1)
            }),
    {
        proof {
            use_type_invariant(&*self);
            reveal(lex_next);
        }
        let ghost s = self.rest();
        let ghost b = self.buf@;
        let start = self.pos;
        let mut p = start;
        /* Read leading +/- */
        skip_sign(self.buf, &mut p);
        let ghost i0 = (p - start) as nat;
        assert(i0 == sign_len(s, 0));
        proof {
            lemma_skip_skip(b, start as int, i0 as int);
        }
        /* Read mantissa */
        let leading_digits = skip_digits(self.buf, &mut p);
        let ghost i1 = (p - start) as nat;
        /* Read fraction (required if no leading digits were read) */
        if p < self.buf.len() && self.buf[p] == 46 {
            p = p + 1;
            proof {
                lemma_skip_skip(b, start as int, (i1 + 1) as int);
            }
            let frac = skip_digits(self.buf, &mut p);
            if !frac && !leading_digits {
                self.pos = p;
                return Err(ErrorCode::NumericDataError);
            }
        } else if !leading_digits {
            self.pos = p;
            return Err(ErrorCode::NumericDataError);
        }
        /* Read exponent */
        let ghost ie = (p - start) as nat;
        if p < self.buf.len() && (self.buf[p] == 69 || self.buf[p] == 101) {
            p = p + 1;
            skip_sign(self.buf, &mut p);
            let ghost j = (p - start) as nat;
            assert(j == ie + 1 + sign_len(s, ie + 1));
            proof {
                lemma_skip_skip(b, start as int, j as int);
            }
            if !skip_digits(self.buf, &mut p) {
                self.pos = p;
                return Err(ErrorCode::NumericDataError);
            }
        }
        self.pos = p;
        let tok = &self.buf[start..p];
        assert(tok@ =~= s.take((p - start) as int));
        Ok(Token::DecimalNumericProgramData(tok))
    }

    /// <SUFFIX PROGRAM DATA>
    /// See IEEE 488.2-1992 7.7.3
    /// Reads a suffix after the numeric `val`.
    ///
    /// Returned errors:
    /// * SuffixTooLong if suffix is longer than 12 characters
    /// * InvalidSuffix if not followed by a separator
    pub fn read_suffix_data(&mut self, val: &'a [u8]) -> (r: Result<Token<'a>, ErrorCode>)
        ensures
            ({
                let l = lex_suffix(old(self).rest(), 0, val@);
                view_result(r) == l.0 && final(self).advanced(*old(self), l.1)
            }),
    {
        proof {
            use_type_invariant(&*self);
        }
        let ghost s = self.rest();
        assert(s.skip(0) =~= s);
        let start = self.pos;
        let end = scan(self.buf, start, CharClass::Suffix);
        if end - start > 12 {
            self.pos = start + 13;
            return Err(ErrorCode::SuffixTooLong);
        }
        self.pos = end;
        let suffix = &self.buf[start..end];
        assert(suffix@ =~= s.subrange(0, (end - start) as int));
        proof {
            lemma_skip_skip(self.buf@, start as int, (end - start) as int);
        }
        match self.skip_ws_to_separator(ErrorCode::InvalidSuffix) {
            Ok(()) => Ok(Token::DecimalNumericSuffixProgramData(val, suffix)),
            Err(e) => Err(e),
        }
    }

    /// <DECIMAL NUMERIC PROGRAM DATA>
    /// See IEEE 488.2-1992 7.7.2
    /// An <NRf>, optionally followed by whitespace and a suffix.
    pub fn read_numeric_data(&mut self) -> (r: Result<Token<'a>, ErrorCode>)
        ensures
            ({
                let l = lex_numeric(old(self).rest());
                view_result(r) == l.0 && final(self).advanced(*old(self), l.1)
            }),
    {
        proof {
            use_type_invariant(&*self);
        }
        let ghost s = self.rest();
        let start = self.pos;
        let tok = match self.read_nrf() {
            Ok(tok) => tok,
            Err(e) => return Err(e),
        };
        let i = self.pos;
        proof {
            use_type_invariant(&*self);
            lemma_skip_skip(self.buf@, start as int, (i - start) as int);
        }
        let mut p = i;
        skip_ws(self.buf, &mut p);
        self.pos = p;
        proof {
            lemma_skip_skip(self.buf@, start as int, (p - start) as int);
        }
        if p < self.buf.len() {
            let x = self.buf[p];
            if is_ascii_alpha(x) || x == 47 {
                let val = &self.buf[start..i];
                assert(val@ =~= s.take((i - start) as int));
                proof {
                    lemma_suffix_shift(s, (p - start) as nat, val@);
                }
                return self.read_suffix_data(val);
            } else {
                proof {
                    lemma_separator_shift(s, (p - start) as nat, 0, ErrorCode::InvalidSuffix, tok@);
                    assert(s.skip((p - start) as int).skip(0) =~= s.skip((p - start) as int));
                }
                match self.skip_ws_to_separator(ErrorCode::InvalidSuffix) {
                    Ok(()) => {},
                    Err(e) => return Err(e),
                }
            }
        }
        Ok(tok)
    }
}

} // verus!

verus! {

/// Unfolding `string_end` by a step keeps the value, shifted.
proof fn lemma_string_end_step(b: Seq<u8>, i: int, k: int, x: u8, a: bool)
    requires
        0 <= i,
        i + k <= b.len(),
        k == 1 || k == 2,
        i < b.len(),
        k == 2 ==> b[i] == x && i + 1 < b.len() && b[i + 1] == x,
        k == 1 ==> b[i] != x && !(a && !ascii(b[i])),
    ensures
        string_end(b.skip(i), x, a) == shift_end(string_end(b.skip(i + k), x, a), k as nat),
{
    lemma_skip_skip(b, i, k);
}

proof fn lemma_shift_shift(e: StringEnd, a: nat, b: nat)
    ensures
        shift_end(shift_end(e, a), b) == shift_end(e, a + b),
{
}

impl<'a> Tokenizer<'a> {
    /// <NONDECIMAL NUMERIC PROGRAM DATA>
    /// See IEEE 488.2-1992 7.7.4
    /// Reads a non-decimal numeric in the radix given by `radix` (`H`, `Q` or
    /// `B`, either case), after its `#` and radix letter.
    pub fn read_nondecimal_data(&mut self, radix: u8) -> (r: Result<Token<'a>, ErrorCode>)
        ensures
            ({
                let l = lex_nondecimal(radix, old(self).rest());
                view_result(r) == l.0 && final(self).advanced(*old(self), l.1)
            }),
    {
        proof {
            use_type_invariant(&*self);
        }
        let ghost s = self.rest();
        let rest = self.as_slice();
        let parsed = if radix == 72 || radix == 104 {
            parse_partial_hex(rest)
        } else if radix == 81 || radix == 113 {
            parse_partial_octal(rest)
        } else if radix == 66 || radix == 98 {
            parse_partial_binary(rest)
        } else {
            return Err(ErrorCode::NumericDataError);
        };
        match parsed {
            Err(e) => Err(
                match e {
                    NumberError::InvalidDigit => ErrorCode::InvalidCharacterInNumber,
                    NumberError::Overflow | NumberError::Underflow => ErrorCode::DataOutOfRange,
                    _ => ErrorCode::NumericDataError,
                },
            ),
            Ok((n, len)) => {
                if len > 0 {
                    self.advance(len);
                    proof {
                        lemma_separator_shift(
                            s,
                            len as nat,
                            0,
                            ErrorCode::SuffixNotAllowed,
                            SpecToken::NonDecimalNumericProgramData(n),
                        );
                        assert(s.skip(len as int).skip(0) =~= s.skip(len as int));
                        assert(self.rest() =~= s.skip(len as int));
                    }
                    match self.skip_ws_to_separator(ErrorCode::SuffixNotAllowed) {
                        Ok(()) => Ok(Token::NonDecimalNumericProgramData(n)),
                        Err(e) => Err(e),
                    }
                } else {
                    Err(ErrorCode::NumericDataError)
                }
            },
        }
    }

    /// <STRING PROGRAM DATA>
    /// See IEEE 488.2-1992 7.7.5
    /// The first byte opens the string, `x` closes it; a doubled `x` stands
    /// for itself. With `ascii_only`, bytes above 127 are refused.
    pub fn read_string_data(&mut self, x: u8, ascii_only: bool) -> (r: Result<Token<'a>, ErrorCode>)
        ensures
            ({
                let l = lex_string(old(self).rest(), x, ascii_only);
                view_result(r) == l.0 && final(self).advanced(*old(self), l.1)
            }),
    {
        proof {
            use_type_invariant(&*self);
            reveal(lex_next);
        }
        let ghost s = self.rest();
        let ghost b = self.buf@;
        let start = self.pos;
        let len = self.buf.len();
        if start >= len {
            return Err(ErrorCode::InvalidStringData);
        }
        let body_start = start + 1;
        let mut i = body_start;
        proof {
            lemma_skip_skip(b, start as int, 1);
            assert(shift_end(string_end(b.skip(i as int), x, ascii_only), 0) == string_end(
                b.skip(i as int),
                x,
                ascii_only,
            ));
        }
        loop
            invariant
                body_start <= i <= len,
                len == b.len(),
                b == self.buf@,
                start == self.pos,
                body_start == start + 1,
                s == b.skip(start as int),
                *self == *old(self),
                string_end(s.skip(1), x, ascii_only) == shift_end(
                    string_end(b.skip(i as int), x, ascii_only),
                    (i - body_start) as nat,
                ),
            ensures
                body_start <= i < len,
                b[i as int] == x,
                !(i + 1 < len && b[i + 1] == x),
                start == self.pos,
                *self == *old(self),
                string_end(s.skip(1), x, ascii_only) == shift_end(
                    string_end(b.skip(i as int), x, ascii_only),
                    (i - body_start) as nat,
                ),
            decreases len - i,
        {
            if i >= len {
                self.pos = len;
                assert(b.skip(i as int).len() == 0);
                return Err(ErrorCode::InvalidStringData);
            }
            let c = self.buf[i];
            if c == x {
                if i + 1 < len && self.buf[i + 1] == x {
                    proof {
                        lemma_string_end_step(b, i as int, 2, x, ascii_only);
                        lemma_shift_shift(string_end(b.skip(i + 2), x, ascii_only), 2, (i - body_start) as nat);
                    }
                    i = i + 2;
                    continue;
                }
                break;
            }
            if ascii_only && c >= 128 {
                self.pos = i + 1;
                assert(b.skip(i as int)[0] == c);
                return Err(ErrorCode::InvalidCharacter);
            }
            proof {
                lemma_string_end_step(b, i as int, 1, x, ascii_only);
                lemma_shift_shift(string_end(b.skip(i + 1), x, ascii_only), 1, (i - body_start) as nat);
            }
            i = i + 1;
        }
        assert(b.skip(i as int)[0] == x);
        assert(string_end(b.skip(i as int), x, ascii_only) == StringEnd::Closed(0));
        self.pos = i + 1;
        let tok = &self.buf[body_start..i];
        assert(tok@ =~= s.subrange(1, (i - start) as int));
        proof {
            lemma_skip_skip(b, start as int, (i + 1 - start) as int);
        }
        match self.skip_ws_to_separator(ErrorCode::SuffixNotAllowed) {
            Ok(()) => Ok(Token::StringProgramData(tok)),
            Err(e) => Err(e),
        }
    }

    /// <ARBITRARY BLOCK PROGRAM DATA>
    /// See IEEE 488.2-1992 7.7.6
    /// Reads the block after `#` and the length-of-length digit `format`.
    pub fn read_arbitrary_data(&mut self, format: u8) -> (r: Result<Token<'a>, ErrorCode>)
        ensures
            ({
                let l = lex_arbitrary(format, old(self).rest());
                view_result(r) == l.0 && final(self).advanced(*old(self), l.1)
            }),
            // A block as a response writes it is read back whole.
            block_input(format, old(self).rest()) ==> view_result(r)
                == Ok::<SpecToken, ErrorCode>(SpecToken::ArbitraryBlockData(old(self).rest().skip(format - 48)))
                && final(self).rest().len() == 0,
    {
        proof {
            use_type_invariant(&*self);
        }
        let ghost s = self.rest();
        match ascii_to_digit(format, 10) {
            None => Err(ErrorCode::InvalidBlockData),
            Some(len) => {
                let rest = self.as_slice();
                if len == 0 {
                    if rest.len() == 0 {
                        return Err(ErrorCode::InvalidBlockData);
                    }
                    //Indefinite block data runs to the end and must end with a line feed
                    let body = &rest[0..rest.len() - 1];
                    let last = rest[rest.len() - 1];
                    self.advance(rest.len());
                    assert(body@ =~= s.drop_last());
                    if last != 10 {
                        return Err(ErrorCode::InvalidBlockData);
                    }
                    return Ok(Token::ArbitraryBlockData(body));
                }
                let len = len as usize;
                if rest.len() < len {
                    return Err(ErrorCode::InvalidBlockData);
                }
                let header = &rest[0..len];
                assert(header@ =~= s.take(len as int));
                proof {
                    if block_input(format, s) {
                        assert(decimal_text(((s.len() - len) as usize) as int) == header@);
                    }
                }
                match parse_usize(header) {
                    Err(_) => Err(ErrorCode::InvalidBlockData),
                    Ok(payload_len) => {
                        self.advance(len);
                        if rest.len() - len < payload_len {
                            return Err(ErrorCode::InvalidBlockData);
                        }
                        let payload = &rest[len..len + payload_len];
                        self.advance(payload_len);
                        proof {
                            let tok = SpecToken::ArbitraryBlockData(s.subrange(len as int, len + payload_len));
                            lemma_separator_shift(s, (len + payload_len) as nat, 0, ErrorCode::SuffixNotAllowed, tok);
                            assert(s.skip(len + payload_len).skip(0) =~= s.skip(len + payload_len));
                            assert(self.rest() =~= s.skip(len + payload_len));
                        }
                        match self.skip_ws_to_separator(ErrorCode::SuffixNotAllowed) {
                            Ok(()) => Ok(Token::ArbitraryBlockData(payload)),
                            Err(e) => Err(e),
                        }
                    },
                }
            },
        }
    }

    /// <EXPRESSION PROGRAM DATA>
    /// See IEEE 488.2-1992 7.7.7
    /// The first byte opens the expression, which runs to the closing `)`.
    pub fn read_expression_data(&mut self) -> (r: Result<Token<'a>, ErrorCode>)
        ensures
            ({
                let l = lex_expression(old(self).rest());
                view_result(r) == l.0 && final(self).advanced(*old(self), l.1)
            }),
    {
        proof {
            use_type_invariant(&*self);
            reveal(lex_next);
        }
        let ghost s = self.rest();
        let ghost b = self.buf@;
        let start = self.pos;
        let len = self.buf.len();
        if start >= len {
            return Err(ErrorCode::InvalidExpression);
        }
        let body_start = start + 1;
        let mut i = body_start;
        while i < len && self.buf[i] != 41
            invariant
                body_start <= i <= len,
                len == b.len(),
                b == self.buf@,
                start == self.pos,
                body_start == start + 1,
                s == b.skip(start as int),
                *self == *old(self),
                forall|j: int| body_start <= j < i ==> (expr_p())(#[trigger] b[j]),
            decreases len - i,
        {
            let c = self.buf[i];
            if c == 34 || c == 39 || c == 59 || c == 40 || c == 41 || c >= 128 {
                self.pos = i + 1;
                proof {
                    let t = s.skip(1);
                    lemma_skip_skip(b, start as int, 1);
                    lemma_span(t, expr_p(), (i - body_start) as int);
                }
                return Err(ErrorCode::InvalidExpression);
            }
            i = i + 1;
        }
        let ghost t = s.skip(1);
        proof {
            lemma_skip_skip(b, start as int, 1);
            lemma_span(t, expr_p(), (i - body_start) as int);
        }
        if i >= len {
            self.pos = i;
            return Err(ErrorCode::InvalidExpression);
        }
        let tok = &self.buf[body_start..i];
        assert(tok@ =~= t.take((i - body_start) as int));
        self.pos = i + 1;
        proof {
            lemma_skip_skip(b, start as int, (i + 1 - start) as int);
        }
        match self.skip_ws_to_separator(ErrorCode::SuffixNotAllowed) {
            Ok(()) => Ok(Token::ExpressionProgramData(tok)),
            Err(e) => Err(e),
        }
    }
}

} // verus!

verus! {

/// The input left to read and the tokenizer's header flags.
pub type TokState = (Seq<u8>, bool, bool);

/// One step of the tokenizer from `st`: the token and the state after it.
pub open spec fn tok_step(st: TokState) -> (Option<Result<SpecToken, ErrorCode>>, TokState) {
    let l = lex_next(st.0, st.1, st.2);
    (l.token, (st.0.skip(l.consumed as int), l.in_header, l.in_common))
}

/// A step seen through the tokenizer's state.
pub proof fn lemma_step_state<'a>(old: Tokenizer<'a>, new: Tokenizer<'a>)
    requires
        new.stepped(old, lex_next(old.rest(), old.header(), old.common())),
    ensures
        new.state() == tok_step(old.state()).1,
{
    let st = lex_next(old.rest(), old.header(), old.common());
    lemma_skip_skip(old.buffer(), old.position() as int, st.consumed as int);
}

pub open spec fn view_next<'a>(r: Option<Result<Token<'a>, ErrorCode>>) -> Option<Result<SpecToken, ErrorCode>> {
    match r {
        Some(r) => Some(view_result(r)),
        None => None,
    }
}

impl<'a> Tokenizer<'a> {
    /// `self` is `old` after a parameter read that ended at `st`.
    /// `self` reads the same buffer as `old`, from where `old` stands or
    /// further on.
    pub open spec fn reads_on(self, old: Self) -> bool {
        &&& self.buffer() == old.buffer()
        &&& old.position() <= self.position()
    }

    pub open spec fn moved(self, old: Self, st: crate::parser::parameters::ParamStep) -> bool {
        &&& self.buffer() == old.buffer()
        &&& self.position() == old.position() + st.consumed
        &&& self.position() <= self.buffer().len()
        &&& self.header() == st.in_header
        &&& self.common() == st.in_common
    }

    /// What is left to read, and the header flags.
    pub open spec fn state(self) -> TokState {
        (self.rest(), self.header(), self.common())
    }

    /// `self` is `old` after the step `st`.
    pub open spec fn stepped(self, old: Self, st: Step) -> bool {
        &&& self.buffer() == old.buffer()
        &&& self.position() == old.position() + st.consumed
        &&& self.position() <= self.buffer().len()
        &&& self.header() == st.in_header
        &&& self.common() == st.in_common
    }

    /// Read the next token. `None` at the end of the message.
    pub fn next(&mut self) -> (r: Option<Result<Token<'a>, ErrorCode>>)
        ensures
            ({
                let st = lex_next(old(self).rest(), old(self).header(), old(self).common());
                view_next(r) == st.token && final(self).stepped(*old(self), st)
            }),
    {
        proof {
            use_type_invariant(&*self);
            reveal(lex_next);
        }
        let ghost s = self.rest();
        let ghost b = self.buf@;
        let start = self.pos;
        let len = self.buf.len();
        if start >= len {
            return None;
        }
        let x = self.buf[start];
        proof {
            lemma_skip_skip(b, start as int, 1);
        }
        if x == 42 {
            /* Common command prefix */
            self.in_common = true;
            return Some(self.read_mnemonic(true));
        }
        if x == 58 {
            /* Header mnemonic separator/prefix */
            self.pos = start + 1;
            //Only one separator is allowed
            if start + 1 < len && !is_ascii_alpha(self.buf[start + 1]) {
                return Some(Err(ErrorCode::InvalidSeparator));
            }
            /* Not allowed outside header and strings */
            if !self.in_header || self.in_common {
                return Some(Err(ErrorCode::InvalidSeparator));
            }
            return Some(Ok(Token::HeaderMnemonicSeparator));
        }
        if x == 63 {
            /* Header query suffix */
            self.pos = start + 1;
            //Next character after query must be a space, unit separator or <END>
            if start + 1 < len {
                let y = self.buf[start + 1];
                if !is_ascii_ws(y) && y != 59 {
                    return Some(Err(ErrorCode::SyntaxError));
                }
            }
            if !self.in_header {
                return Some(Err(ErrorCode::SyntaxError));
            }
            self.in_header = false;
            return Some(Ok(Token::HeaderQuerySuffix));
        }
        if x == 59 {
            /* Program unit separator */
            let mut p = start + 1;
            skip_ws(self.buf, &mut p);
            self.pos = p;
            self.in_header = true;
            self.in_common = false;
            return Some(Ok(Token::ProgramMessageUnitSeparator));
        }
        if x == 10 {
            /* Message terminator, END is implied */
            if start + 1 >= len {
                self.pos = start + 1;
                return None;
            }
            self.pos = start + 2;
            return Some(Err(ErrorCode::SyntaxError));
        }
        if x == 44 {
            /* Data separator*/
            self.pos = start + 1;
            if self.in_header {
                return Some(Err(ErrorCode::HeaderSeparatorError));
            }
            let mut p = start + 1;
            skip_ws(self.buf, &mut p);
            self.pos = p;
            if p < len {
                let c = self.buf[p];
                if c == 44 || c == 59 || c == 10 {
                    return Some(Err(ErrorCode::SyntaxError));
                }
            }
            return Some(Ok(Token::ProgramDataSeparator));
        }
        if is_ascii_ws(x) {
            /* Whitespace separates the header from arguments */
            let mut p = start;
            skip_ws(self.buf, &mut p);
            self.pos = p;
            self.in_header = false;
            return Some(Ok(Token::ProgramHeaderSeparator));
        }
        if is_ascii_alpha(x) {
            /* If still parsing header, it's an mnemonic, else character data */
            if self.in_header {
                return Some(self.read_mnemonic(false));
            } else {
                return Some(self.read_character_data());
            }
        }
        if is_ascii_digit(x) || x == 45 || x == 43 || x == 46 {
            /* Number */
            if self.in_header {
                return Some(Err(ErrorCode::CommandHeaderError));
            } else {
                return Some(self.read_numeric_data());
            }
        }
        if x == 35 {
            /* Arb. block or non-decimal data */
            self.pos = start + 1;
            if self.in_header {
                return Some(Err(ErrorCode::CommandHeaderError));
            }
            if start + 1 >= len {
                return Some(Err(ErrorCode::BlockDataError));
            }
            let c = self.buf[start + 1];
            self.pos = start + 2;
            proof {
                lemma_skip_skip(b, start as int, 2);
            }
            if is_ascii_digit(c) {
                return Some(self.read_arbitrary_data(c));
            } else {
                return Some(self.read_nondecimal_data(c));
            }
        }
        if x == 39 || x == 34 {
            /* String */
            if self.in_header {
                return Some(Err(ErrorCode::CommandHeaderError));
            } else {
                return Some(self.read_string_data(x, true));
            }
        }
        if x == 40 {
            return Some(self.read_expression_data());
        }
        /* Unknown/unexpected */
        self.pos = start + 1;
        if x < 128 {
            Some(Err(ErrorCode::SyntaxError))
        } else {
            Some(Err(ErrorCode::InvalidCharacter))
        }
    }
}

} // verus!

verus! {

/// Every token the tokenizer reads successfully takes at least one byte of
/// the input and no more than there is: a loop that reads tokens until the
/// end of the message or an error always ends.
pub proof fn lemma_token_progress(s: Seq<u8>, in_header: bool, in_common: bool)
    ensures
        lex_next(s, in_header, in_common).token matches Some(Ok(_)) ==> 0 < lex_next(s, in_header, in_common).consumed,
{
    reveal(lex_next);
}

/// The tokenizer finds no more tokens only at the end of the message: on
/// nothing, or on a final line feed, which it reads.
pub proof fn lemma_message_end(s: Seq<u8>, in_header: bool, in_common: bool)
    ensures
        lex_next(s, in_header, in_common).token is None ==> (s.len() == 0 || s == seq![10u8])
            && lex_next(s, in_header, in_common).consumed == s.len(),
{
    reveal(lex_next);
    if lex_next(s, in_header, in_common).token is None && s.len() > 0 {
        assert(s =~= seq![10u8]);
    }
}

/// The decimal text of an integer, as a response writes it, is read as
/// program data by the tokenizer as one decimal numeric token holding that
/// text, and nothing is left over.
pub proof fn lemma_decimal_text_lexes(k: int, in_common: bool)
    ensures
        lex_next(decimal_text(k), false, in_common).token
            == Some(Ok::<SpecToken, ErrorCode>(SpecToken::DecimalNumericProgramData(decimal_text(k)))),
        lex_next(decimal_text(k), false, in_common).consumed == decimal_text(k).len(),
{
    reveal(lex_next);
    let s = decimal_text(k);
    let n: nat = if k < 0 { (-k) as nat } else { k as nat };
    let d = radix_digits(n, 10);
    lemma_decimal_digits(n);
    lemma_decimal_digits_all(n);
    let i0: nat = if k < 0 { 1 } else { 0 };
    assert(s.skip(i0 as int) =~= d);
    assert forall|j: int| 0 <= j < d.len() implies (#[trigger] digit_p()(d[j])) by {}
    lemma_span(d, digit_p(), d.len() as int);
    assert(s.take(s.len() as int) =~= s);
    lemma_span(s.skip(s.len() as int), ws_p(), 0);
}

/// A `;` ends a message unit: it is read with the whitespace after it, and
/// the next header starts.
pub proof fn lemma_unit_separator(s: Seq<u8>, in_header: bool, in_common: bool)
    ensures
        lex_next(s, in_header, in_common).token == Some(Ok::<SpecToken, ErrorCode>(SpecToken::ProgramMessageUnitSeparator))
            ==> s.len() > 0 && s[0] == 59
                && lex_next(s, in_header, in_common).consumed == 1 + span(s.skip(1), ws_p())
                && lex_next(s, in_header, in_common).in_header && !lex_next(s, in_header, in_common).in_common,
{
    reveal(lex_next);
}

/// `#`, the letter `letter` and then `rest`.
pub open spec fn hash_text(letter: u8, rest: Seq<u8>) -> Seq<u8> {
    seq![35u8, letter] + rest
}

/// A non-decimal number `#<r><digits>` is read in radix 16 after `H` or
/// `h`, 8 after `Q` or `q`, and 2 after `B` or `b`: where the digits are
/// the whole rest and the number reader takes them all in that radix, the
/// token holds their value.
pub proof fn lemma_nondecimal_radix(rest: Seq<u8>, in_common: bool)
    ensures
        (lexical_partial_u64(rest, 16) is Ok && lexical_partial_u64(rest, 16)->Ok_0.1 == rest.len() && rest.len() > 0)
            ==> lex_next(hash_text(72, rest), false, in_common).token
                == Some(Ok::<SpecToken, ErrorCode>(SpecToken::NonDecimalNumericProgramData(lexical_partial_u64(rest, 16)->Ok_0.0))),
        (lexical_partial_u64(rest, 16) is Ok && lexical_partial_u64(rest, 16)->Ok_0.1 == rest.len() && rest.len() > 0)
            ==> lex_next(hash_text(104, rest), false, in_common).token
                == Some(Ok::<SpecToken, ErrorCode>(SpecToken::NonDecimalNumericProgramData(lexical_partial_u64(rest, 16)->Ok_0.0))),
        (lexical_partial_u64(rest, 8) is Ok && lexical_partial_u64(rest, 8)->Ok_0.1 == rest.len() && rest.len() > 0)
            ==> lex_next(hash_text(81, rest), false, in_common).token
                == Some(Ok::<SpecToken, ErrorCode>(SpecToken::NonDecimalNumericProgramData(lexical_partial_u64(rest, 8)->Ok_0.0))),
        (lexical_partial_u64(rest, 8) is Ok && lexical_partial_u64(rest, 8)->Ok_0.1 == rest.len() && rest.len() > 0)
            ==> lex_next(hash_text(113, rest), false, in_common).token
                == Some(Ok::<SpecToken, ErrorCode>(SpecToken::NonDecimalNumericProgramData(lexical_partial_u64(rest, 8)->Ok_0.0))),
        (lexical_partial_u64(rest, 2) is Ok && lexical_partial_u64(rest, 2)->Ok_0.1 == rest.len() && rest.len() > 0)
            ==> lex_next(hash_text(66, rest), false, in_common).token
                == Some(Ok::<SpecToken, ErrorCode>(SpecToken::NonDecimalNumericProgramData(lexical_partial_u64(rest, 2)->Ok_0.0))),
        (lexical_partial_u64(rest, 2) is Ok && lexical_partial_u64(rest, 2)->Ok_0.1 == rest.len() && rest.len() > 0)
            ==> lex_next(hash_text(98, rest), false, in_common).token
                == Some(Ok::<SpecToken, ErrorCode>(SpecToken::NonDecimalNumericProgramData(lexical_partial_u64(rest, 2)->Ok_0.0))),
{
    reveal(lex_next);
    assert(hash_text(72, rest).skip(2) =~= rest);
    assert(hash_text(104, rest).skip(2) =~= rest);
    assert(hash_text(81, rest).skip(2) =~= rest);
    assert(hash_text(113, rest).skip(2) =~= rest);
    assert(hash_text(66, rest).skip(2) =~= rest);
    assert(hash_text(98, rest).skip(2) =~= rest);
    assert(rest.skip(rest.len() as int) =~= Seq::<u8>::empty());
}

/// A quoted string whose body holds no quote of its kind and only ASCII
/// closes at the quote after the body.
pub proof fn lemma_string_end_plain(p: Seq<u8>, x: u8)
    requires
        forall|i: int| 0 <= i < p.len() ==> #[trigger] p[i] != x && ascii(p[i]),
    ensures
        string_end(p + seq![x], x, true) == StringEnd::Closed(p.len()),
    decreases p.len(),
{
    let t = p + seq![x];
    if p.len() > 0 {
        assert(t.skip(1) =~= p.skip(1) + seq![x]);
        lemma_string_end_plain(p.skip(1), x);
    }
}

} // verus!
