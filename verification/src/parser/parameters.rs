//! Command parameters.

use vstd::prelude::*;

use vstd::std_specs::convert::TryFromSpec;
use vstd::utf8::{decode_utf8, valid_utf8};

use crate::error::{Error, ErrorCode};

use super::expression::channel_list::ChannelList;
use super::expression::numeric_list::NumericList;
use super::format::{Arbitrary, Character, Expression};
use super::lexical::{decimal_text, lemma_decimal_digits, lexical_i128, parse_i128, NumberError};
use super::util::{eq_ignore_ascii_case, mnemonic_compare, mnemonic_eq, seq_eq_ignore_case};
use super::token::{SpecToken, Token};
use super::tokenizer::{lemma_decimal_text_lexes, lemma_lex_next_bounds, lemma_skip_skip, lex_next, Tokenizer};

verus! {

/// Where the parameter reader stands after a read: bytes consumed and the
/// tokenizer's header flags.
pub struct ParamStep {
    pub consumed: nat,
    pub in_header: bool,
    pub in_common: bool,
}

/// What reading the next optional data token from `s` gives, and where the
/// reader then stands.
///
/// A data token is consumed and returned. A data separator is consumed and
/// must be followed by a data token ([`ErrorCode::MissingParameter`] if not).
/// Anything else (end of message, header, unit separator) is left unread and
/// gives `None`. A tokenizer error is returned without consuming anything.
#[verifier::opaque]
pub open spec fn optional_token(s: Seq<u8>, h: bool, c: bool) -> (Result<Option<SpecToken>, ErrorCode>, ParamStep)
    decreases s.len(),
{
    let stay = ParamStep { consumed: 0, in_header: h, in_common: c };
    let st = lex_next(s, h, c);
    match st.token {
        None => (Ok(None), stay),
        Some(Err(e)) => (Err(e), stay),
        Some(Ok(t)) => {
            if t.is_data() {
                (Ok(Some(t)), ParamStep { consumed: st.consumed, in_header: st.in_header, in_common: st.in_common })
            } else if t is ProgramDataSeparator && 0 < st.consumed <= s.len() {
                let (r, st2) = optional_token(s.skip(st.consumed as int), st.in_header, st.in_common);
                let after = ParamStep {
                    consumed: st.consumed + st2.consumed,
                    in_header: st2.in_header,
                    in_common: st2.in_common,
                };
                match r {
                    Ok(Some(t2)) => (Ok(Some(t2)), after),
                    Ok(None) => (Err(ErrorCode::MissingParameter), after),
                    Err(e) => (Err(e), after),
                }
            } else {
                (Ok(None), stay)
            }
        },
    }
}

/// One step of [`optional_token`].
pub proof fn lemma_optional_token(s: Seq<u8>, h: bool, c: bool)
    ensures
        ({
            let st = lex_next(s, h, c);
            let stay = ParamStep { consumed: 0, in_header: h, in_common: c };
            let here = ParamStep { consumed: st.consumed, in_header: st.in_header, in_common: st.in_common };
            optional_token(s, h, c) == match st.token {
                None => (Ok(None), stay),
                Some(Err(e)) => (Err(e), stay),
                Some(Ok(t)) => {
                    if t.is_data() {
                        (Ok(Some(t)), here)
                    } else if t is ProgramDataSeparator {
                        let (r, st2) = optional_token(s.skip(st.consumed as int), st.in_header, st.in_common);
                        let after = ParamStep {
                            consumed: st.consumed + st2.consumed,
                            in_header: st2.in_header,
                            in_common: st2.in_common,
                        };
                        match r {
                            Ok(Some(t2)) => (Ok(Some(t2)), after),
                            Ok(None) => (Err(ErrorCode::MissingParameter), after),
                            Err(e) => (Err(e), after),
                        }
                    } else {
                        (Ok(None), stay)
                    }
                },
            }
        }),
        lex_next(s, h, c).token == Some(Ok::<SpecToken, ErrorCode>(SpecToken::ProgramDataSeparator))
            ==> 0 < lex_next(s, h, c).consumed <= s.len(),
{
    lemma_lex_next_bounds(s, h, c);
    reveal_with_fuel(optional_token, 2);
}

/// A parameter read hands out program data only: a header, a separator or
/// the end of a message is never returned as a parameter.
pub proof fn lemma_parameters_are_data(s: Seq<u8>, h: bool, c: bool)
    ensures
        optional_token(s, h, c).0 matches Ok(Some(t)) ==> t.is_data(),
    decreases s.len(),
{
    lemma_optional_token(s, h, c);
    let st = lex_next(s, h, c);
    if let Some(Ok(t)) = st.token {
        if !t.is_data() && t is ProgramDataSeparator {
            lemma_parameters_are_data(s.skip(st.consumed as int), st.in_header, st.in_common);
        }
    }
}

/// The text of an integer as a response writes it, read as parameters, is
/// one decimal data token holding that text, and all of it is read; see
/// [`integer_from_token`] for the integer that the token gives back.
pub proof fn lemma_integer_parameter_reads_back(k: int, in_common: bool)
    ensures
        optional_token(decimal_text(k), false, in_common).0
            == Ok::<Option<SpecToken>, ErrorCode>(Some(SpecToken::DecimalNumericProgramData(decimal_text(k)))),
        optional_token(decimal_text(k), false, in_common).1.consumed == decimal_text(k).len(),
{
    lemma_optional_token(decimal_text(k), false, in_common);
    lemma_decimal_text_lexes(k, in_common);
}

/// A missing token is a [`ErrorCode::MissingParameter`] error.
pub open spec fn required(r: Result<Option<SpecToken>, ErrorCode>) -> Result<Option<SpecToken>, ErrorCode> {
    match r {
        Ok(None) => Err(ErrorCode::MissingParameter),
        _ => r,
    }
}

/// A tokenizer error as a parameter error, without extended message.
pub open spec fn param_result(r: Result<Option<SpecToken>, ErrorCode>) -> Result<Option<SpecToken>, Error> {
    match r {
        Ok(t) => Ok(t),
        Err(e) => Err(Error(e, None)),
    }
}

pub open spec fn view_param<'b>(r: Result<Option<Token<'b>>, Error>) -> Result<Option<SpecToken>, Error> {
    match r {
        Ok(Some(t)) => Ok(Some(t@)),
        Ok(None) => Ok(None),
        Err(e) => Err(e),
    }
}

pub open spec fn some_token<'b>(r: Result<Token<'b>, Error>) -> Result<Option<Token<'b>>, Error> {
    match r {
        Ok(t) => Ok(Some(t)),
        Err(e) => Err(e),
    }
}

/// Parameter iterator for a command.
pub struct Parameters<'a, 'b>(pub &'a mut Tokenizer<'b>);

impl<'a, 'b> Parameters<'a, 'b> {
    /// Create a argument iterator from a tokenizer
    pub fn with(toka: &'a mut Tokenizer<'b>) -> (p: Self)
        ensures
            *p.0 == *old(toka),
            *final(toka) == *final(p.0),
    {
        Parameters(toka)
    }

    /// Attempts to consume a data token.
    /// If no data token is found, [None] is returned.
    pub fn next_optional_token(&mut self) -> (r: Result<Option<Token<'b>>, Error>)
        ensures
            view_param(r) == param_result(optional_token(old(self).0.rest(), old(self).0.header(), old(self).0.common()).0),
            final(self).0.moved(*old(self).0, optional_token(old(self).0.rest(), old(self).0.header(), old(self).0.common()).1),
            *final(final(self).0) == *final(old(self).0),
        decreases old(self).0.rest().len(), 0nat,
    {
        proof {
            use_type_invariant(&*self.0);
            lemma_optional_token(self.0.rest(), self.0.header(), self.0.common());
        }
        let orig = *self.0;
        let mut t = orig;
        let item = t.next();
        match item {
            None => Ok(None),
            Some(Err(e)) => Err(Error::new(e)),
            Some(Ok(token)) => {
                if token.is_data() {
                    *self.0 = t;
                    Ok(Some(token))
                } else if let Token::ProgramDataSeparator = token {
                    proof {
                        lemma_skip_skip(orig.buffer(), orig.position() as int, t.position() - orig.position());
                    }
                    *self.0 = t;
                    match self.next_token() {
                        Ok(tok) => Ok(Some(tok)),
                        Err(e) => Err(e),
                    }
                } else {
                    Ok(None)
                }
            },
        }
    }

    /// Get next data token.
    /// If no data is found a error with [ErrorCode::MissingParameter] is returned instead.
    pub fn next_token(&mut self) -> (r: Result<Token<'b>, Error>)
        ensures
            ({
                let (sr, st) = optional_token(old(self).0.rest(), old(self).0.header(), old(self).0.common());
                &&& view_param(some_token(r)) == param_result(required(sr))
                &&& final(self).0.moved(*old(self).0, st)
            }),
            *final(final(self).0) == *final(old(self).0),
        decreases old(self).0.rest().len(), 1nat,
    {
        match self.next_optional_token() {
            Ok(Some(tok)) => Ok(tok),
            Ok(None) => Err(Error::new(ErrorCode::MissingParameter)),
            Err(err) => Err(err),
        }
    }

    /// Same as [`Self::next_token`] but attempts to convert the data token into type T.
    /// If no data is found a error with [ErrorCode::MissingParameter] is returned instead.
    ///
    /// If the data conversion fails a corresponding error is returned.
    pub fn next_data<T>(&mut self) -> (r: Result<T, Error>)
        where
            T: TryFrom<Token<'b>, Error = Error>,
        ensures
            final(self).0.moved(*old(self).0, optional_token(old(self).0.rest(), old(self).0.header(), old(self).0.common()).1),
            *final(final(self).0) == *final(old(self).0),
            match required(optional_token(old(self).0.rest(), old(self).0.header(), old(self).0.common()).0) {
                Err(e) => r == Err::<T, Error>(Error(e, None)),
                Ok(Some(t)) => T::obeys_try_from_spec() ==> exists|tok: Token<'b>| tok@ == t && r == T::try_from_spec(tok),
                Ok(None) => false,
            },
    {
        match self.next_token() {
            Ok(tok) => T::try_from(tok),
            Err(e) => Err(e),
        }
    }

    /// Same as [`Self::next_optional_token`] but attempts to convert the data token into type T.
    /// If no data is found, [None] is returned instead.
    ///
    /// If the data conversion fails a corresponding error is returned.
    pub fn next_optional_data<T>(&mut self) -> (r: Result<Option<T>, Error>)
        where
            T: TryFrom<Token<'b>, Error = Error>,
        ensures
            final(self).0.moved(*old(self).0, optional_token(old(self).0.rest(), old(self).0.header(), old(self).0.common()).1),
            *final(final(self).0) == *final(old(self).0),
            match optional_token(old(self).0.rest(), old(self).0.header(), old(self).0.common()).0 {
                Err(e) => r == Err::<Option<T>, Error>(Error(e, None)),
                Ok(None) => r == Ok::<Option<T>, Error>(None),
                Ok(Some(t)) => T::obeys_try_from_spec() ==> exists|tok: Token<'b>| tok@ == t
                    && r == (match T::try_from_spec(tok) {
                        Ok(v) => Ok(Some(v)),
                        Err(e) => Err(e),
                    }),
            },
    {
        match self.next_optional_token() {
            Ok(Some(tok)) => match T::try_from(tok) {
                Ok(v) => Ok(Some(v)),
                Err(e) => Err(e),
            },
            Ok(None) => Ok(None),
            Err(e) => Err(e),
        }
    }
}

} // verus!

verus! {

/// The extended message of the error returned when a conversion is handed a
/// token that is not program data.
pub open spec fn internal_error_message() -> Seq<u8> {
    seq![73u8, 110u8, 116u8, 101u8, 114u8, 110u8, 97u8, 108u8, 32u8, 112u8, 97u8, 114u8, 115u8, 101u8, 114u8, 32u8, 101u8, 114u8, 114u8, 111u8, 114u8]
}

/// The error returned when a conversion is handed a token that is not
/// program data: a device-specific error, "Internal parser error".
pub open spec fn internal_error() -> Error {
    Error(ErrorCode::DeviceSpecificError, Some(choose|m: &'static [u8]| m@ == internal_error_message()))
}

/// Builds [`internal_error`].
pub fn internal_parser_error() -> (e: Error)
    ensures
        e == internal_error(),
{
    let m: &'static [u8] = &[73u8, 110u8, 116u8, 101u8, 114u8, 110u8, 97u8, 108u8, 32u8, 112u8, 97u8, 114u8, 115u8, 101u8, 114u8, 32u8, 101u8, 114u8, 114u8, 111u8, 114u8];
    proof {
        assert(m@ == internal_error_message());
        let c = choose|m: &'static [u8]| m@ == internal_error_message();
        assert(c@ == m@);
        assert(c == m);
    }
    Error::extended(ErrorCode::DeviceSpecificError, m)
}

/// The error for a token of the wrong kind: [`ErrorCode::DataTypeError`] for
/// program data, [`internal_error`] for anything else.
pub open spec fn wrong_type(t: SpecToken) -> Error {
    if t.is_data() {
        Error(ErrorCode::DataTypeError, None)
    } else {
        internal_error()
    }
}

/// Builds [`wrong_type`].
pub fn wrong_type_error(t: &Token) -> (e: Error)
    ensures
        e == wrong_type(t@),
{
    if t.is_data() {
        Error::new(ErrorCode::DataTypeError)
    } else {
        internal_parser_error()
    }
}

/// Convert string data data into a slice (&\[u8\]).
///
/// # Returns
/// * `Ok(&[u8])` - If data is a string.
/// * `Err(DataTypeError)` - If data is not a string.
impl<'a> TryFrom<Token<'a>> for &'a [u8] {
    type Error = Error;

    fn try_from(value: Token<'a>) -> (r: Result<&'a [u8], Error>) {
        match value {
            Token::StringProgramData(s) => Ok(s),
            t => Err(wrong_type_error(&t)),
        }
    }
}

impl<'a> vstd::std_specs::convert::TryFromSpecImpl<Token<'a>> for &'a [u8] {
    open spec fn obeys_try_from_spec() -> bool {
        true
    }

    open spec fn try_from_spec(value: Token<'a>) -> Result<&'a [u8], Error> {
        match value {
            Token::StringProgramData(s) => Ok(s),
            t => Err(wrong_type(t@)),
        }
    }
}

/// Convert arbitrary block data into [`Arbitrary`].
impl<'a> TryFrom<Token<'a>> for Arbitrary<'a> {
    type Error = Error;

    fn try_from(value: Token<'a>) -> (r: Result<Arbitrary<'a>, Error>) {
        match value {
            Token::ArbitraryBlockData(s) => Ok(Arbitrary(s)),
            t => Err(wrong_type_error(&t)),
        }
    }
}

impl<'a> vstd::std_specs::convert::TryFromSpecImpl<Token<'a>> for Arbitrary<'a> {
    open spec fn obeys_try_from_spec() -> bool {
        true
    }

    open spec fn try_from_spec(value: Token<'a>) -> Result<Arbitrary<'a>, Error> {
        match value {
            Token::ArbitraryBlockData(s) => Ok(Arbitrary(s)),
            t => Err(wrong_type(t@)),
        }
    }
}

/// Convert character data into [`Character`].
impl<'a> TryFrom<Token<'a>> for Character<'a> {
    type Error = Error;

    fn try_from(value: Token<'a>) -> (r: Result<Character<'a>, Error>) {
        match value {
            Token::CharacterProgramData(s) => Ok(Character(s)),
            t => Err(wrong_type_error(&t)),
        }
    }
}

impl<'a> vstd::std_specs::convert::TryFromSpecImpl<Token<'a>> for Character<'a> {
    open spec fn obeys_try_from_spec() -> bool {
        true
    }

    open spec fn try_from_spec(value: Token<'a>) -> Result<Character<'a>, Error> {
        match value {
            Token::CharacterProgramData(s) => Ok(Character(s)),
            t => Err(wrong_type(t@)),
        }
    }
}

/// Convert block data into [`Expression`] (as the parser has always done:
/// it is arbitrary block data that becomes an expression here).
impl<'a> TryFrom<Token<'a>> for Expression<'a> {
    type Error = Error;

    fn try_from(value: Token<'a>) -> (r: Result<Expression<'a>, Error>) {
        match value {
            Token::ArbitraryBlockData(s) => Ok(Expression(s)),
            t => Err(wrong_type_error(&t)),
        }
    }
}

impl<'a> vstd::std_specs::convert::TryFromSpecImpl<Token<'a>> for Expression<'a> {
    open spec fn obeys_try_from_spec() -> bool {
        true
    }

    open spec fn try_from_spec(value: Token<'a>) -> Result<Expression<'a>, Error> {
        match value {
            Token::ArbitraryBlockData(s) => Ok(Expression(s)),
            t => Err(wrong_type(t@)),
        }
    }
}

} // verus!

verus! {

/// `MAXimum`
pub open spec fn maximum_mnemonic() -> Seq<u8> {
    seq![77u8, 65u8, 88u8, 105u8, 109u8, 117u8, 109u8]
}

/// `MINimum`
pub open spec fn minimum_mnemonic() -> Seq<u8> {
    seq![77u8, 73u8, 78u8, 105u8, 109u8, 117u8, 109u8]
}

/// Decimal numeric program data `v` as an integer in `[min, max]`.
///
/// An integer written with digits only (NR1) is read by `lexical-core` and
/// checked against the bounds; a negative number for an unsigned type and a
/// number out of bounds are [`ErrorCode::DataOutOfRange`]. A number with a
/// fraction or an exponent is refused with [`ErrorCode::NumericDataError`]:
/// rounding it goes through floating point, which this library leaves out.
pub open spec fn decimal_integer(v: Seq<u8>, min: int, max: int) -> Result<int, Error> {
    if min == 0 && v.len() > 0 && v[0] == 45u8 {
        Err(Error(ErrorCode::DataOutOfRange, None))
    } else {
        match lexical_i128(v) {
            Ok(n) => if min <= n <= max {
                Ok(n as int)
            } else {
                Err(Error(ErrorCode::DataOutOfRange, None))
            },
            Err(NumberError::Overflow) => Err(Error(ErrorCode::DataOutOfRange, None)),
            Err(NumberError::Underflow) => Err(Error(ErrorCode::DataOutOfRange, None)),
            Err(_) => Err(Error(ErrorCode::NumericDataError, None)),
        }
    }
}

/// A data token as an integer in `[min, max]`: decimal data as
/// [`decimal_integer`] says, non-decimal data if it is at most `max`,
/// `MAXimum` and `MINimum` as the bounds.
pub open spec fn token_integer(t: SpecToken, min: int, max: int) -> Result<int, Error> {
    match t {
        SpecToken::DecimalNumericProgramData(v) => decimal_integer(v, min, max),
        SpecToken::NonDecimalNumericProgramData(v) => if v <= max {
            Ok(v as int)
        } else {
            Err(Error(ErrorCode::DataOutOfRange, None))
        },
        SpecToken::CharacterProgramData(s) => if mnemonic_eq(maximum_mnemonic(), s) {
            Ok(max)
        } else if mnemonic_eq(minimum_mnemonic(), s) {
            Ok(min)
        } else {
            Err(Error(ErrorCode::DataTypeError, None))
        },
        SpecToken::DecimalNumericSuffixProgramData(_, _) => Err(Error(ErrorCode::SuffixNotAllowed, None)),
        _ => Err(wrong_type(t)),
    }
}

/// Reads a data token as an integer in `[min, max]`, see [`token_integer`].
pub fn integer_from_token(value: Token, min: i128, max: i128) -> (r: Result<i128, Error>)
    requires
        min <= 0 <= max,
    ensures
        match r {
            Ok(n) => token_integer(value@, min as int, max as int) == Ok::<int, Error>(n as int) && min <= n <= max,
            Err(e) => token_integer(value@, min as int, max as int) == Err::<int, Error>(e),
        },
        // An integer written as response data reads back as itself.
        forall|k: i128| min <= k <= max && value@ == SpecToken::DecimalNumericProgramData(#[trigger] decimal_text(k as int))
            ==> r == Ok::<i128, Error>(k),
{
    match value {
        Token::DecimalNumericProgramData(v) => {
            proof {
                assert forall|k: i128| min <= k <= max && v@ == #[trigger] decimal_text(k as int)
                    implies !(min == 0 && v@.len() > 0 && v@[0] == 45u8) by {
                    if min == 0 {
                        lemma_decimal_digits(k as nat);
                    }
                }
            }
            if min == 0 && v.len() > 0 && v[0] == 45u8 {
                return Err(Error::new(ErrorCode::DataOutOfRange));
            }
            match parse_i128(v) {
                Ok(n) => if min <= n && n <= max {
                    Ok(n)
                } else {
                    Err(Error::new(ErrorCode::DataOutOfRange))
                },
                Err(NumberError::Overflow) => Err(Error::new(ErrorCode::DataOutOfRange)),
                Err(NumberError::Underflow) => Err(Error::new(ErrorCode::DataOutOfRange)),
                Err(_) => Err(Error::new(ErrorCode::NumericDataError)),
            }
        },
        Token::NonDecimalNumericProgramData(v) => {
            if (v as i128) <= max {
                Ok(v as i128)
            } else {
                Err(Error::new(ErrorCode::DataOutOfRange))
            }
        },
        Token::CharacterProgramData(s) => {
            let maximum: &[u8] = &[77u8, 65u8, 88u8, 105u8, 109u8, 117u8, 109u8];
            let minimum: &[u8] = &[77u8, 73u8, 78u8, 105u8, 109u8, 117u8, 109u8];
            proof {
                assert(maximum@ == maximum_mnemonic());
                assert(minimum@ == minimum_mnemonic());
            }
            if mnemonic_compare(maximum, s) {
                Ok(max)
            } else if mnemonic_compare(minimum, s) {
                Ok(min)
            } else {
                Err(Error::new(ErrorCode::DataTypeError))
            }
        },
        Token::DecimalNumericSuffixProgramData(_, _) => Err(Error::new(ErrorCode::SuffixNotAllowed)),
        t => Err(wrong_type_error(&t)),
    }
}

/// Convert numeric data into a `u8`, see [`token_integer`].
impl<'a> TryFrom<Token<'a>> for u8 {
    type Error = Error;

    fn try_from(value: Token<'a>) -> (r: Result<u8, Error>) {
        match integer_from_token(value, 0i128, 255i128) {
            Ok(n) => Ok(n as u8),
            Err(e) => Err(e),
        }
    }
}

impl<'a> vstd::std_specs::convert::TryFromSpecImpl<Token<'a>> for u8 {
    open spec fn obeys_try_from_spec() -> bool {
        true
    }

    open spec fn try_from_spec(value: Token<'a>) -> Result<u8, Error> {
        match token_integer(value@, 0, 255) {
            Ok(n) => Ok(n as u8),
            Err(e) => Err(e),
        }
    }
}

/// Convert numeric data into a `i8`, see [`token_integer`].
impl<'a> TryFrom<Token<'a>> for i8 {
    type Error = Error;

    fn try_from(value: Token<'a>) -> (r: Result<i8, Error>) {
        match integer_from_token(value, -128i128, 127i128) {
            Ok(n) => Ok(n as i8),
            Err(e) => Err(e),
        }
    }
}

impl<'a> vstd::std_specs::convert::TryFromSpecImpl<Token<'a>> for i8 {
    open spec fn obeys_try_from_spec() -> bool {
        true
    }

    open spec fn try_from_spec(value: Token<'a>) -> Result<i8, Error> {
        match token_integer(value@, -128, 127) {
            Ok(n) => Ok(n as i8),
            Err(e) => Err(e),
        }
    }
}

/// Convert numeric data into a `u16`, see [`token_integer`].
impl<'a> TryFrom<Token<'a>> for u16 {
    type Error = Error;

    fn try_from(value: Token<'a>) -> (r: Result<u16, Error>) {
        match integer_from_token(value, 0i128, 65535i128) {
            Ok(n) => Ok(n as u16),
            Err(e) => Err(e),
        }
    }
}

impl<'a> vstd::std_specs::convert::TryFromSpecImpl<Token<'a>> for u16 {
    open spec fn obeys_try_from_spec() -> bool {
        true
    }

    open spec fn try_from_spec(value: Token<'a>) -> Result<u16, Error> {
        match token_integer(value@, 0, 65535) {
            Ok(n) => Ok(n as u16),
            Err(e) => Err(e),
        }
    }
}

/// Convert numeric data into a `i16`, see [`token_integer`].
impl<'a> TryFrom<Token<'a>> for i16 {
    type Error = Error;

    fn try_from(value: Token<'a>) -> (r: Result<i16, Error>) {
        match integer_from_token(value, -32768i128, 32767i128) {
            Ok(n) => Ok(n as i16),
            Err(e) => Err(e),
        }
    }
}

impl<'a> vstd::std_specs::convert::TryFromSpecImpl<Token<'a>> for i16 {
    open spec fn obeys_try_from_spec() -> bool {
        true
    }

    open spec fn try_from_spec(value: Token<'a>) -> Result<i16, Error> {
        match token_integer(value@, -32768, 32767) {
            Ok(n) => Ok(n as i16),
            Err(e) => Err(e),
        }
    }
}

/// Convert numeric data into a `u32`, see [`token_integer`].
impl<'a> TryFrom<Token<'a>> for u32 {
    type Error = Error;

    fn try_from(value: Token<'a>) -> (r: Result<u32, Error>) {
        match integer_from_token(value, 0i128, 4294967295i128) {
            Ok(n) => Ok(n as u32),
            Err(e) => Err(e),
        }
    }
}

impl<'a> vstd::std_specs::convert::TryFromSpecImpl<Token<'a>> for u32 {
    open spec fn obeys_try_from_spec() -> bool {
        true
    }

    open spec fn try_from_spec(value: Token<'a>) -> Result<u32, Error> {
        match token_integer(value@, 0, 4294967295) {
            Ok(n) => Ok(n as u32),
            Err(e) => Err(e),
        }
    }
}

/// Convert numeric data into a `i32`, see [`token_integer`].
impl<'a> TryFrom<Token<'a>> for i32 {
    type Error = Error;

    fn try_from(value: Token<'a>) -> (r: Result<i32, Error>) {
        match integer_from_token(value, -2147483648i128, 2147483647i128) {
            Ok(n) => Ok(n as i32),
            Err(e) => Err(e),
        }
    }
}

impl<'a> vstd::std_specs::convert::TryFromSpecImpl<Token<'a>> for i32 {
    open spec fn obeys_try_from_spec() -> bool {
        true
    }

    open spec fn try_from_spec(value: Token<'a>) -> Result<i32, Error> {
        match token_integer(value@, -2147483648, 2147483647) {
            Ok(n) => Ok(n as i32),
            Err(e) => Err(e),
        }
    }
}

/// Convert numeric data into a `u64`, see [`token_integer`].
impl<'a> TryFrom<Token<'a>> for u64 {
    type Error = Error;

    fn try_from(value: Token<'a>) -> (r: Result<u64, Error>) {
        match integer_from_token(value, 0i128, 18446744073709551615i128) {
            Ok(n) => Ok(n as u64),
            Err(e) => Err(e),
        }
    }
}

impl<'a> vstd::std_specs::convert::TryFromSpecImpl<Token<'a>> for u64 {
    open spec fn obeys_try_from_spec() -> bool {
        true
    }

    open spec fn try_from_spec(value: Token<'a>) -> Result<u64, Error> {
        match token_integer(value@, 0, 18446744073709551615) {
            Ok(n) => Ok(n as u64),
            Err(e) => Err(e),
        }
    }
}

/// Convert numeric data into a `i64`, see [`token_integer`].
impl<'a> TryFrom<Token<'a>> for i64 {
    type Error = Error;

    fn try_from(value: Token<'a>) -> (r: Result<i64, Error>) {
        match integer_from_token(value, -9223372036854775808i128, 9223372036854775807i128) {
            Ok(n) => Ok(n as i64),
            Err(e) => Err(e),
        }
    }
}

impl<'a> vstd::std_specs::convert::TryFromSpecImpl<Token<'a>> for i64 {
    open spec fn obeys_try_from_spec() -> bool {
        true
    }

    open spec fn try_from_spec(value: Token<'a>) -> Result<i64, Error> {
        match token_integer(value@, -9223372036854775808, 9223372036854775807) {
            Ok(n) => Ok(n as i64),
            Err(e) => Err(e),
        }
    }
}

/// Convert numeric data into a `usize`, see [`token_integer`].
impl<'a> TryFrom<Token<'a>> for usize {
    type Error = Error;

    fn try_from(value: Token<'a>) -> (r: Result<usize, Error>) {
        match integer_from_token(value, usize::MIN as i128, usize::MAX as i128) {
            Ok(n) => Ok(n as usize),
            Err(e) => Err(e),
        }
    }
}

impl<'a> vstd::std_specs::convert::TryFromSpecImpl<Token<'a>> for usize {
    open spec fn obeys_try_from_spec() -> bool {
        true
    }

    open spec fn try_from_spec(value: Token<'a>) -> Result<usize, Error> {
        match token_integer(value@, usize::MIN as int, usize::MAX as int) {
            Ok(n) => Ok(n as usize),
            Err(e) => Err(e),
        }
    }
}

/// Convert numeric data into a `isize`, see [`token_integer`].
impl<'a> TryFrom<Token<'a>> for isize {
    type Error = Error;

    fn try_from(value: Token<'a>) -> (r: Result<isize, Error>) {
        match integer_from_token(value, isize::MIN as i128, isize::MAX as i128) {
            Ok(n) => Ok(n as isize),
            Err(e) => Err(e),
        }
    }
}

impl<'a> vstd::std_specs::convert::TryFromSpecImpl<Token<'a>> for isize {
    open spec fn obeys_try_from_spec() -> bool {
        true
    }

    open spec fn try_from_spec(value: Token<'a>) -> Result<isize, Error> {
        match token_integer(value@, isize::MIN as int, isize::MAX as int) {
            Ok(n) => Ok(n as isize),
            Err(e) => Err(e),
        }
    }
}

} // verus!

verus! {

/// `ON`
pub open spec fn on_mnemonic() -> Seq<u8> {
    seq![79u8, 78u8]
}

/// `OFF`
pub open spec fn off_mnemonic() -> Seq<u8> {
    seq![79u8, 70u8, 70u8]
}

/// A data token as a boolean: numeric data `1` or `0` (read as an
/// `isize`), character data `ON` or `OFF` in any case; other numbers and
/// other character data are illegal parameter values, other data has the
/// wrong type.
pub open spec fn token_bool(t: SpecToken) -> Result<bool, Error> {
    match t {
        SpecToken::DecimalNumericProgramData(_) => match token_integer(t, isize::MIN as int, isize::MAX as int) {
            Ok(n) => if n == 1 {
                Ok(true)
            } else if n == 0 {
                Ok(false)
            } else {
                Err(Error(ErrorCode::IllegalParameterValue, None))
            },
            Err(e) => Err(e),
        },
        SpecToken::CharacterProgramData(s) => if seq_eq_ignore_case(s, on_mnemonic()) {
            Ok(true)
        } else if seq_eq_ignore_case(s, off_mnemonic()) {
            Ok(false)
        } else {
            Err(Error(ErrorCode::IllegalParameterValue, None))
        },
        _ => Err(wrong_type(t)),
    }
}

/// Convert string data data into a boolean.
///
/// # Returns
/// * `Ok(bool)` - If data is character data matching `ON|OFF` or numeric `1|0`.
/// * `Err(IllegalParameterValue)` - If data is character data or numeric but is not a boolean
/// * `Err(DataTypeError)` - If data is not a character data or numeric.
impl<'a> TryFrom<Token<'a>> for bool {
    type Error = Error;

    fn try_from(value: Token<'a>) -> (r: Result<bool, Error>) {
        match value {
            Token::DecimalNumericProgramData(_) => {
                // Numeric 1 is true and 0 is false
                match integer_from_token(value, isize::MIN as i128, isize::MAX as i128) {
                    Ok(n) => if n == 1 {
                        Ok(true)
                    } else if n == 0 {
                        Ok(false)
                    } else {
                        Err(Error::new(ErrorCode::IllegalParameterValue))
                    },
                    Err(e) => Err(e),
                }
            },
            Token::CharacterProgramData(s) => {
                let on: &[u8] = &[79u8, 78u8];
                let off: &[u8] = &[79u8, 70u8, 70u8];
                proof {
                    assert(on@ == on_mnemonic());
                    assert(off@ == off_mnemonic());
                }
                if eq_ignore_ascii_case(s, on) {
                    Ok(true)
                } else if eq_ignore_ascii_case(s, off) {
                    Ok(false)
                } else {
                    Err(Error::new(ErrorCode::IllegalParameterValue))
                }
            },
            t => Err(wrong_type_error(&t)),
        }
    }
}

impl<'a> vstd::std_specs::convert::TryFromSpecImpl<Token<'a>> for bool {
    open spec fn obeys_try_from_spec() -> bool {
        true
    }

    open spec fn try_from_spec(value: Token<'a>) -> Result<bool, Error> {
        token_bool(value@)
    }
}

/// Calls `core::str::from_utf8`, which returns the bytes as a `str` if and
/// only if they are valid UTF-8; the `str` holds the characters they encode.
#[verifier::external_body]
fn from_utf8(bytes: &[u8]) -> (r: Option<&str>)
    ensures
        r is Some <==> valid_utf8(bytes@),
        r matches Some(s) ==> s@ == decode_utf8(bytes@),
{
    core::str::from_utf8(bytes).ok()
}

/// A string or block of bytes as text: the decoded characters, or
/// [`ErrorCode::StringDataError`] where the bytes are not UTF-8.
pub open spec fn token_str(t: SpecToken) -> Result<Seq<char>, Error> {
    match t {
        SpecToken::StringProgramData(s) | SpecToken::ArbitraryBlockData(s) => if valid_utf8(s) {
            Ok(decode_utf8(s))
        } else {
            Err(Error(ErrorCode::StringDataError, None))
        },
        _ => Err(wrong_type(t)),
    }
}

/// Convert string/block data data into a str.
///
/// # Returns
/// * `Ok(&str)` - If data is a string or block data.
/// * `Err(DataTypeError)` - If data is not a string.
/// * `Err(StringDataError)` - If string is not valid utf8
impl<'a> TryFrom<Token<'a>> for &'a str {
    type Error = Error;

    fn try_from(value: Token<'a>) -> (r: Result<&'a str, Error>)
        ensures
            match r {
                Ok(text) => token_str(value@) == Ok::<Seq<char>, Error>(text@),
                Err(e) => token_str(value@) == Err::<Seq<char>, Error>(e),
            },
    {
        match value {
            Token::StringProgramData(s) | Token::ArbitraryBlockData(s) => match from_utf8(s) {
                Some(text) => Ok(text),
                None => Err(Error::new(ErrorCode::StringDataError)),
            },
            t => Err(wrong_type_error(&t)),
        }
    }
}

/// A `str` is known by its characters only, so no single value is named
/// here; the contract of `try_from` above states the result.
impl<'a> vstd::std_specs::convert::TryFromSpecImpl<Token<'a>> for &'a str {
    open spec fn obeys_try_from_spec() -> bool {
        false
    }

    open spec fn try_from_spec(value: Token<'a>) -> Result<&'a str, Error> {
        match token_str(value@) {
            Ok(c) => Ok(choose|text: &'a str| text@ == c),
            Err(e) => Err(e),
        }
    }
}

} // verus!

verus! {

/// Convert expression data into a numeric list.
impl<'a> TryFrom<Token<'a>> for NumericList<'a> {
    type Error = Error;

    fn try_from(value: Token<'a>) -> (r: Result<NumericList<'a>, Error>)
        ensures
            match r {
                Ok(l) => value@ == SpecToken::ExpressionProgramData(l.tokenizer.rest()) && l.first,
                Err(e) => !(value@ is ExpressionProgramData) && e == wrong_type(value@),
            },
    {
        match value {
            Token::ExpressionProgramData(s) => Ok(NumericList::new(s)),
            t => Err(wrong_type_error(&t)),
        }
    }
}

/// A numeric list holds a tokenizer, known by its state only; the contract
/// of `try_from` above states the result.
impl<'a> vstd::std_specs::convert::TryFromSpecImpl<Token<'a>> for NumericList<'a> {
    open spec fn obeys_try_from_spec() -> bool {
        false
    }

    open spec fn try_from_spec(value: Token<'a>) -> Result<NumericList<'a>, Error> {
        match value {
            Token::ExpressionProgramData(s) => Ok(choose|l: NumericList<'a>| l.tokenizer.rest() == s@ && l.first),
            t => Err(wrong_type(t@)),
        }
    }
}

/// "Invalid channel list"
pub open spec fn invalid_channel_list_message() -> Seq<u8> {
    seq![73u8, 110u8, 118u8, 97u8, 108u8, 105u8, 100u8, 32u8, 99u8, 104u8, 97u8, 110u8, 110u8, 101u8, 108u8, 32u8, 108u8, 105u8, 115u8, 116u8]
}

/// The error for expression data that is not a channel list.
pub open spec fn invalid_channel_list() -> Error {
    Error(ErrorCode::InvalidExpression, Some(choose|m: &'static [u8]| m@ == invalid_channel_list_message()))
}

fn invalid_channel_list_error() -> (e: Error)
    ensures
        e == invalid_channel_list(),
{
    let m: &'static [u8] = &[73u8, 110u8, 118u8, 97u8, 108u8, 105u8, 100u8, 32u8, 99u8, 104u8, 97u8, 110u8, 110u8, 101u8, 108u8, 32u8, 108u8, 105u8, 115u8, 116u8];
    proof {
        assert(m@ == invalid_channel_list_message());
        let c = choose|m: &'static [u8]| m@ == invalid_channel_list_message();
        assert(c == m);
    }
    Error::extended(ErrorCode::InvalidExpression, m)
}

/// Convert expression data starting with `@` into a channel list.
impl<'a> TryFrom<Token<'a>> for ChannelList<'a> {
    type Error = Error;

    fn try_from(value: Token<'a>) -> (r: Result<ChannelList<'a>, Error>)
        ensures
            match value@ {
                SpecToken::ExpressionProgramData(s) => if s.len() > 0 && s[0] == 64 {
                    r matches Ok(l) && l.chars@ == s.skip(1) && l.first
                } else {
                    r == Err::<ChannelList<'a>, Error>(invalid_channel_list())
                },
                t => r == Err::<ChannelList<'a>, Error>(wrong_type(t)),
            },
    {
        match value {
            Token::ExpressionProgramData(s) => match ChannelList::new(s) {
                Some(l) => Ok(l),
                None => Err(invalid_channel_list_error()),
            },
            t => Err(wrong_type_error(&t)),
        }
    }
}

/// A channel list is known by what is left of its bytes; the contract of
/// `try_from` above states the result.
impl<'a> vstd::std_specs::convert::TryFromSpecImpl<Token<'a>> for ChannelList<'a> {
    open spec fn obeys_try_from_spec() -> bool {
        false
    }

    open spec fn try_from_spec(value: Token<'a>) -> Result<ChannelList<'a>, Error> {
        match value@ {
            SpecToken::ExpressionProgramData(s) => if s.len() > 0 && s[0] == 64 {
                Ok(choose|l: ChannelList<'a>| l.chars@ == s.skip(1) && l.first)
            } else {
                Err(invalid_channel_list())
            },
            t => Err(wrong_type(t)),
        }
    }
}

} // verus!

verus! {

/// The next parameter of `t` read as an integer in `[min, max]`; a missing
/// parameter is an [`ErrorCode::MissingParameter`] error.
pub open spec fn required_integer(t: Tokenizer, min: int, max: int) -> Result<int, Error> {
    match required(optional_token(t.rest(), t.header(), t.common()).0) {
        Ok(Some(tok)) => token_integer(tok, min, max),
        Err(e) => Err(Error(e, None)),
        Ok(None) => Err(Error(ErrorCode::MissingParameter, None)),
    }
}

} // verus!
