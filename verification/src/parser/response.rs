//! SCPI response formatting: response data, response message units and the
//! formatters that hold a response message.

use vstd::prelude::*;

use crate::error::{Error, ErrorCode, Result};
use crate::parser::format::{Arbitrary, Binary, Character, Expression, Hex, Octal};
use crate::parser::lexical::{integer_text, lemma_decimal_digits, write_binary, write_decimal, write_hex, write_octal};
use crate::parser::tokenizer::block_input;

pub mod arrayformatter;
pub use arrayformatter::ArrayVecFormatter;

verus! {

/// `,`
pub const RESPONSE_DATA_SEPARATOR: u8 = 44;
/// ` `
pub const RESPONSE_HEADER_SEPARATOR: u8 = 32;
/// `;`
pub const RESPONSE_MESSAGE_UNIT_SEPARATOR: u8 = 59;
/// line feed
pub const RESPONSE_MESSAGE_TERMINATOR: u8 = 10;

/// Holds a SCPI response message.
///
/// `bytes` is what the formatter holds. A write either appends its bytes and
/// succeeds, or fails and leaves the formatter as it was.
pub trait Formatter {
    /// The bytes of the response so far.
    open spec fn bytes(&self) -> Seq<u8> {
        vstd::pervasive::arbitrary()
    }
    /// Whether the formatter takes `n` more bytes: a write succeeds exactly
    /// then.
    open spec fn accepts(&self, n: nat) -> bool {
        vstd::pervasive::arbitrary()
    }
    /// Push raw string to output
    fn push_str(&mut self, s: &[u8]) -> (r: Result<()>)
        ensures
            r is Ok <==> old(self).accepts(s@.len()),
            r is Ok ==> final(self).bytes() == old(self).bytes() + s@,
            r is Err ==> final(self).bytes() == old(self).bytes(),
    ;

    /// Push ascii to output
    fn push_ascii(&mut self, s: &[u8]) -> (r: Result<()>)
        ensures
            r is Ok <==> old(self).accepts(s@.len()),
            r is Ok ==> final(self).bytes() == old(self).bytes() + s@,
            r is Err ==> final(self).bytes() == old(self).bytes(),
    {
        self.push_str(s)
    }

    ///Push single byte to output
    fn push_byte(&mut self, b: u8) -> (r: Result<()>)
        ensures
            r is Ok <==> old(self).accepts(1),
            r is Ok ==> final(self).bytes() == old(self).bytes().push(b),
            r is Err ==> final(self).bytes() == old(self).bytes(),
    ;

    /// Get underlying buffer as a byte slice
    fn as_slice(&self) -> (s: &[u8])
        ensures
            s@ == self.bytes(),
    ;

    /// Clear buffer
    fn clear(&mut self)
        ensures
            final(self).bytes().len() == 0,
    ;

    /// Returns length of buffer
    fn len(&self) -> (n: usize)
        ensures
            n == self.bytes().len(),
    ;

    /// True when the buffer is empty.
    fn is_empty(&self) -> (b: bool)
        ensures
            b == (self.bytes().len() == 0),
    {
        self.len() == 0
    }

    /// Start a response message; starting never fails.
    fn message_start(&mut self) -> (r: Result<()>)
        ensures
            r is Ok,
            final(self).bytes() == old(self).bytes(),
    ;

    /// End a response message; it succeeds exactly when the line feed fits,
    /// and a failure changes nothing.
    fn message_end(&mut self) -> (r: Result<()>)
        ensures
            r is Ok <==> old(self).accepts(1),
            r is Ok ==> final(self).bytes() == old(self).bytes().push(RESPONSE_MESSAGE_TERMINATOR),
            r is Err ==> final(self).bytes() == old(self).bytes() && !final(self).accepts(1),
    ;

    /// Insert a data separator
    fn data_separator(&mut self) -> (r: Result<()>)
        ensures
            r is Ok <==> old(self).accepts(1),
            r is Ok ==> final(self).bytes() == old(self).bytes().push(RESPONSE_DATA_SEPARATOR),
            r is Err ==> final(self).bytes() == old(self).bytes(),
    {
        self.push_byte(RESPONSE_DATA_SEPARATOR)
    }

    /// Insert a header separator
    fn header_separator(&mut self) -> (r: Result<()>)
        ensures
            r is Ok <==> old(self).accepts(1),
            r is Ok ==> final(self).bytes() == old(self).bytes().push(RESPONSE_HEADER_SEPARATOR),
            r is Err ==> final(self).bytes() == old(self).bytes(),
    {
        self.push_byte(RESPONSE_HEADER_SEPARATOR)
    }

    /// Start a response unit: after the first unit of a message, a unit
    /// separator is written first.
    fn response_unit(&mut self) -> (r: Result<ResponseUnit<'_, Self>>)
        where
            Self: Sized,
        ensures
            r matches Ok(u) ==> {
                &&& u.fmt.bytes() == old(self).bytes()
                    || u.fmt.bytes() == old(self).bytes().push(RESPONSE_MESSAGE_UNIT_SEPARATOR)
                &&& u.result is Ok
                &&& !u.has_header
                &&& !u.has_data
                &&& *final(self) == *final(u.fmt)
            },
            r is Err ==> *final(self) == *old(self) && !old(self).accepts(1),
    ;
}

/// A response message unit being written: an optional header and data
/// separated by commas. The first error stops the writing and is kept.
pub struct ResponseUnit<'a, F: Formatter> {
    pub fmt: &'a mut F,
    pub result: Result<()>,
    pub has_header: bool,
    pub has_data: bool,
}


/// `b` starts with `a`.
pub open spec fn extends(a: Seq<u8>, b: Seq<u8>) -> bool {
    a.len() <= b.len() && b.take(a.len() as int) == a
}

pub proof fn lemma_extends_trans(a: Seq<u8>, b: Seq<u8>, c: Seq<u8>)
    requires
        extends(a, b),
        extends(b, c),
    ensures
        extends(a, c),
{
    assert(c.take(a.len() as int) =~= c.take(b.len() as int).take(a.len() as int));
}

pub proof fn lemma_extends_append(a: Seq<u8>, b: Seq<u8>)
    ensures
        extends(a, a + b),
        extends(a, a),
{
    assert((a + b).take(a.len() as int) =~= a);
    assert(a.take(a.len() as int) =~= a);
}

impl Formatter for Vec<u8> {
    open spec fn bytes(&self) -> Seq<u8> {
        self@
    }

    /// A vector takes any number of bytes.
    open spec fn accepts(&self, n: nat) -> bool {
        true
    }

    /// Appends; never fails.
    fn push_str(&mut self, s: &[u8]) -> (r: Result<()>)
        ensures
            r is Ok,
    {
        self.extend_from_slice(s);
        proof {
            assert(self@ =~= old(self)@ + s@);
        }
        Ok(())
    }

    /// Appends; never fails.
    fn push_byte(&mut self, b: u8) -> (r: Result<()>)
        ensures
            r is Ok,
    {
        self.push(b);
        Ok(())
    }

    fn as_slice(&self) -> (s: &[u8]) {
        Vec::as_slice(self)
    }

    fn clear(&mut self) {
        Vec::clear(self);
    }

    fn len(&self) -> (n: usize) {
        Vec::len(self)
    }

    /// Nothing to do; never fails.
    fn message_start(&mut self) -> (r: Result<()>)
        ensures
            r == Ok::<(), Error>(()),
            *final(self) == *old(self),
    {
        Ok(())
    }

    /// Appends a line feed; never fails.
    fn message_end(&mut self) -> (r: Result<()>)
        ensures
            r is Ok,
    {
        self.push(RESPONSE_MESSAGE_TERMINATOR);
        Ok(())
    }

    /// A unit separator is written unless the buffer is empty; never fails.
    fn response_unit(&mut self) -> (r: Result<ResponseUnit<'_, Self>>)
        ensures
            r matches Ok(u) && u.fmt@ == if old(self)@.len() == 0 {
                old(self)@
            } else {
                old(self)@.push(RESPONSE_MESSAGE_UNIT_SEPARATOR)
            },
    {
        if Vec::len(self) > 0 {
            self.push(RESPONSE_MESSAGE_UNIT_SEPARATOR);
        }
        Ok(ResponseUnit { fmt: self, result: Ok(()), has_header: false, has_data: false })
    }
}

/// Data that can be written as SCPI response data.
pub trait ResponseData {
    /// The bytes this value is written as, or `None` where it cannot be
    /// written (an [`ErrorCode::ExecutionError`]).
    open spec fn response(&self) -> Option<Seq<u8>> {
        vstd::pervasive::arbitrary()
    }
    /// Write the value. On success exactly its bytes are appended; a value
    /// that cannot be written is refused with an error; on any error, what
    /// was written before stays.
    fn format_response_data<F: Formatter>(&self, formatter: &mut F) -> (r: Result<()>)
        ensures
            r is Ok ==> self.response() is Some
                && final(formatter).bytes() == old(formatter).bytes() + self.response()->0,
            self.response() is None ==> r is Err,
            extends(old(formatter).bytes(), final(formatter).bytes()),
    ;
}

} // verus!

verus! {

impl ResponseData for u8 {
    /// Decimal digits, with a `-` when negative.
    open spec fn response(&self) -> Option<Seq<u8>> {
        Some(integer_text(*self as int, 10))
    }

    fn format_response_data<F: Formatter>(&self, formatter: &mut F) -> (r: Result<()>) {
        let s = write_decimal(*self as i128);
        let r = formatter.push_str(s.as_slice());
        proof {
            lemma_extends_append(old(formatter).bytes(), s@);
        }
        r
    }
}

impl ResponseData for Hex<u8> {
    /// `#H` and the digits in base 16, with a `-` when negative.
    open spec fn response(&self) -> Option<Seq<u8>> {
        Some(seq![35u8, 72u8] + integer_text(self.0 as int, 16))
    }

    fn format_response_data<F: Formatter>(&self, formatter: &mut F) -> (r: Result<()>) {
        let prefix: &[u8] = &[35u8, 72u8];
        proof {
            assert(prefix@ == seq![35u8, 72u8]);
            lemma_extends_append(old(formatter).bytes(), prefix@);
        }
        let r1 = formatter.push_str(prefix);
        if r1.is_err() {
            return r1;
        }
        let ghost mid = formatter.bytes();
        let s = write_hex(self.0 as i128);
        let r = formatter.push_str(s.as_slice());
        proof {
            lemma_extends_append(mid, s@);
            lemma_extends_trans(old(formatter).bytes(), mid, formatter.bytes());
            assert(old(formatter).bytes() + prefix@ + s@ == old(formatter).bytes() + (prefix@ + s@));
        }
        r
    }
}

impl ResponseData for Octal<u8> {
    /// `#Q` and the digits in base 8, with a `-` when negative.
    open spec fn response(&self) -> Option<Seq<u8>> {
        Some(seq![35u8, 81u8] + integer_text(self.0 as int, 8))
    }

    fn format_response_data<F: Formatter>(&self, formatter: &mut F) -> (r: Result<()>) {
        let prefix: &[u8] = &[35u8, 81u8];
        proof {
            assert(prefix@ == seq![35u8, 81u8]);
            lemma_extends_append(old(formatter).bytes(), prefix@);
        }
        let r1 = formatter.push_str(prefix);
        if r1.is_err() {
            return r1;
        }
        let ghost mid = formatter.bytes();
        let s = write_octal(self.0 as i128);
        let r = formatter.push_str(s.as_slice());
        proof {
            lemma_extends_append(mid, s@);
            lemma_extends_trans(old(formatter).bytes(), mid, formatter.bytes());
            assert(old(formatter).bytes() + prefix@ + s@ == old(formatter).bytes() + (prefix@ + s@));
        }
        r
    }
}

impl ResponseData for Binary<u8> {
    /// `#B` and the digits in base 2, with a `-` when negative.
    open spec fn response(&self) -> Option<Seq<u8>> {
        Some(seq![35u8, 66u8] + integer_text(self.0 as int, 2))
    }

    fn format_response_data<F: Formatter>(&self, formatter: &mut F) -> (r: Result<()>) {
        let prefix: &[u8] = &[35u8, 66u8];
        proof {
            assert(prefix@ == seq![35u8, 66u8]);
            lemma_extends_append(old(formatter).bytes(), prefix@);
        }
        let r1 = formatter.push_str(prefix);
        if r1.is_err() {
            return r1;
        }
        let ghost mid = formatter.bytes();
        let s = write_binary(self.0 as i128);
        let r = formatter.push_str(s.as_slice());
        proof {
            lemma_extends_append(mid, s@);
            lemma_extends_trans(old(formatter).bytes(), mid, formatter.bytes());
            assert(old(formatter).bytes() + prefix@ + s@ == old(formatter).bytes() + (prefix@ + s@));
        }
        r
    }
}

impl ResponseData for i8 {
    /// Decimal digits, with a `-` when negative.
    open spec fn response(&self) -> Option<Seq<u8>> {
        Some(integer_text(*self as int, 10))
    }

    fn format_response_data<F: Formatter>(&self, formatter: &mut F) -> (r: Result<()>) {
        let s = write_decimal(*self as i128);
        let r = formatter.push_str(s.as_slice());
        proof {
            lemma_extends_append(old(formatter).bytes(), s@);
        }
        r
    }
}

impl ResponseData for Hex<i8> {
    /// `#H` and the digits in base 16, with a `-` when negative.
    open spec fn response(&self) -> Option<Seq<u8>> {
        Some(seq![35u8, 72u8] + integer_text(self.0 as int, 16))
    }

    fn format_response_data<F: Formatter>(&self, formatter: &mut F) -> (r: Result<()>) {
        let prefix: &[u8] = &[35u8, 72u8];
        proof {
            assert(prefix@ == seq![35u8, 72u8]);
            lemma_extends_append(old(formatter).bytes(), prefix@);
        }
        let r1 = formatter.push_str(prefix);
        if r1.is_err() {
            return r1;
        }
        let ghost mid = formatter.bytes();
        let s = write_hex(self.0 as i128);
        let r = formatter.push_str(s.as_slice());
        proof {
            lemma_extends_append(mid, s@);
            lemma_extends_trans(old(formatter).bytes(), mid, formatter.bytes());
            assert(old(formatter).bytes() + prefix@ + s@ == old(formatter).bytes() + (prefix@ + s@));
        }
        r
    }
}

impl ResponseData for Octal<i8> {
    /// `#Q` and the digits in base 8, with a `-` when negative.
    open spec fn response(&self) -> Option<Seq<u8>> {
        Some(seq![35u8, 81u8] + integer_text(self.0 as int, 8))
    }

    fn format_response_data<F: Formatter>(&self, formatter: &mut F) -> (r: Result<()>) {
        let prefix: &[u8] = &[35u8, 81u8];
        proof {
            assert(prefix@ == seq![35u8, 81u8]);
            lemma_extends_append(old(formatter).bytes(), prefix@);
        }
        let r1 = formatter.push_str(prefix);
        if r1.is_err() {
            return r1;
        }
        let ghost mid = formatter.bytes();
        let s = write_octal(self.0 as i128);
        let r = formatter.push_str(s.as_slice());
        proof {
            lemma_extends_append(mid, s@);
            lemma_extends_trans(old(formatter).bytes(), mid, formatter.bytes());
            assert(old(formatter).bytes() + prefix@ + s@ == old(formatter).bytes() + (prefix@ + s@));
        }
        r
    }
}

impl ResponseData for Binary<i8> {
    /// `#B` and the digits in base 2, with a `-` when negative.
    open spec fn response(&self) -> Option<Seq<u8>> {
        Some(seq![35u8, 66u8] + integer_text(self.0 as int, 2))
    }

    fn format_response_data<F: Formatter>(&self, formatter: &mut F) -> (r: Result<()>) {
        let prefix: &[u8] = &[35u8, 66u8];
        proof {
            assert(prefix@ == seq![35u8, 66u8]);
            lemma_extends_append(old(formatter).bytes(), prefix@);
        }
        let r1 = formatter.push_str(prefix);
        if r1.is_err() {
            return r1;
        }
        let ghost mid = formatter.bytes();
        let s = write_binary(self.0 as i128);
        let r = formatter.push_str(s.as_slice());
        proof {
            lemma_extends_append(mid, s@);
            lemma_extends_trans(old(formatter).bytes(), mid, formatter.bytes());
            assert(old(formatter).bytes() + prefix@ + s@ == old(formatter).bytes() + (prefix@ + s@));
        }
        r
    }
}

impl ResponseData for u16 {
    /// Decimal digits, with a `-` when negative.
    open spec fn response(&self) -> Option<Seq<u8>> {
        Some(integer_text(*self as int, 10))
    }

    fn format_response_data<F: Formatter>(&self, formatter: &mut F) -> (r: Result<()>) {
        let s = write_decimal(*self as i128);
        let r = formatter.push_str(s.as_slice());
        proof {
            lemma_extends_append(old(formatter).bytes(), s@);
        }
        r
    }
}

impl ResponseData for Hex<u16> {
    /// `#H` and the digits in base 16, with a `-` when negative.
    open spec fn response(&self) -> Option<Seq<u8>> {
        Some(seq![35u8, 72u8] + integer_text(self.0 as int, 16))
    }

    fn format_response_data<F: Formatter>(&self, formatter: &mut F) -> (r: Result<()>) {
        let prefix: &[u8] = &[35u8, 72u8];
        proof {
            assert(prefix@ == seq![35u8, 72u8]);
            lemma_extends_append(old(formatter).bytes(), prefix@);
        }
        let r1 = formatter.push_str(prefix);
        if r1.is_err() {
            return r1;
        }
        let ghost mid = formatter.bytes();
        let s = write_hex(self.0 as i128);
        let r = formatter.push_str(s.as_slice());
        proof {
            lemma_extends_append(mid, s@);
            lemma_extends_trans(old(formatter).bytes(), mid, formatter.bytes());
            assert(old(formatter).bytes() + prefix@ + s@ == old(formatter).bytes() + (prefix@ + s@));
        }
        r
    }
}

impl ResponseData for Octal<u16> {
    /// `#Q` and the digits in base 8, with a `-` when negative.
    open spec fn response(&self) -> Option<Seq<u8>> {
        Some(seq![35u8, 81u8] + integer_text(self.0 as int, 8))
    }

    fn format_response_data<F: Formatter>(&self, formatter: &mut F) -> (r: Result<()>) {
        let prefix: &[u8] = &[35u8, 81u8];
        proof {
            assert(prefix@ == seq![35u8, 81u8]);
            lemma_extends_append(old(formatter).bytes(), prefix@);
        }
        let r1 = formatter.push_str(prefix);
        if r1.is_err() {
            return r1;
        }
        let ghost mid = formatter.bytes();
        let s = write_octal(self.0 as i128);
        let r = formatter.push_str(s.as_slice());
        proof {
            lemma_extends_append(mid, s@);
            lemma_extends_trans(old(formatter).bytes(), mid, formatter.bytes());
            assert(old(formatter).bytes() + prefix@ + s@ == old(formatter).bytes() + (prefix@ + s@));
        }
        r
    }
}

impl ResponseData for Binary<u16> {
    /// `#B` and the digits in base 2, with a `-` when negative.
    open spec fn response(&self) -> Option<Seq<u8>> {
        Some(seq![35u8, 66u8] + integer_text(self.0 as int, 2))
    }

    fn format_response_data<F: Formatter>(&self, formatter: &mut F) -> (r: Result<()>) {
        let prefix: &[u8] = &[35u8, 66u8];
        proof {
            assert(prefix@ == seq![35u8, 66u8]);
            lemma_extends_append(old(formatter).bytes(), prefix@);
        }
        let r1 = formatter.push_str(prefix);
        if r1.is_err() {
            return r1;
        }
        let ghost mid = formatter.bytes();
        let s = write_binary(self.0 as i128);
        let r = formatter.push_str(s.as_slice());
        proof {
            lemma_extends_append(mid, s@);
            lemma_extends_trans(old(formatter).bytes(), mid, formatter.bytes());
            assert(old(formatter).bytes() + prefix@ + s@ == old(formatter).bytes() + (prefix@ + s@));
        }
        r
    }
}

impl ResponseData for i16 {
    /// Decimal digits, with a `-` when negative.
    open spec fn response(&self) -> Option<Seq<u8>> {
        Some(integer_text(*self as int, 10))
    }

    fn format_response_data<F: Formatter>(&self, formatter: &mut F) -> (r: Result<()>) {
        let s = write_decimal(*self as i128);
        let r = formatter.push_str(s.as_slice());
        proof {
            lemma_extends_append(old(formatter).bytes(), s@);
        }
        r
    }
}

impl ResponseData for Hex<i16> {
    /// `#H` and the digits in base 16, with a `-` when negative.
    open spec fn response(&self) -> Option<Seq<u8>> {
        Some(seq![35u8, 72u8] + integer_text(self.0 as int, 16))
    }

    fn format_response_data<F: Formatter>(&self, formatter: &mut F) -> (r: Result<()>) {
        let prefix: &[u8] = &[35u8, 72u8];
        proof {
            assert(prefix@ == seq![35u8, 72u8]);
            lemma_extends_append(old(formatter).bytes(), prefix@);
        }
        let r1 = formatter.push_str(prefix);
        if r1.is_err() {
            return r1;
        }
        let ghost mid = formatter.bytes();
        let s = write_hex(self.0 as i128);
        let r = formatter.push_str(s.as_slice());
        proof {
            lemma_extends_append(mid, s@);
            lemma_extends_trans(old(formatter).bytes(), mid, formatter.bytes());
            assert(old(formatter).bytes() + prefix@ + s@ == old(formatter).bytes() + (prefix@ + s@));
        }
        r
    }
}

impl ResponseData for Octal<i16> {
    /// `#Q` and the digits in base 8, with a `-` when negative.
    open spec fn response(&self) -> Option<Seq<u8>> {
        Some(seq![35u8, 81u8] + integer_text(self.0 as int, 8))
    }

    fn format_response_data<F: Formatter>(&self, formatter: &mut F) -> (r: Result<()>) {
        let prefix: &[u8] = &[35u8, 81u8];
        proof {
            assert(prefix@ == seq![35u8, 81u8]);
            lemma_extends_append(old(formatter).bytes(), prefix@);
        }
        let r1 = formatter.push_str(prefix);
        if r1.is_err() {
            return r1;
        }
        let ghost mid = formatter.bytes();
        let s = write_octal(self.0 as i128);
        let r = formatter.push_str(s.as_slice());
        proof {
            lemma_extends_append(mid, s@);
            lemma_extends_trans(old(formatter).bytes(), mid, formatter.bytes());
            assert(old(formatter).bytes() + prefix@ + s@ == old(formatter).bytes() + (prefix@ + s@));
        }
        r
    }
}

impl ResponseData for Binary<i16> {
    /// `#B` and the digits in base 2, with a `-` when negative.
    open spec fn response(&self) -> Option<Seq<u8>> {
        Some(seq![35u8, 66u8] + integer_text(self.0 as int, 2))
    }

    fn format_response_data<F: Formatter>(&self, formatter: &mut F) -> (r: Result<()>) {
        let prefix: &[u8] = &[35u8, 66u8];
        proof {
            assert(prefix@ == seq![35u8, 66u8]);
            lemma_extends_append(old(formatter).bytes(), prefix@);
        }
        let r1 = formatter.push_str(prefix);
        if r1.is_err() {
            return r1;
        }
        let ghost mid = formatter.bytes();
        let s = write_binary(self.0 as i128);
        let r = formatter.push_str(s.as_slice());
        proof {
            lemma_extends_append(mid, s@);
            lemma_extends_trans(old(formatter).bytes(), mid, formatter.bytes());
            assert(old(formatter).bytes() + prefix@ + s@ == old(formatter).bytes() + (prefix@ + s@));
        }
        r
    }
}

impl ResponseData for u32 {
    /// Decimal digits, with a `-` when negative.
    open spec fn response(&self) -> Option<Seq<u8>> {
        Some(integer_text(*self as int, 10))
    }

    fn format_response_data<F: Formatter>(&self, formatter: &mut F) -> (r: Result<()>) {
        let s = write_decimal(*self as i128);
        let r = formatter.push_str(s.as_slice());
        proof {
            lemma_extends_append(old(formatter).bytes(), s@);
        }
        r
    }
}

impl ResponseData for Hex<u32> {
    /// `#H` and the digits in base 16, with a `-` when negative.
    open spec fn response(&self) -> Option<Seq<u8>> {
        Some(seq![35u8, 72u8] + integer_text(self.0 as int, 16))
    }

    fn format_response_data<F: Formatter>(&self, formatter: &mut F) -> (r: Result<()>) {
        let prefix: &[u8] = &[35u8, 72u8];
        proof {
            assert(prefix@ == seq![35u8, 72u8]);
            lemma_extends_append(old(formatter).bytes(), prefix@);
        }
        let r1 = formatter.push_str(prefix);
        if r1.is_err() {
            return r1;
        }
        let ghost mid = formatter.bytes();
        let s = write_hex(self.0 as i128);
        let r = formatter.push_str(s.as_slice());
        proof {
            lemma_extends_append(mid, s@);
            lemma_extends_trans(old(formatter).bytes(), mid, formatter.bytes());
            assert(old(formatter).bytes() + prefix@ + s@ == old(formatter).bytes() + (prefix@ + s@));
        }
        r
    }
}

impl ResponseData for Octal<u32> {
    /// `#Q` and the digits in base 8, with a `-` when negative.
    open spec fn response(&self) -> Option<Seq<u8>> {
        Some(seq![35u8, 81u8] + integer_text(self.0 as int, 8))
    }

    fn format_response_data<F: Formatter>(&self, formatter: &mut F) -> (r: Result<()>) {
        let prefix: &[u8] = &[35u8, 81u8];
        proof {
            assert(prefix@ == seq![35u8, 81u8]);
            lemma_extends_append(old(formatter).bytes(), prefix@);
        }
        let r1 = formatter.push_str(prefix);
        if r1.is_err() {
            return r1;
        }
        let ghost mid = formatter.bytes();
        let s = write_octal(self.0 as i128);
        let r = formatter.push_str(s.as_slice());
        proof {
            lemma_extends_append(mid, s@);
            lemma_extends_trans(old(formatter).bytes(), mid, formatter.bytes());
            assert(old(formatter).bytes() + prefix@ + s@ == old(formatter).bytes() + (prefix@ + s@));
        }
        r
    }
}

impl ResponseData for Binary<u32> {
    /// `#B` and the digits in base 2, with a `-` when negative.
    open spec fn response(&self) -> Option<Seq<u8>> {
        Some(seq![35u8, 66u8] + integer_text(self.0 as int, 2))
    }

    fn format_response_data<F: Formatter>(&self, formatter: &mut F) -> (r: Result<()>) {
        let prefix: &[u8] = &[35u8, 66u8];
        proof {
            assert(prefix@ == seq![35u8, 66u8]);
            lemma_extends_append(old(formatter).bytes(), prefix@);
        }
        let r1 = formatter.push_str(prefix);
        if r1.is_err() {
            return r1;
        }
        let ghost mid = formatter.bytes();
        let s = write_binary(self.0 as i128);
        let r = formatter.push_str(s.as_slice());
        proof {
            lemma_extends_append(mid, s@);
            lemma_extends_trans(old(formatter).bytes(), mid, formatter.bytes());
            assert(old(formatter).bytes() + prefix@ + s@ == old(formatter).bytes() + (prefix@ + s@));
        }
        r
    }
}

impl ResponseData for i32 {
    /// Decimal digits, with a `-` when negative.
    open spec fn response(&self) -> Option<Seq<u8>> {
        Some(integer_text(*self as int, 10))
    }

    fn format_response_data<F: Formatter>(&self, formatter: &mut F) -> (r: Result<()>) {
        let s = write_decimal(*self as i128);
        let r = formatter.push_str(s.as_slice());
        proof {
            lemma_extends_append(old(formatter).bytes(), s@);
        }
        r
    }
}

impl ResponseData for Hex<i32> {
    /// `#H` and the digits in base 16, with a `-` when negative.
    open spec fn response(&self) -> Option<Seq<u8>> {
        Some(seq![35u8, 72u8] + integer_text(self.0 as int, 16))
    }

    fn format_response_data<F: Formatter>(&self, formatter: &mut F) -> (r: Result<()>) {
        let prefix: &[u8] = &[35u8, 72u8];
        proof {
            assert(prefix@ == seq![35u8, 72u8]);
            lemma_extends_append(old(formatter).bytes(), prefix@);
        }
        let r1 = formatter.push_str(prefix);
        if r1.is_err() {
            return r1;
        }
        let ghost mid = formatter.bytes();
        let s = write_hex(self.0 as i128);
        let r = formatter.push_str(s.as_slice());
        proof {
            lemma_extends_append(mid, s@);
            lemma_extends_trans(old(formatter).bytes(), mid, formatter.bytes());
            assert(old(formatter).bytes() + prefix@ + s@ == old(formatter).bytes() + (prefix@ + s@));
        }
        r
    }
}

impl ResponseData for Octal<i32> {
    /// `#Q` and the digits in base 8, with a `-` when negative.
    open spec fn response(&self) -> Option<Seq<u8>> {
        Some(seq![35u8, 81u8] + integer_text(self.0 as int, 8))
    }

    fn format_response_data<F: Formatter>(&self, formatter: &mut F) -> (r: Result<()>) {
        let prefix: &[u8] = &[35u8, 81u8];
        proof {
            assert(prefix@ == seq![35u8, 81u8]);
            lemma_extends_append(old(formatter).bytes(), prefix@);
        }
        let r1 = formatter.push_str(prefix);
        if r1.is_err() {
            return r1;
        }
        let ghost mid = formatter.bytes();
        let s = write_octal(self.0 as i128);
        let r = formatter.push_str(s.as_slice());
        proof {
            lemma_extends_append(mid, s@);
            lemma_extends_trans(old(formatter).bytes(), mid, formatter.bytes());
            assert(old(formatter).bytes() + prefix@ + s@ == old(formatter).bytes() + (prefix@ + s@));
        }
        r
    }
}

impl ResponseData for Binary<i32> {
    /// `#B` and the digits in base 2, with a `-` when negative.
    open spec fn response(&self) -> Option<Seq<u8>> {
        Some(seq![35u8, 66u8] + integer_text(self.0 as int, 2))
    }

    fn format_response_data<F: Formatter>(&self, formatter: &mut F) -> (r: Result<()>) {
        let prefix: &[u8] = &[35u8, 66u8];
        proof {
            assert(prefix@ == seq![35u8, 66u8]);
            lemma_extends_append(old(formatter).bytes(), prefix@);
        }
        let r1 = formatter.push_str(prefix);
        if r1.is_err() {
            return r1;
        }
        let ghost mid = formatter.bytes();
        let s = write_binary(self.0 as i128);
        let r = formatter.push_str(s.as_slice());
        proof {
            lemma_extends_append(mid, s@);
            lemma_extends_trans(old(formatter).bytes(), mid, formatter.bytes());
            assert(old(formatter).bytes() + prefix@ + s@ == old(formatter).bytes() + (prefix@ + s@));
        }
        r
    }
}

impl ResponseData for u64 {
    /// Decimal digits, with a `-` when negative.
    open spec fn response(&self) -> Option<Seq<u8>> {
        Some(integer_text(*self as int, 10))
    }

    fn format_response_data<F: Formatter>(&self, formatter: &mut F) -> (r: Result<()>) {
        let s = write_decimal(*self as i128);
        let r = formatter.push_str(s.as_slice());
        proof {
            lemma_extends_append(old(formatter).bytes(), s@);
        }
        r
    }
}

impl ResponseData for Hex<u64> {
    /// `#H` and the digits in base 16, with a `-` when negative.
    open spec fn response(&self) -> Option<Seq<u8>> {
        Some(seq![35u8, 72u8] + integer_text(self.0 as int, 16))
    }

    fn format_response_data<F: Formatter>(&self, formatter: &mut F) -> (r: Result<()>) {
        let prefix: &[u8] = &[35u8, 72u8];
        proof {
            assert(prefix@ == seq![35u8, 72u8]);
            lemma_extends_append(old(formatter).bytes(), prefix@);
        }
        let r1 = formatter.push_str(prefix);
        if r1.is_err() {
            return r1;
        }
        let ghost mid = formatter.bytes();
        let s = write_hex(self.0 as i128);
        let r = formatter.push_str(s.as_slice());
        proof {
            lemma_extends_append(mid, s@);
            lemma_extends_trans(old(formatter).bytes(), mid, formatter.bytes());
            assert(old(formatter).bytes() + prefix@ + s@ == old(formatter).bytes() + (prefix@ + s@));
        }
        r
    }
}

impl ResponseData for Octal<u64> {
    /// `#Q` and the digits in base 8, with a `-` when negative.
    open spec fn response(&self) -> Option<Seq<u8>> {
        Some(seq![35u8, 81u8] + integer_text(self.0 as int, 8))
    }

    fn format_response_data<F: Formatter>(&self, formatter: &mut F) -> (r: Result<()>) {
        let prefix: &[u8] = &[35u8, 81u8];
        proof {
            assert(prefix@ == seq![35u8, 81u8]);
            lemma_extends_append(old(formatter).bytes(), prefix@);
        }
        let r1 = formatter.push_str(prefix);
        if r1.is_err() {
            return r1;
        }
        let ghost mid = formatter.bytes();
        let s = write_octal(self.0 as i128);
        let r = formatter.push_str(s.as_slice());
        proof {
            lemma_extends_append(mid, s@);
            lemma_extends_trans(old(formatter).bytes(), mid, formatter.bytes());
            assert(old(formatter).bytes() + prefix@ + s@ == old(formatter).bytes() + (prefix@ + s@));
        }
        r
    }
}

impl ResponseData for Binary<u64> {
    /// `#B` and the digits in base 2, with a `-` when negative.
    open spec fn response(&self) -> Option<Seq<u8>> {
        Some(seq![35u8, 66u8] + integer_text(self.0 as int, 2))
    }

    fn format_response_data<F: Formatter>(&self, formatter: &mut F) -> (r: Result<()>) {
        let prefix: &[u8] = &[35u8, 66u8];
        proof {
            assert(prefix@ == seq![35u8, 66u8]);
            lemma_extends_append(old(formatter).bytes(), prefix@);
        }
        let r1 = formatter.push_str(prefix);
        if r1.is_err() {
            return r1;
        }
        let ghost mid = formatter.bytes();
        let s = write_binary(self.0 as i128);
        let r = formatter.push_str(s.as_slice());
        proof {
            lemma_extends_append(mid, s@);
            lemma_extends_trans(old(formatter).bytes(), mid, formatter.bytes());
            assert(old(formatter).bytes() + prefix@ + s@ == old(formatter).bytes() + (prefix@ + s@));
        }
        r
    }
}

impl ResponseData for i64 {
    /// Decimal digits, with a `-` when negative.
    open spec fn response(&self) -> Option<Seq<u8>> {
        Some(integer_text(*self as int, 10))
    }

    fn format_response_data<F: Formatter>(&self, formatter: &mut F) -> (r: Result<()>) {
        let s = write_decimal(*self as i128);
        let r = formatter.push_str(s.as_slice());
        proof {
            lemma_extends_append(old(formatter).bytes(), s@);
        }
        r
    }
}

impl ResponseData for Hex<i64> {
    /// `#H` and the digits in base 16, with a `-` when negative.
    open spec fn response(&self) -> Option<Seq<u8>> {
        Some(seq![35u8, 72u8] + integer_text(self.0 as int, 16))
    }

    fn format_response_data<F: Formatter>(&self, formatter: &mut F) -> (r: Result<()>) {
        let prefix: &[u8] = &[35u8, 72u8];
        proof {
            assert(prefix@ == seq![35u8, 72u8]);
            lemma_extends_append(old(formatter).bytes(), prefix@);
        }
        let r1 = formatter.push_str(prefix);
        if r1.is_err() {
            return r1;
        }
        let ghost mid = formatter.bytes();
        let s = write_hex(self.0 as i128);
        let r = formatter.push_str(s.as_slice());
        proof {
            lemma_extends_append(mid, s@);
            lemma_extends_trans(old(formatter).bytes(), mid, formatter.bytes());
            assert(old(formatter).bytes() + prefix@ + s@ == old(formatter).bytes() + (prefix@ + s@));
        }
        r
    }
}

impl ResponseData for Octal<i64> {
    /// `#Q` and the digits in base 8, with a `-` when negative.
    open spec fn response(&self) -> Option<Seq<u8>> {
        Some(seq![35u8, 81u8] + integer_text(self.0 as int, 8))
    }

    fn format_response_data<F: Formatter>(&self, formatter: &mut F) -> (r: Result<()>) {
        let prefix: &[u8] = &[35u8, 81u8];
        proof {
            assert(prefix@ == seq![35u8, 81u8]);
            lemma_extends_append(old(formatter).bytes(), prefix@);
        }
        let r1 = formatter.push_str(prefix);
        if r1.is_err() {
            return r1;
        }
        let ghost mid = formatter.bytes();
        let s = write_octal(self.0 as i128);
        let r = formatter.push_str(s.as_slice());
        proof {
            lemma_extends_append(mid, s@);
            lemma_extends_trans(old(formatter).bytes(), mid, formatter.bytes());
            assert(old(formatter).bytes() + prefix@ + s@ == old(formatter).bytes() + (prefix@ + s@));
        }
        r
    }
}

impl ResponseData for Binary<i64> {
    /// `#B` and the digits in base 2, with a `-` when negative.
    open spec fn response(&self) -> Option<Seq<u8>> {
        Some(seq![35u8, 66u8] + integer_text(self.0 as int, 2))
    }

    fn format_response_data<F: Formatter>(&self, formatter: &mut F) -> (r: Result<()>) {
        let prefix: &[u8] = &[35u8, 66u8];
        proof {
            assert(prefix@ == seq![35u8, 66u8]);
            lemma_extends_append(old(formatter).bytes(), prefix@);
        }
        let r1 = formatter.push_str(prefix);
        if r1.is_err() {
            return r1;
        }
        let ghost mid = formatter.bytes();
        let s = write_binary(self.0 as i128);
        let r = formatter.push_str(s.as_slice());
        proof {
            lemma_extends_append(mid, s@);
            lemma_extends_trans(old(formatter).bytes(), mid, formatter.bytes());
            assert(old(formatter).bytes() + prefix@ + s@ == old(formatter).bytes() + (prefix@ + s@));
        }
        r
    }
}

impl ResponseData for isize {
    /// Decimal digits, with a `-` when negative.
    open spec fn response(&self) -> Option<Seq<u8>> {
        Some(integer_text(*self as int, 10))
    }

    fn format_response_data<F: Formatter>(&self, formatter: &mut F) -> (r: Result<()>) {
        let s = write_decimal(*self as i128);
        let r = formatter.push_str(s.as_slice());
        proof {
            lemma_extends_append(old(formatter).bytes(), s@);
        }
        r
    }
}

impl ResponseData for Hex<isize> {
    /// `#H` and the digits in base 16, with a `-` when negative.
    open spec fn response(&self) -> Option<Seq<u8>> {
        Some(seq![35u8, 72u8] + integer_text(self.0 as int, 16))
    }

    fn format_response_data<F: Formatter>(&self, formatter: &mut F) -> (r: Result<()>) {
        let prefix: &[u8] = &[35u8, 72u8];
        proof {
            assert(prefix@ == seq![35u8, 72u8]);
            lemma_extends_append(old(formatter).bytes(), prefix@);
        }
        let r1 = formatter.push_str(prefix);
        if r1.is_err() {
            return r1;
        }
        let ghost mid = formatter.bytes();
        let s = write_hex(self.0 as i128);
        let r = formatter.push_str(s.as_slice());
        proof {
            lemma_extends_append(mid, s@);
            lemma_extends_trans(old(formatter).bytes(), mid, formatter.bytes());
            assert(old(formatter).bytes() + prefix@ + s@ == old(formatter).bytes() + (prefix@ + s@));
        }
        r
    }
}

impl ResponseData for Octal<isize> {
    /// `#Q` and the digits in base 8, with a `-` when negative.
    open spec fn response(&self) -> Option<Seq<u8>> {
        Some(seq![35u8, 81u8] + integer_text(self.0 as int, 8))
    }

    fn format_response_data<F: Formatter>(&self, formatter: &mut F) -> (r: Result<()>) {
        let prefix: &[u8] = &[35u8, 81u8];
        proof {
            assert(prefix@ == seq![35u8, 81u8]);
            lemma_extends_append(old(formatter).bytes(), prefix@);
        }
        let r1 = formatter.push_str(prefix);
        if r1.is_err() {
            return r1;
        }
        let ghost mid = formatter.bytes();
        let s = write_octal(self.0 as i128);
        let r = formatter.push_str(s.as_slice());
        proof {
            lemma_extends_append(mid, s@);
            lemma_extends_trans(old(formatter).bytes(), mid, formatter.bytes());
            assert(old(formatter).bytes() + prefix@ + s@ == old(formatter).bytes() + (prefix@ + s@));
        }
        r
    }
}

impl ResponseData for Binary<isize> {
    /// `#B` and the digits in base 2, with a `-` when negative.
    open spec fn response(&self) -> Option<Seq<u8>> {
        Some(seq![35u8, 66u8] + integer_text(self.0 as int, 2))
    }

    fn format_response_data<F: Formatter>(&self, formatter: &mut F) -> (r: Result<()>) {
        let prefix: &[u8] = &[35u8, 66u8];
        proof {
            assert(prefix@ == seq![35u8, 66u8]);
            lemma_extends_append(old(formatter).bytes(), prefix@);
        }
        let r1 = formatter.push_str(prefix);
        if r1.is_err() {
            return r1;
        }
        let ghost mid = formatter.bytes();
        let s = write_binary(self.0 as i128);
        let r = formatter.push_str(s.as_slice());
        proof {
            lemma_extends_append(mid, s@);
            lemma_extends_trans(old(formatter).bytes(), mid, formatter.bytes());
            assert(old(formatter).bytes() + prefix@ + s@ == old(formatter).bytes() + (prefix@ + s@));
        }
        r
    }
}

impl ResponseData for usize {
    /// Decimal digits, with a `-` when negative.
    open spec fn response(&self) -> Option<Seq<u8>> {
        Some(integer_text(*self as int, 10))
    }

    fn format_response_data<F: Formatter>(&self, formatter: &mut F) -> (r: Result<()>) {
        let s = write_decimal(*self as i128);
        let r = formatter.push_str(s.as_slice());
        proof {
            lemma_extends_append(old(formatter).bytes(), s@);
        }
        r
    }
}

impl ResponseData for Hex<usize> {
    /// `#H` and the digits in base 16, with a `-` when negative.
    open spec fn response(&self) -> Option<Seq<u8>> {
        Some(seq![35u8, 72u8] + integer_text(self.0 as int, 16))
    }

    fn format_response_data<F: Formatter>(&self, formatter: &mut F) -> (r: Result<()>) {
        let prefix: &[u8] = &[35u8, 72u8];
        proof {
            assert(prefix@ == seq![35u8, 72u8]);
            lemma_extends_append(old(formatter).bytes(), prefix@);
        }
        let r1 = formatter.push_str(prefix);
        if r1.is_err() {
            return r1;
        }
        let ghost mid = formatter.bytes();
        let s = write_hex(self.0 as i128);
        let r = formatter.push_str(s.as_slice());
        proof {
            lemma_extends_append(mid, s@);
            lemma_extends_trans(old(formatter).bytes(), mid, formatter.bytes());
            assert(old(formatter).bytes() + prefix@ + s@ == old(formatter).bytes() + (prefix@ + s@));
        }
        r
    }
}

impl ResponseData for Octal<usize> {
    /// `#Q` and the digits in base 8, with a `-` when negative.
    open spec fn response(&self) -> Option<Seq<u8>> {
        Some(seq![35u8, 81u8] + integer_text(self.0 as int, 8))
    }

    fn format_response_data<F: Formatter>(&self, formatter: &mut F) -> (r: Result<()>) {
        let prefix: &[u8] = &[35u8, 81u8];
        proof {
            assert(prefix@ == seq![35u8, 81u8]);
            lemma_extends_append(old(formatter).bytes(), prefix@);
        }
        let r1 = formatter.push_str(prefix);
        if r1.is_err() {
            return r1;
        }
        let ghost mid = formatter.bytes();
        let s = write_octal(self.0 as i128);
        let r = formatter.push_str(s.as_slice());
        proof {
            lemma_extends_append(mid, s@);
            lemma_extends_trans(old(formatter).bytes(), mid, formatter.bytes());
            assert(old(formatter).bytes() + prefix@ + s@ == old(formatter).bytes() + (prefix@ + s@));
        }
        r
    }
}

impl ResponseData for Binary<usize> {
    /// `#B` and the digits in base 2, with a `-` when negative.
    open spec fn response(&self) -> Option<Seq<u8>> {
        Some(seq![35u8, 66u8] + integer_text(self.0 as int, 2))
    }

    fn format_response_data<F: Formatter>(&self, formatter: &mut F) -> (r: Result<()>) {
        let prefix: &[u8] = &[35u8, 66u8];
        proof {
            assert(prefix@ == seq![35u8, 66u8]);
            lemma_extends_append(old(formatter).bytes(), prefix@);
        }
        let r1 = formatter.push_str(prefix);
        if r1.is_err() {
            return r1;
        }
        let ghost mid = formatter.bytes();
        let s = write_binary(self.0 as i128);
        let r = formatter.push_str(s.as_slice());
        proof {
            lemma_extends_append(mid, s@);
            lemma_extends_trans(old(formatter).bytes(), mid, formatter.bytes());
            assert(old(formatter).bytes() + prefix@ + s@ == old(formatter).bytes() + (prefix@ + s@));
        }
        r
    }
}

} // verus!

verus! {

impl ResponseData for bool {
    /// `1` or `0`.
    open spec fn response(&self) -> Option<Seq<u8>> {
        Some(if *self { seq![49u8] } else { seq![48u8] })
    }

    fn format_response_data<F: Formatter>(&self, formatter: &mut F) -> (r: Result<()>) {
        proof {
            lemma_extends_append(old(formatter).bytes(), seq![49u8]);
            lemma_extends_append(old(formatter).bytes(), seq![48u8]);
            assert(old(formatter).bytes().push(49u8) == old(formatter).bytes() + seq![49u8]);
            assert(old(formatter).bytes().push(48u8) == old(formatter).bytes() + seq![48u8]);
        }
        if *self {
            formatter.push_byte(49u8)
        } else {
            formatter.push_byte(48u8)
        }
    }
}

/// A definite length arbitrary block: `#`, the number of length digits,
/// the length in decimal and the bytes. A length of more than nine digits
/// cannot be written.
pub open spec fn arbitrary_block(data: Seq<u8>) -> Option<Seq<u8>> {
    let digits = integer_text(data.len() as int, 10);
    if digits.len() > 9 {
        None
    } else {
        Some(seq![35u8] + integer_text(digits.len() as int, 10) + digits + data)
    }
}

/// An arbitrary block as a response writes it is what the tokenizer reads
/// back as that block: after `#` comes the length digit, and the rest is a
/// [`block_input`] whose data is the block's.
pub proof fn lemma_arbitrary_block_reads_back(d: Seq<u8>)
    ensures
        arbitrary_block(d) matches Some(b) ==> {
            &&& b.len() >= 2
            &&& b[0] == 35
            &&& block_input(b[1], b.skip(2))
            &&& b.skip(2).skip(b[1] - 48) == d
        },
{
    let digits = integer_text(d.len() as int, 10);
    if digits.len() <= 9 {
        lemma_decimal_digits(d.len());
        let k = digits.len();
        assert(integer_text(k as int, 10) == seq![(48 + k) as u8]);
        let b = seq![35u8] + integer_text(k as int, 10) + digits + d;
        assert(b.skip(2) =~= digits + d);
        assert((digits + d).take(k as int) =~= digits);
        assert((digits + d).skip(k as int) =~= d);
    }
}

/// Appends `s`, keeping track of what was written before.
fn push_all<F: Formatter>(formatter: &mut F, s: &[u8]) -> (r: Result<()>)
    ensures
        r is Ok ==> final(formatter).bytes() == old(formatter).bytes() + s@,
        r is Err ==> final(formatter).bytes() == old(formatter).bytes(),
        extends(old(formatter).bytes(), final(formatter).bytes()),
{
    proof {
        lemma_extends_append(old(formatter).bytes(), s@);
    }
    formatter.push_str(s)
}

/// Appends `b`, keeping track of what was written before.
fn push_one<F: Formatter>(formatter: &mut F, b: u8) -> (r: Result<()>)
    ensures
        r is Ok ==> final(formatter).bytes() == old(formatter).bytes() + seq![b],
        r is Err ==> final(formatter).bytes() == old(formatter).bytes(),
        extends(old(formatter).bytes(), final(formatter).bytes()),
{
    proof {
        lemma_extends_append(old(formatter).bytes(), seq![b]);
        assert(old(formatter).bytes().push(b) == old(formatter).bytes() + seq![b]);
    }
    formatter.push_byte(b)
}

impl<'a> ResponseData for Arbitrary<'a> {
    open spec fn response(&self) -> Option<Seq<u8>> {
        arbitrary_block(self.0@)
    }

    /// A block too long to write is an execution error.
    fn format_response_data<F: Formatter>(&self, formatter: &mut F) -> (r: Result<()>)
        ensures
            self.response() is None ==> r == Err::<(), Error>(Error(ErrorCode::ExecutionError, None)),
    {
        let ghost b0 = formatter.bytes();
        proof {
            lemma_extends_append(b0, Seq::empty());
            assert(b0 + Seq::<u8>::empty() == b0);
        }
        let slc = write_decimal(self.0.len() as i128);
        if slc.len() > 9 {
            return Err(Error::new(ErrorCode::ExecutionError));
        }
        let r = push_one(formatter, 35u8);
        if r.is_err() {
            return r;
        }
        let ghost b1 = formatter.bytes();
        let n = write_decimal(slc.len() as i128);
        let r = push_all(formatter, n.as_slice());
        proof {
            lemma_extends_trans(b0, b1, formatter.bytes());
        }
        if r.is_err() {
            return r;
        }
        let ghost b2 = formatter.bytes();
        let r = push_all(formatter, slc.as_slice());
        proof {
            lemma_extends_trans(b0, b2, formatter.bytes());
        }
        if r.is_err() {
            return r;
        }
        let ghost b3 = formatter.bytes();
        let r = push_all(formatter, self.0);
        proof {
            lemma_extends_trans(b0, b3, formatter.bytes());
            assert(b0 + seq![35u8] + n@ + slc@ + self.0@ == b0 + (seq![35u8] + n@ + slc@ + self.0@));
        }
        r
    }
}

impl<'a> ResponseData for Character<'a> {
    /// The bytes as they are.
    open spec fn response(&self) -> Option<Seq<u8>> {
        Some(self.0@)
    }

    fn format_response_data<F: Formatter>(&self, formatter: &mut F) -> (r: Result<()>) {
        proof {
            lemma_extends_append(old(formatter).bytes(), self.0@);
        }
        formatter.push_ascii(self.0)
    }
}

impl<'a> ResponseData for Expression<'a> {
    /// The bytes in round brackets.
    open spec fn response(&self) -> Option<Seq<u8>> {
        Some(seq![40u8] + self.0@ + seq![41u8])
    }

    fn format_response_data<F: Formatter>(&self, formatter: &mut F) -> (r: Result<()>) {
        let ghost b0 = formatter.bytes();
        let r = push_one(formatter, 40u8);
        if r.is_err() {
            return r;
        }
        let ghost b1 = formatter.bytes();
        proof {
            lemma_extends_append(b1, self.0@);
        }
        let r = formatter.push_ascii(self.0);
        proof {
            lemma_extends_trans(b0, b1, formatter.bytes());
        }
        if r.is_err() {
            return r;
        }
        let ghost b2 = formatter.bytes();
        let r = push_one(formatter, 41u8);
        proof {
            lemma_extends_trans(b0, b2, formatter.bytes());
            assert(b0 + seq![40u8] + self.0@ + seq![41u8] == b0 + (seq![40u8] + self.0@ + seq![41u8]));
        }
        r
    }
}

impl<'a> ResponseData for &'a str {
    /// An arbitrary block holding the UTF-8 encoding.
    open spec fn response(&self) -> Option<Seq<u8>> {
        arbitrary_block(vstd::utf8::encode_utf8(self@))
    }

    fn format_response_data<F: Formatter>(&self, formatter: &mut F) -> (r: Result<()>) {
        Arbitrary(self.as_bytes()).format_response_data(formatter)
    }
}

/// All bytes are ASCII.
pub open spec fn all_ascii(s: Seq<u8>) -> bool {
    forall|i: int| 0 <= i < s.len() ==> s[i] < 128
}

/// `s` with every `"` doubled.
pub open spec fn escape_quotes(s: Seq<u8>) -> Seq<u8>
    decreases s.len(),
{
    if s.len() == 0 {
        s
    } else {
        escape_quotes(s.drop_last()) + if s.last() == 34 { seq![34u8, 34u8] } else { seq![s.last()] }
    }
}

/// String response data: the bytes in double quotes, inner quotes doubled.
pub open spec fn string_data(s: Seq<u8>) -> Option<Seq<u8>> {
    if all_ascii(s) {
        Some(seq![34u8] + escape_quotes(s) + seq![34u8])
    } else {
        None
    }
}

proof fn lemma_escape_push(s: Seq<u8>, i: int)
    requires
        0 <= i < s.len(),
    ensures
        escape_quotes(s.take(i + 1)) == escape_quotes(s.take(i))
            + if s[i] == 34 { seq![34u8, 34u8] } else { seq![s[i]] },
{
    assert(s.take(i + 1).drop_last() =~= s.take(i));
}

proof fn lemma_escape_plain(s: Seq<u8>, a: int, b: int)
    requires
        0 <= a <= b <= s.len(),
        forall|j: int| a <= j < b ==> s[j] != 34,
    ensures
        escape_quotes(s.take(b)) == escape_quotes(s.take(a)) + s.subrange(a, b),
    decreases b - a,
{
    if b > a {
        lemma_escape_plain(s, a, b - 1);
        lemma_escape_push(s, b - 1);
        assert(s.subrange(a, b) =~= s.subrange(a, b - 1).push(s[b - 1]));
        assert(escape_quotes(s.take(a)) + s.subrange(a, b - 1) + seq![s[b - 1]]
            =~= escape_quotes(s.take(a)) + s.subrange(a, b));
    } else {
        assert(s.subrange(a, b) =~= Seq::<u8>::empty());
        assert(escape_quotes(s.take(a)) + s.subrange(a, b) =~= escape_quotes(s.take(a)));
    }
}

/// Checks that all bytes are ASCII.
fn is_ascii(s: &[u8]) -> (b: bool)
    ensures
        b == all_ascii(s@),
{
    let mut i: usize = 0;
    while i < s.len()
        invariant
            i <= s@.len(),
            forall|j: int| 0 <= j < i ==> s@[j] < 128,
        decreases s@.len() - i,
    {
        if s[i] >= 128 {
            return false;
        }
        i += 1;
    }
    true
}

/// Writes `s` in double quotes with inner quotes doubled, one run of
/// quote-free bytes at a time.
fn push_quoted<F: Formatter>(formatter: &mut F, s: &[u8]) -> (r: Result<()>)
    ensures
        r is Ok ==> final(formatter).bytes() == old(formatter).bytes() + (seq![34u8] + escape_quotes(s@) + seq![34u8]),
        extends(old(formatter).bytes(), final(formatter).bytes()),
{
    let ghost b0 = formatter.bytes();
    let r = push_one(formatter, 34u8);
    if r.is_err() {
        return r;
    }
    let mut start: usize = 0;
    let mut i: usize = 0;
    proof {
        assert(s@.take(0) =~= Seq::<u8>::empty());
        assert(escape_quotes(s@.take(0)) =~= Seq::<u8>::empty());
        assert(formatter.bytes() == b0 + seq![34u8] + escape_quotes(s@.take(0)));
    }
    while i < s.len()
        invariant
            start <= i <= s@.len(),
            forall|j: int| start <= j < i ==> s@[j] != 34,
            formatter.bytes() == b0 + seq![34u8] + escape_quotes(s@.take(start as int)),
            extends(b0, formatter.bytes()),
            b0 == old(formatter).bytes(),
        decreases s@.len() - i,
    {
        if s[i] == 34 {
            let ghost before = formatter.bytes();
            let r = push_all(formatter, &s[start..i]);
            proof {
                lemma_extends_trans(b0, before, formatter.bytes());
            }
            if r.is_err() {
                return r;
            }
            let ghost mid = formatter.bytes();
            let quotes: &[u8] = &[34u8, 34u8];
            let r = push_all(formatter, quotes);
            proof {
                lemma_extends_trans(b0, mid, formatter.bytes());
            }
            if r.is_err() {
                return r;
            }
            proof {
                lemma_escape_plain(s@, start as int, i as int);
                lemma_escape_push(s@, i as int);
                assert(quotes@ == seq![34u8, 34u8]);
                assert(s@.subrange(start as int, i as int) == s@.subrange(start as int, i as int));
            }
            start = i + 1;
        }
        i += 1;
    }
    let ghost before = formatter.bytes();
    let r = push_all(formatter, &s[start..s.len()]);
    proof {
        lemma_extends_trans(b0, before, formatter.bytes());
    }
    if r.is_err() {
        return r;
    }
    proof {
        lemma_escape_plain(s@, start as int, s@.len() as int);
        assert(s@.take(s@.len() as int) =~= s@);
    }
    let ghost mid = formatter.bytes();
    let r = push_one(formatter, 34u8);
    proof {
        lemma_extends_trans(b0, mid, formatter.bytes());
    }
    r
}

impl<'a> ResponseData for &'a [u8] {
    /// String data, see [`string_data`]; bytes that are not ASCII cannot be
    /// written.
    open spec fn response(&self) -> Option<Seq<u8>> {
        string_data(self@)
    }

    /// Bytes that are not ASCII are an execution error.
    fn format_response_data<F: Formatter>(&self, formatter: &mut F) -> (r: Result<()>)
        ensures
            self.response() is None ==> r == Err::<(), Error>(Error(ErrorCode::ExecutionError, None)),
    {
        if !is_ascii(self) {
            proof {
                lemma_extends_append(old(formatter).bytes(), Seq::empty());
                assert(old(formatter).bytes() + Seq::<u8>::empty() == old(formatter).bytes());
            }
            Err(Error::new(ErrorCode::ExecutionError))
        } else {
            push_quoted(formatter, self)
        }
    }
}

} // verus!

verus! {

/// An error as response data: its code, a comma, then its message as string
/// data, or its message and extended message separated by `;` in double
/// quotes (not escaped) when it has an extended message.
pub open spec fn error_response(e: Error) -> Option<Seq<u8>> {
    let head = integer_text(e.0.code() as int, 10) + seq![44u8];
    match e.1 {
        Some(ext) => Some(head + (seq![34u8] + e.0.message() + seq![59u8] + ext@ + seq![34u8])),
        None => match string_data(e.0.message()) {
            Some(m) => Some(head + m),
            None => None,
        },
    }
}

impl ResponseData for Error {
    open spec fn response(&self) -> Option<Seq<u8>> {
        error_response(*self)
    }

    fn format_response_data<F: Formatter>(&self, formatter: &mut F) -> (r: Result<()>) {
        let ghost b0 = formatter.bytes();
        let code = self.get_code();
        let r = code.format_response_data(formatter);
        if r.is_err() {
            return r;
        }
        let ghost b1 = formatter.bytes();
        let r = push_one(formatter, RESPONSE_DATA_SEPARATOR);
        proof {
            lemma_extends_trans(b0, b1, formatter.bytes());
        }
        if r.is_err() {
            return r;
        }
        let ghost b2 = formatter.bytes();
        let msg = self.get_message();
        match self.get_extended() {
            Some(ext) => {
                let r = push_one(formatter, 34u8);
                proof {
                    lemma_extends_trans(b0, b2, formatter.bytes());
                }
                if r.is_err() {
                    return r;
                }
                let ghost b3 = formatter.bytes();
                let r = push_all(formatter, msg);
                proof {
                    lemma_extends_trans(b0, b3, formatter.bytes());
                }
                if r.is_err() {
                    return r;
                }
                let ghost b4 = formatter.bytes();
                let r = push_one(formatter, 59u8);
                proof {
                    lemma_extends_trans(b0, b4, formatter.bytes());
                }
                if r.is_err() {
                    return r;
                }
                let ghost b5 = formatter.bytes();
                let r = push_all(formatter, ext);
                proof {
                    lemma_extends_trans(b0, b5, formatter.bytes());
                }
                if r.is_err() {
                    return r;
                }
                let ghost b6 = formatter.bytes();
                let r = push_one(formatter, 34u8);
                proof {
                    lemma_extends_trans(b0, b6, formatter.bytes());
                    assert(b0 + integer_text(code as int, 10) + seq![44u8] + seq![34u8] + msg@ + seq![59u8] + ext@ + seq![34u8]
                        == b0 + (integer_text(code as int, 10) + seq![44u8] + (seq![34u8] + msg@ + seq![59u8] + ext@ + seq![34u8])));
                }
                r
            },
            None => {
                let r = msg.format_response_data(formatter);
                proof {
                    lemma_extends_trans(b0, b2, formatter.bytes());
                    if r is Ok {
                        assert(b0 + integer_text(code as int, 10) + seq![44u8] + string_data(msg@)->0
                            == b0 + (integer_text(code as int, 10) + seq![44u8] + string_data(msg@)->0));
                    }
                }
                r
            },
        }
    }
}

/// What [`ResponseUnit::data`] writes before the data: a comma after other
/// data, a space after a header, nothing at the start.
pub open spec fn data_prefix(has_header: bool, has_data: bool) -> Seq<u8> {
    if has_data {
        seq![RESPONSE_DATA_SEPARATOR]
    } else if has_header {
        seq![RESPONSE_HEADER_SEPARATOR]
    } else {
        Seq::empty()
    }
}

impl<'a, F: Formatter> ResponseUnit<'a, F> {
    /// Write a header mnemonic, after a `:` if a header was written before.
    pub fn header(&mut self, header: &[u8]) -> (r: &mut Self)
        requires
            !old(self).has_data,
        ensures
            r.has_header,
            r.has_data == old(self).has_data,
            old(self).result is Err ==> r.result == old(self).result && r.fmt.bytes() == old(self).fmt.bytes(),
            old(self).result is Ok && r.result is Ok ==> r.fmt.bytes() == old(self).fmt.bytes()
                + (if old(self).has_header { seq![58u8] } else { Seq::empty() }) + header@,
            extends(old(self).fmt.bytes(), r.fmt.bytes()),
            *final(self) == *final(r),
    {
        let ghost b0 = self.fmt.bytes();
        proof {
            lemma_extends_append(b0, Seq::empty());
            assert(b0 + Seq::<u8>::empty() == b0);
        }
        if self.result.is_ok() {
            if self.has_header {
                self.result = push_one(self.fmt, 58u8);
            }
            if self.result.is_ok() {
                let ghost b1 = self.fmt.bytes();
                self.result = push_all(self.fmt, header);
                proof {
                    lemma_extends_trans(b0, b1, self.fmt.bytes());
                    assert(b0 + Seq::<u8>::empty() + header@ == b0 + header@);
                }
            }
        }
        self.has_header = true;
        self
    }

    /// Write response data, after a `,` if data was written before or a
    /// space after a header.
    pub fn data<U: ResponseData>(&mut self, data: U) -> (r: &mut Self)
        ensures
            r.has_data,
            r.has_header == old(self).has_header,
            old(self).result is Err ==> r.result == old(self).result && r.fmt.bytes() == old(self).fmt.bytes(),
            old(self).result is Ok && r.result is Ok ==> data.response() is Some
                && r.fmt.bytes() == old(self).fmt.bytes() + data_prefix(old(self).has_header, old(self).has_data)
                    + data.response()->0,
            old(self).result is Ok && data.response() is None ==> r.result is Err,
            extends(old(self).fmt.bytes(), r.fmt.bytes()),
            *final(self) == *final(r),
    {
        let ghost b0 = self.fmt.bytes();
        proof {
            lemma_extends_append(b0, Seq::empty());
            assert(b0 + Seq::<u8>::empty() == b0);
        }
        if self.result.is_ok() {
            if self.has_data {
                self.result = push_one(self.fmt, RESPONSE_DATA_SEPARATOR);
            } else if self.has_header {
                self.result = push_one(self.fmt, RESPONSE_HEADER_SEPARATOR);
            }
            if self.result.is_ok() {
                let ghost b1 = self.fmt.bytes();
                self.result = data.format_response_data(self.fmt);
                proof {
                    lemma_extends_trans(b0, b1, self.fmt.bytes());
                }
            }
        }
        self.has_data = true;
        self
    }

    /// The outcome of the unit: the first error, if any.
    pub fn finish(&mut self) -> (r: Result<()>)
        ensures
            r == old(self).result,
            *final(self) == *old(self),
    {
        self.result
    }
}

} // verus!

verus! {

/// The unit `after` is `before` with `data` written: when neither has
/// failed, the formatter gained the data prefix and `data`.
pub open spec fn responds<'a, F: Formatter>(before: ResponseUnit<'a, F>, after: ResponseUnit<'a, F>, data: Seq<u8>) -> bool {
    before.result is Ok && after.result is Ok ==> after.fmt.bytes() == before.fmt.bytes()
        + data_prefix(before.has_header, before.has_data) + data
}

} // verus!

verus! {

impl<T> ResponseData for T where T: crate::option::ScpiEnum {
    /// The leading upper case letters of the variant's mnemonic.
    open spec fn response(&self) -> Option<Seq<u8>> {
        Some(self.mnemonic_text().take(
            crate::parser::util::span(self.mnemonic_text(), crate::parser::util::class_pred(crate::parser::util::CharClass::Upper)) as int,
        ))
    }

    fn format_response_data<F: Formatter>(&self, formatter: &mut F) -> (r: Result<()>) {
        let mnemonic = self.mnemonic();
        let len = crate::parser::util::scan(mnemonic, 0, crate::parser::util::CharClass::Upper);
        proof {
            assert(mnemonic@.skip(0) == mnemonic@);
        }
        push_all(formatter, &mnemonic[0..len])
    }
}

} // verus!

verus! {

/// The byte strings of `parts`, one after the other.
pub open spec fn concat(parts: Seq<&[u8]>) -> Seq<u8>
    decreases parts.len(),
{
    if parts.len() == 0 {
        Seq::empty()
    } else {
        concat(parts.drop_last()) + parts.last()@
    }
}

pub proof fn lemma_concat_push(parts: Seq<&[u8]>, p: &[u8])
    ensures
        concat(parts.push(p)) == concat(parts) + p@,
{
    assert(parts.push(p).drop_last() =~= parts);
}

/// The parts joined into one byte string.
pub fn join_parts(parts: &Vec<&[u8]>) -> (v: Vec<u8>)
    ensures
        v@ == concat(parts@),
{
    let mut v: Vec<u8> = Vec::new();
    let mut i: usize = 0;
    proof {
        assert(parts@.take(0) =~= Seq::<&[u8]>::empty());
    }
    while i < parts.len()
        invariant
            i <= parts@.len(),
            v@ == concat(parts@.take(i as int)),
        decreases parts@.len() - i,
    {
        let ghost before = v@;
        v.extend_from_slice(parts[i]);
        proof {
            assert(v@ =~= before + parts@[i as int]@);
            assert(parts@.take(i + 1) =~= parts@.take(i as int).push(parts@[i as int]));
            lemma_concat_push(parts@.take(i as int), parts@[i as int]);
        }
        i += 1;
    }
    proof {
        assert(parts@.take(parts@.len() as int) =~= parts@);
    }
    v
}


} // verus!
