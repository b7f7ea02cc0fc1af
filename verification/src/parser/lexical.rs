//! Number parsing through the `lexical-core` crate.
//!
//! What `lexical-core` returns is named by the uninterpreted functions below;
//! the wrappers state the few facts about it that the crate's source shows
//! and that the parser relies on.

use vstd::prelude::*;

verus! {

/// The failure kinds of `lexical_core::Error` that this crate tells apart.
#[derive(Debug, Clone, Copy, PartialEq, Eq)]
pub enum NumberError {
    /// `lexical_core::Error::Empty`: no digits after an optional sign.
    Empty,
    /// `lexical_core::Error::InvalidDigit`
    InvalidDigit,
    /// `lexical_core::Error::Overflow`
    Overflow,
    /// `lexical_core::Error::Underflow`
    Underflow,
    /// Any other `lexical_core::Error`.
    Other,
}

/// `lexical_core::NumberFormatBuilder::from_radix(16)`: the standard number
/// format (exponent digits and mantissa digits required, nothing else set)
/// with mantissa radix, exponent base and exponent radix 16.
const HEX_FORMAT: u128 = 0x1010_1000_0000_0000_0000_0000_0000_000c;

/// `lexical_core::NumberFormatBuilder::from_radix(8)`, see [`HEX_FORMAT`].
const OCTAL_FORMAT: u128 = 0x0808_0800_0000_0000_0000_0000_0000_000c;

/// `lexical_core::NumberFormatBuilder::from_radix(2)`, see [`HEX_FORMAT`].
const BINARY_FORMAT: u128 = 0x0202_0200_0000_0000_0000_0000_0000_000c;

/// What `lexical_core::parse_partial_with_options::<u64, FORMAT>` returns on
/// `bytes` when `FORMAT` is the standard format with the given radix.
pub uninterp spec fn lexical_partial_u64(bytes: Seq<u8>, radix: u32) -> Result<(u64, usize), NumberError>;

/// What `lexical_core::parse_partial::<isize>` returns on `bytes`.
pub uninterp spec fn lexical_partial_isize(bytes: Seq<u8>) -> Result<(isize, usize), NumberError>;

/// What `lexical_core::parse::<usize>` returns on `bytes`.
pub uninterp spec fn lexical_usize(bytes: Seq<u8>) -> Result<usize, NumberError>;

/// Calls `lexical_core::parse_partial_with_options::<u64, _>` with the
/// standard format in radix 16. The number of bytes it reports as read never
/// exceeds the input (the partial parser stops at the end of the input).
#[verifier::external_body]
pub(crate) fn parse_partial_hex(bytes: &[u8]) -> (r: Result<(u64, usize), NumberError>)
    ensures
        r == lexical_partial_u64(bytes@, 16),
        r matches Ok((_, n)) ==> n <= bytes@.len(),
{
    match lexical_core::parse_partial_with_options::<u64, HEX_FORMAT>(bytes, &lexical_core::ParseIntegerOptions::new()) {
        Ok(v) => Ok(v),
        Err(lexical_core::Error::Empty(_)) => Err(NumberError::Empty),
        Err(lexical_core::Error::InvalidDigit(_)) => Err(NumberError::InvalidDigit),
        Err(lexical_core::Error::Overflow(_)) => Err(NumberError::Overflow),
        Err(lexical_core::Error::Underflow(_)) => Err(NumberError::Underflow),
        Err(_) => Err(NumberError::Other),
    }
}

/// Calls `lexical_core::parse_partial_with_options::<u64, _>` with the
/// standard format in radix 8. The number of bytes it reports as read never
/// exceeds the input.
#[verifier::external_body]
pub(crate) fn parse_partial_octal(bytes: &[u8]) -> (r: Result<(u64, usize), NumberError>)
    ensures
        r == lexical_partial_u64(bytes@, 8),
        r matches Ok((_, n)) ==> n <= bytes@.len(),
{
    match lexical_core::parse_partial_with_options::<u64, OCTAL_FORMAT>(bytes, &lexical_core::ParseIntegerOptions::new()) {
        Ok(v) => Ok(v),
        Err(lexical_core::Error::Empty(_)) => Err(NumberError::Empty),
        Err(lexical_core::Error::InvalidDigit(_)) => Err(NumberError::InvalidDigit),
        Err(lexical_core::Error::Overflow(_)) => Err(NumberError::Overflow),
        Err(lexical_core::Error::Underflow(_)) => Err(NumberError::Underflow),
        Err(_) => Err(NumberError::Other),
    }
}

/// Calls `lexical_core::parse_partial_with_options::<u64, _>` with the
/// standard format in radix 2. The number of bytes it reports as read never
/// exceeds the input.
#[verifier::external_body]
pub(crate) fn parse_partial_binary(bytes: &[u8]) -> (r: Result<(u64, usize), NumberError>)
    ensures
        r == lexical_partial_u64(bytes@, 2),
        r matches Ok((_, n)) ==> n <= bytes@.len(),
{
    match lexical_core::parse_partial_with_options::<u64, BINARY_FORMAT>(bytes, &lexical_core::ParseIntegerOptions::new()) {
        Ok(v) => Ok(v),
        Err(lexical_core::Error::Empty(_)) => Err(NumberError::Empty),
        Err(lexical_core::Error::InvalidDigit(_)) => Err(NumberError::InvalidDigit),
        Err(lexical_core::Error::Overflow(_)) => Err(NumberError::Overflow),
        Err(lexical_core::Error::Underflow(_)) => Err(NumberError::Underflow),
        Err(_) => Err(NumberError::Other),
    }
}

/// Calls `lexical_core::parse_partial::<isize>`. The number of bytes it
/// reports as read never exceeds the input, and is at least one when the
/// input starts with a decimal digit or a sign (the sign is read before any
/// digit, and an input holding nothing after the sign is an error).
#[verifier::external_body]
pub(crate) fn parse_partial_isize(bytes: &[u8]) -> (r: Result<(isize, usize), NumberError>)
    ensures
        r == lexical_partial_isize(bytes@),
        r matches Ok((_, n)) ==> n <= bytes@.len(),
        r matches Ok((_, n)) ==> (bytes@.len() > 0 && (48 <= bytes@[0] <= 57 || bytes@[0] == 43
            || bytes@[0] == 45) ==> n >= 1),
{
    match lexical_core::parse_partial::<isize>(bytes) {
        Ok(v) => Ok(v),
        Err(lexical_core::Error::Empty(_)) => Err(NumberError::Empty),
        Err(lexical_core::Error::InvalidDigit(_)) => Err(NumberError::InvalidDigit),
        Err(lexical_core::Error::Overflow(_)) => Err(NumberError::Overflow),
        Err(lexical_core::Error::Underflow(_)) => Err(NumberError::Underflow),
        Err(_) => Err(NumberError::Other),
    }
}

/// `r` is the `usize` whose decimal text `bytes` is, where it is one.
pub open spec fn usize_reads_back(bytes: Seq<u8>, r: Result<usize, NumberError>) -> bool {
    forall|k: usize| #[trigger] decimal_text(k as int) == bytes ==> r == Ok::<usize, NumberError>(k)
}

/// Calls `lexical_core::parse::<usize>`, the complete decimal parser. It
/// reads back what `lexical_core::write` writes: the decimal text of a
/// `usize` is read as that number.
#[verifier::external_body]
pub(crate) fn parse_usize(bytes: &[u8]) -> (r: Result<usize, NumberError>)
    ensures
        r == lexical_usize(bytes@),
        usize_reads_back(bytes@, r),
{
    match lexical_core::parse::<usize>(bytes) {
        Ok(v) => Ok(v),
        Err(lexical_core::Error::Empty(_)) => Err(NumberError::Empty),
        Err(lexical_core::Error::InvalidDigit(_)) => Err(NumberError::InvalidDigit),
        Err(lexical_core::Error::Overflow(_)) => Err(NumberError::Overflow),
        Err(lexical_core::Error::Underflow(_)) => Err(NumberError::Underflow),
        Err(_) => Err(NumberError::Other),
    }
}

} // verus!

verus! {

/// What `lexical_core::parse::<i128>` returns on `bytes`.
pub uninterp spec fn lexical_i128(bytes: Seq<u8>) -> Result<i128, NumberError>;

/// `r` is the number whose decimal text `bytes` is, where it is one.
pub open spec fn reads_back(bytes: Seq<u8>, r: Result<i128, NumberError>) -> bool {
    forall|k: i128| #[trigger] decimal_text(k as int) == bytes ==> r == Ok::<i128, NumberError>(k)
}

/// Calls `lexical_core::parse::<i128>`, the complete (not partial) decimal
/// parser: an optional sign followed by decimal digits, and nothing else.
/// It reads back what `lexical_core::write` writes: the decimal text of an
/// `i128` (a `-` for a negative number, then its digits, as
/// [`integer_text`] gives it) is read as that number.
#[verifier::external_body]
pub(crate) fn parse_i128(bytes: &[u8]) -> (r: Result<i128, NumberError>)
    ensures
        r == lexical_i128(bytes@),
        reads_back(bytes@, r),
{
    match lexical_core::parse::<i128>(bytes) {
        Ok(v) => Ok(v),
        Err(lexical_core::Error::Empty(_)) => Err(NumberError::Empty),
        Err(lexical_core::Error::InvalidDigit(_)) => Err(NumberError::InvalidDigit),
        Err(lexical_core::Error::Overflow(_)) => Err(NumberError::Overflow),
        Err(lexical_core::Error::Underflow(_)) => Err(NumberError::Underflow),
        Err(_) => Err(NumberError::Other),
    }
}

} // verus!

verus! {

/// The digits of `n` in base `radix`, most significant first, with `A`-`Z`
/// for digits above 9; `0` is written as one digit.
pub open spec fn radix_digits(n: nat, radix: nat) -> Seq<u8>
    recommends
        2 <= radix <= 36,
    decreases n,
{
    let d = (n % radix) as u8;
    let c: u8 = if d < 10 { (48 + d) as u8 } else { (55 + d) as u8 };
    if n < radix || radix < 2 {
        seq![c]
    } else {
        proof {
            assert(n / radix < n) by (nonlinear_arith)
                requires
                    n >= radix,
                    radix >= 2,
            ;
        }
        radix_digits(n / radix, radix).push(c)
    }
}

/// An integer as decimal text, see [`integer_text`].
pub open spec fn decimal_text(n: int) -> Seq<u8> {
    integer_text(n, 10)
}

/// An integer as text in base `radix`: a `-` for a negative number, then
/// the digits of its magnitude.
pub open spec fn integer_text(n: int, radix: nat) -> Seq<u8> {
    if n < 0 {
        seq![45u8] + radix_digits((-n) as nat, radix)
    } else {
        radix_digits(n as nat, radix)
    }
}

/// Calls `lexical_core::write::<i128>`, which writes an integer in decimal
/// with a leading `-` when it is negative.
#[verifier::external_body]
pub(crate) fn write_decimal(n: i128) -> (r: Vec<u8>)
    ensures
        r@ == integer_text(n as int, 10),
{
    let mut buf = [48u8; 64];
    lexical_core::write::<i128>(n, &mut buf).to_vec()
}

/// Calls `lexical_core::write_with_options::<i128, _>` with the standard
/// format in radix 16: a leading `-` when negative, then the hexadecimal
/// digits with upper-case letters.
#[verifier::external_body]
pub(crate) fn write_hex(n: i128) -> (r: Vec<u8>)
    ensures
        r@ == integer_text(n as int, 16),
{
    let mut buf = [48u8; 256];
    let options = lexical_core::WriteIntegerOptions::new();
    lexical_core::write_with_options::<i128, HEX_FORMAT>(n, &mut buf, &options).to_vec()
}

/// Calls `lexical_core::write_with_options::<i128, _>` with the standard
/// format in radix 8: a leading `-` when negative, then the octal digits.
#[verifier::external_body]
pub(crate) fn write_octal(n: i128) -> (r: Vec<u8>)
    ensures
        r@ == integer_text(n as int, 8),
{
    let mut buf = [48u8; 256];
    let options = lexical_core::WriteIntegerOptions::new();
    lexical_core::write_with_options::<i128, OCTAL_FORMAT>(n, &mut buf, &options).to_vec()
}

/// Calls `lexical_core::write_with_options::<i128, _>` with the standard
/// format in radix 2: a leading `-` when negative, then the binary digits.
#[verifier::external_body]
pub(crate) fn write_binary(n: i128) -> (r: Vec<u8>)
    ensures
        r@ == integer_text(n as int, 2),
{
    let mut buf = [48u8; 256];
    let options = lexical_core::WriteIntegerOptions::new();
    lexical_core::write_with_options::<i128, BINARY_FORMAT>(n, &mut buf, &options).to_vec()
}

/// The decimal digits of a number start with a digit.
pub proof fn lemma_decimal_digits(n: nat)
    ensures
        radix_digits(n, 10).len() > 0,
        48 <= radix_digits(n, 10)[0] <= 57,
    decreases n,
{
    if n >= 10 {
        assert(n / 10 < n);
        lemma_decimal_digits(n / 10);
        assert(radix_digits(n, 10) == radix_digits(n / 10, 10).push(radix_digits(n, 10).last()));
    }
}

/// The decimal digits of a number are digits only.
pub proof fn lemma_decimal_digits_all(n: nat)
    ensures
        forall|i: int| 0 <= i < radix_digits(n, 10).len() ==> 48 <= #[trigger] radix_digits(n, 10)[i] <= 57,
    decreases n,
{
    assert(n % 10 < 10) by (nonlinear_arith);
    let c: u8 = (48 + (n % 10) as u8) as u8;
    if n >= 10 {
        assert(n / 10 < n);
        lemma_decimal_digits_all(n / 10);
        assert(radix_digits(n, 10) == radix_digits(n / 10, 10).push(c));
    } else {
        assert(radix_digits(n, 10) == seq![c]);
    }
}

} // verus!
