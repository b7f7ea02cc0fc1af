//! SCPI tokens, loosely based on IEEE 488.2 chapter 7.

use vstd::prelude::*;

use super::util::{mnemonic_match, mnemonic_matches};

verus! {

/// SCPI tokens
/// Loosely based on IEEE488.2 Chapter 7
#[derive(Debug, PartialEq, Eq, Copy, Clone)]
pub enum Token<'a> {
    /// A header mnemonic separator `:`
    HeaderMnemonicSeparator,
    /// A header query suffix `?`
    HeaderQuerySuffix,
    /// A message unit separator `;`
    ProgramMessageUnitSeparator,
    /// A Program header separator ` `
    ProgramHeaderSeparator,
    /// A program data separator ','
    ProgramDataSeparator,
    /// A program mnemonic
    ProgramMnemonic(&'a [u8]),
    /// A <CHARACTER PROGRAM DATA> 7.7.1
    CharacterProgramData(&'a [u8]),
    /// A <DECIMAL NUMERIC PROGRAM DATA> 7.7.2
    DecimalNumericProgramData(&'a [u8]),
    /// A <DECIMAL NUMERIC PROGRAM DATA> 7.7.2 followed by a <SUFFIX PROGRAM DATA> 7.7.3
    DecimalNumericSuffixProgramData(&'a [u8], &'a [u8]),
    /// A <NONDECIMAL NUMERIC PROGRAM DATA> 7.7.4
    NonDecimalNumericProgramData(u64),
    /// A <STRING PROGRAM DATA> 7.7.5
    StringProgramData(&'a [u8]),
    /// A <ARBITRARY BLOCK PROGRAM DATA> 7.7.6
    ArbitraryBlockData(&'a [u8]),
    /// A <EXPRESSION PROGRAM DATA> 7.7.7
    ExpressionProgramData(&'a [u8]),
}

/// The mathematical value of a [`Token`]: its byte strings as sequences.
pub enum SpecToken {
    HeaderMnemonicSeparator,
    HeaderQuerySuffix,
    ProgramMessageUnitSeparator,
    ProgramHeaderSeparator,
    ProgramDataSeparator,
    ProgramMnemonic(Seq<u8>),
    CharacterProgramData(Seq<u8>),
    DecimalNumericProgramData(Seq<u8>),
    DecimalNumericSuffixProgramData(Seq<u8>, Seq<u8>),
    NonDecimalNumericProgramData(u64),
    StringProgramData(Seq<u8>),
    ArbitraryBlockData(Seq<u8>),
    ExpressionProgramData(Seq<u8>),
}

impl<'a> View for Token<'a> {
    type V = SpecToken;

    open spec fn view(&self) -> SpecToken {
        match *self {
            Token::HeaderMnemonicSeparator => SpecToken::HeaderMnemonicSeparator,
            Token::HeaderQuerySuffix => SpecToken::HeaderQuerySuffix,
            Token::ProgramMessageUnitSeparator => SpecToken::ProgramMessageUnitSeparator,
            Token::ProgramHeaderSeparator => SpecToken::ProgramHeaderSeparator,
            Token::ProgramDataSeparator => SpecToken::ProgramDataSeparator,
            Token::ProgramMnemonic(s) => SpecToken::ProgramMnemonic(s@),
            Token::CharacterProgramData(s) => SpecToken::CharacterProgramData(s@),
            Token::DecimalNumericProgramData(s) => SpecToken::DecimalNumericProgramData(s@),
            Token::DecimalNumericSuffixProgramData(s, u) => SpecToken::DecimalNumericSuffixProgramData(s@, u@),
            Token::NonDecimalNumericProgramData(v) => SpecToken::NonDecimalNumericProgramData(v),
            Token::StringProgramData(s) => SpecToken::StringProgramData(s@),
            Token::ArbitraryBlockData(s) => SpecToken::ArbitraryBlockData(s@),
            Token::ExpressionProgramData(s) => SpecToken::ExpressionProgramData(s@),
        }
    }
}

impl SpecToken {
    /// Program data: character, decimal (with or without suffix),
    /// non-decimal, string, arbitrary block or expression data.
    pub open spec fn is_data(self) -> bool {
        match self {
            SpecToken::CharacterProgramData(_) | SpecToken::DecimalNumericProgramData(_)
            | SpecToken::DecimalNumericSuffixProgramData(_, _)
            | SpecToken::NonDecimalNumericProgramData(_) | SpecToken::StringProgramData(_)
            | SpecToken::ArbitraryBlockData(_) | SpecToken::ExpressionProgramData(_) => true,
            _ => false,
        }
    }

    /// A program mnemonic matching `mnemonic`; no other token matches.
    pub open spec fn matches_header(self, mnemonic: Seq<u8>) -> bool {
        match self {
            SpecToken::ProgramMnemonic(s) => mnemonic_matches(mnemonic, s),
            _ => false,
        }
    }
}

impl<'a> Token<'a> {
    /// True for program data tokens.
    pub fn is_data(&self) -> (b: bool)
        ensures
            b == self@.is_data(),
    {
        match self {
            Token::CharacterProgramData(_) | Token::DecimalNumericProgramData(_)
            | Token::DecimalNumericSuffixProgramData(_, _) | Token::NonDecimalNumericProgramData(_)
            | Token::StringProgramData(_) | Token::ArbitraryBlockData(_)
            | Token::ExpressionProgramData(_) => true,
            _ => false,
        }
    }

    /// Returns true if token is a ProgramMnemonic that matches provided mnemonic.
    /// Header suffix is optional if equal to 1 or not present in mnemonic.
    /// Header suffixes other than 1 must match exactly.
    ///
    /// Eg:
    /// - `head[er]` == `HEADer`
    /// - `head[er]1` == `HEADer`
    /// - `head[er]` == `HEADer1`
    /// - `head[er]<N>` == `HEADer<N>`
    /// Where `[]` marks optional, `<>` required.
    pub fn match_program_header(&self, mnemonic: &[u8]) -> (b: bool)
        ensures
            b == self@.matches_header(mnemonic@),
    {
        match self {
            Token::ProgramMnemonic(s) => mnemonic_match(mnemonic, s),
            _ => false,
        }
    }
}

} // verus!
