use scpi::error::{Error, ErrorCode};
use scpi::parser::suffix::Amplitude;
use scpi::parser::token::Token;

/// A voltage, kept as the text of its number.
#[derive(Debug, PartialEq)]
struct Volts<'a>(&'a [u8]);

impl<'a> TryFrom<Token<'a>> for Volts<'a> {
    type Error = Error;

    fn try_from(value: Token<'a>) -> Result<Self, Error> {
        match value {
            Token::DecimalNumericProgramData(n) => Ok(Volts(n)),
            Token::DecimalNumericSuffixProgramData(n, s) if s.eq_ignore_ascii_case(b"V") => {
                Ok(Volts(n))
            }
            Token::DecimalNumericSuffixProgramData(_, _) => {
                Err(ErrorCode::IllegalParameterValue.into())
            }
            _ => Err(ErrorCode::DataTypeError.into()),
        }
    }
}

#[test]
fn test_suffix_amplitude() {
    let none: Amplitude<Volts> = Token::DecimalNumericSuffixProgramData(b"1.0", b"V")
        .try_into()
        .unwrap();
    assert!(matches!(none, Amplitude::Unspecified(_)));
    let peak: Amplitude<Volts> = Token::DecimalNumericSuffixProgramData(b"1.0", b"VPK")
        .try_into()
        .unwrap();
    assert!(matches!(peak, Amplitude::Peak(_)));
    let peak_to_peak: Amplitude<Volts> = Token::DecimalNumericSuffixProgramData(b"1.0", b"VPP")
        .try_into()
        .unwrap();
    assert!(matches!(peak_to_peak, Amplitude::PeakToPeak(_)));
    let rms: Amplitude<Volts> = Token::DecimalNumericSuffixProgramData(b"1.0", b"VRMS")
        .try_into()
        .unwrap();
    assert!(matches!(rms, Amplitude::Rms(_)))
}

#[test]
fn amplitude_hands_the_rest_to_the_unit() {
    let rms: Result<Amplitude<Volts>, Error> =
        Token::DecimalNumericSuffixProgramData(b"2.5", b"vrms").try_into();
    assert!(matches!(rms, Ok(Amplitude::Rms(Volts(b"2.5")))));
    let plain: Result<Amplitude<Volts>, Error> = Token::DecimalNumericProgramData(b"3").try_into();
    assert!(matches!(plain, Ok(Amplitude::Unspecified(Volts(b"3")))));
    // The unit refuses what is left of the suffix.
    let bad: Result<Amplitude<Volts>, Error> =
        Token::DecimalNumericSuffixProgramData(b"1", b"APK").try_into();
    assert!(matches!(bad, Err(Error(ErrorCode::IllegalParameterValue, None))));
    // A bare "PK" leaves an empty suffix to the unit.
    let empty: Result<Amplitude<Volts>, Error> =
        Token::DecimalNumericSuffixProgramData(b"1", b"PK").try_into();
    assert!(matches!(empty, Err(Error(ErrorCode::IllegalParameterValue, None))));
    let string: Result<Amplitude<Volts>, Error> = Token::StringProgramData(b"x").try_into();
    assert!(matches!(string, Err(Error(ErrorCode::DataTypeError, None))));
}
