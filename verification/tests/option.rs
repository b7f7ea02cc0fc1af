use scpi::error::{Error, ErrorCode};
use scpi::option::ScpiEnum;
use scpi::parser::mnemonic_match;
use scpi::parser::response::ResponseData;
use scpi::parser::token::Token;
use scpi::scpi1999::unit::{AngleUnit, TemperatureUnit, TimeUnit, VoltageUnit};

#[derive(Copy, Clone, PartialEq, Debug)]
enum MyEnum {
    Binary,
    Real,
    Ascii1,
    Ascii2,
    L125,
}

impl ScpiEnum for MyEnum {
    fn from_mnemonic(s: &[u8]) -> Option<Self> {
        if mnemonic_match(b"BINary", s) {
            Some(MyEnum::Binary)
        } else if mnemonic_match(b"REAL", s) {
            Some(MyEnum::Real)
        } else if mnemonic_match(b"ASCii1", s) {
            Some(MyEnum::Ascii1)
        } else if mnemonic_match(b"ASCii2", s) {
            Some(MyEnum::Ascii2)
        } else if mnemonic_match(b"L125", s) {
            Some(MyEnum::L125)
        } else {
            None
        }
    }

    fn mnemonic(&self) -> &'static [u8] {
        match self {
            MyEnum::Binary => b"BINary",
            MyEnum::Real => b"REAL",
            MyEnum::Ascii1 => b"ASCii1",
            MyEnum::Ascii2 => b"ASCii2",
            MyEnum::L125 => b"L125",
        }
    }
}

impl<'a> TryFrom<Token<'a>> for MyEnum {
    type Error = Error;

    fn try_from(value: Token<'a>) -> Result<Self, Error> {
        match value {
            Token::CharacterProgramData(s) => {
                Self::from_mnemonic(s).ok_or_else(|| ErrorCode::IllegalParameterValue.into())
            }
            _ => Err(ErrorCode::DataTypeError.into()),
        }
    }
}

#[test]
fn test_enum() {
    assert_eq!(MyEnum::from_mnemonic(b"real"), Some(MyEnum::Real));
    assert_eq!(MyEnum::from_mnemonic(b"bin"), Some(MyEnum::Binary));
    assert_eq!(MyEnum::from_mnemonic(b"AsCiI"), Some(MyEnum::Ascii1));
    assert_eq!(MyEnum::from_mnemonic(b"L125"), Some(MyEnum::L125));
    assert_eq!(MyEnum::from_mnemonic(b"L1"), None);
    assert_eq!(MyEnum::from_mnemonic(b"potato"), None);
}

#[test]
fn test_enum_num() {
    assert_eq!(MyEnum::from_mnemonic(b"ascii"), Some(MyEnum::Ascii1));
    assert_eq!(MyEnum::from_mnemonic(b"ascii1"), Some(MyEnum::Ascii1));
    assert_eq!(MyEnum::from_mnemonic(b"ascii2"), Some(MyEnum::Ascii2));
    assert_eq!(MyEnum::from_mnemonic(b"bin1"), Some(MyEnum::Binary));
}

#[test]
fn test_short_form() {
    println!(
        "{}",
        std::str::from_utf8(MyEnum::Binary.short_form()).unwrap()
    );
    assert_eq!(MyEnum::Binary.short_form(), b"BIN");
    assert_eq!(MyEnum::Real.short_form(), b"REAL");
    assert_eq!(MyEnum::Ascii1.short_form(), b"ASC");
    assert_eq!(MyEnum::L125.short_form(), b"L125");
}

#[test]
fn test_enum_types() {
    assert_eq!(
        MyEnum::try_from(Token::CharacterProgramData(b"real")),
        Ok(MyEnum::Real)
    );
    assert_eq!(
        MyEnum::try_from(Token::CharacterProgramData(b"bin")),
        Ok(MyEnum::Binary)
    );
    assert_eq!(
        MyEnum::try_from(Token::CharacterProgramData(b"potato")),
        Err(ErrorCode::IllegalParameterValue.into())
    );
    assert_eq!(
        MyEnum::try_from(Token::DecimalNumericProgramData(b"3.5")),
        Err(ErrorCode::DataTypeError.into())
    );
}

#[test]
fn enum_response_is_upper_case_prefix() {
    let mut buf: Vec<u8> = Vec::new();
    MyEnum::Binary.format_response_data(&mut buf).unwrap();
    assert_eq!(buf.as_slice(), b"BIN");
    let mut buf: Vec<u8> = Vec::new();
    MyEnum::L125.format_response_data(&mut buf).unwrap();
    assert_eq!(buf.as_slice(), b"L");
}

#[test]
fn unit_mnemonics() {
    use_units();
}

fn use_units() {
    assert!(matches!(
        AngleUnit::try_from(Token::CharacterProgramData(b"deg")),
        Ok(AngleUnit::Degree)
    ));
    assert!(matches!(
        TimeUnit::try_from(Token::CharacterProgramData(b"MINute")),
        Ok(TimeUnit::Minute)
    ));
    assert!(matches!(
        TimeUnit::try_from(Token::CharacterProgramData(b"potato")),
        Err(Error(ErrorCode::IllegalParameterValue, None))
    ));
    assert!(matches!(
        VoltageUnit::try_from(Token::DecimalNumericProgramData(b"1")),
        Err(Error(ErrorCode::DataTypeError, None))
    ));
    assert!(matches!(AngleUnit::default(), AngleUnit::Radian));
    assert!(matches!(TemperatureUnit::default(), TemperatureUnit::Celsius));
    let mut buf: Vec<u8> = Vec::new();
    TemperatureUnit::Kelvin.format_response_data(&mut buf).unwrap();
    assert_eq!(buf.as_slice(), b"K");
    let mut buf: Vec<u8> = Vec::new();
    TimeUnit::Second.format_response_data(&mut buf).unwrap();
    assert_eq!(buf.as_slice(), b"SEC");
}
