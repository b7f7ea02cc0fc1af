use scpi::error::{Error, ErrorCode};
use scpi::parser::format::{Arbitrary, Character, Expression};
use scpi::parser::parameters::Parameters;
use scpi::parser::token::Token;
use scpi::parser::tokenizer::Tokenizer;
use scpi::scpi1999::numeric::NumericValue;
use scpi::scpi1999::util::Auto;

fn err(code: ErrorCode) -> Error {
    Error::new(code)
}

#[test]
fn integers_from_decimal_data() {
    assert_eq!(i32::try_from(Token::DecimalNumericProgramData(b"25")), Ok(25));
    assert_eq!(i32::try_from(Token::DecimalNumericProgramData(b"-25")), Ok(-25));
    assert_eq!(i64::try_from(Token::DecimalNumericProgramData(b"+7")), Ok(7));
    assert_eq!(u8::try_from(Token::DecimalNumericProgramData(b"255")), Ok(255));
    assert_eq!(
        u8::try_from(Token::DecimalNumericProgramData(b"256")),
        Err(err(ErrorCode::DataOutOfRange))
    );
    assert_eq!(
        u8::try_from(Token::DecimalNumericProgramData(b"-1")),
        Err(err(ErrorCode::DataOutOfRange))
    );
    assert_eq!(
        i8::try_from(Token::DecimalNumericProgramData(b"-129")),
        Err(err(ErrorCode::DataOutOfRange))
    );
    assert_eq!(
        u64::try_from(Token::DecimalNumericProgramData(b"18446744073709551615")),
        Ok(u64::MAX)
    );
}

#[test]
fn integers_from_other_data() {
    assert_eq!(u8::try_from(Token::NonDecimalNumericProgramData(0xff)), Ok(255));
    assert_eq!(
        u8::try_from(Token::NonDecimalNumericProgramData(0x100)),
        Err(err(ErrorCode::DataOutOfRange))
    );
    assert_eq!(i16::try_from(Token::CharacterProgramData(b"MAX")), Ok(i16::MAX));
    assert_eq!(i16::try_from(Token::CharacterProgramData(b"minimum")), Ok(i16::MIN));
    assert_eq!(
        i16::try_from(Token::CharacterProgramData(b"potato")),
        Err(err(ErrorCode::DataTypeError))
    );
    assert_eq!(
        i32::try_from(Token::DecimalNumericSuffixProgramData(b"1", b"V")),
        Err(err(ErrorCode::SuffixNotAllowed))
    );
    assert_eq!(
        i32::try_from(Token::StringProgramData(b"1")),
        Err(err(ErrorCode::DataTypeError))
    );
    // A token that is not program data is an internal error.
    assert_eq!(
        i32::try_from(Token::ProgramMnemonic(b"VOLT")),
        Err(Error::extended(ErrorCode::DeviceSpecificError, b"Internal parser error"))
    );
}

#[test]
fn booleans() {
    assert_eq!(bool::try_from(Token::CharacterProgramData(b"on")), Ok(true));
    assert_eq!(bool::try_from(Token::CharacterProgramData(b"OFF")), Ok(false));
    assert_eq!(bool::try_from(Token::DecimalNumericProgramData(b"1")), Ok(true));
    assert_eq!(bool::try_from(Token::DecimalNumericProgramData(b"0")), Ok(false));
    assert_eq!(
        bool::try_from(Token::DecimalNumericProgramData(b"2")),
        Err(err(ErrorCode::IllegalParameterValue))
    );
    assert_eq!(
        bool::try_from(Token::DecimalNumericProgramData(b"-3")),
        Err(err(ErrorCode::IllegalParameterValue))
    );
    assert_eq!(
        bool::try_from(Token::CharacterProgramData(b"maybe")),
        Err(err(ErrorCode::IllegalParameterValue))
    );
    assert_eq!(
        bool::try_from(Token::StringProgramData(b"ON")),
        Err(err(ErrorCode::DataTypeError))
    );
}

#[test]
fn strings_and_blocks() {
    assert_eq!(
        <&[u8]>::try_from(Token::StringProgramData(b"abc")),
        Ok(&b"abc"[..])
    );
    assert_eq!(
        <&[u8]>::try_from(Token::CharacterProgramData(b"abc")),
        Err(err(ErrorCode::DataTypeError))
    );
    assert_eq!(<&str>::try_from(Token::StringProgramData(b"abc")), Ok("abc"));
    assert_eq!(<&str>::try_from(Token::ArbitraryBlockData(b"xyz")), Ok("xyz"));
    assert_eq!(
        <&str>::try_from(Token::StringProgramData(&[0xff, 0xfe])),
        Err(err(ErrorCode::StringDataError))
    );
    assert_eq!(
        Arbitrary::try_from(Token::ArbitraryBlockData(b"\x01\x02")),
        Ok(Arbitrary(b"\x01\x02"))
    );
    assert_eq!(
        Character::try_from(Token::CharacterProgramData(b"CHAR")),
        Ok(Character(b"CHAR"))
    );
    // Expression data is taken from block data.
    assert_eq!(
        Expression::try_from(Token::ArbitraryBlockData(b"1+2")),
        Ok(Expression(b"1+2"))
    );
    assert_eq!(
        Expression::try_from(Token::ExpressionProgramData(b"1+2")),
        Err(err(ErrorCode::DataTypeError))
    );
}

#[test]
fn numeric_values_and_auto() {
    assert_eq!(
        NumericValue::<i32>::try_from(Token::CharacterProgramData(b"max")),
        Ok(NumericValue::Maximum)
    );
    assert_eq!(
        NumericValue::<i32>::try_from(Token::CharacterProgramData(b"DEF")),
        Ok(NumericValue::Default)
    );
    assert_eq!(
        NumericValue::<i32>::try_from(Token::DecimalNumericProgramData(b"12")),
        Ok(NumericValue::Value(12))
    );
    let v: NumericValue<i32> = NumericValue::Value(12);
    assert_eq!(v.with(10, 0).finish(), Err(err(ErrorCode::DataOutOfRange)));
    assert_eq!(v.with(20, 0).finish(), Ok(12));
    let max: NumericValue<i32> = NumericValue::Maximum;
    assert_eq!(max.with(20, 0).finish(), Ok(20));
    let def: NumericValue<i32> = NumericValue::Default;
    assert_eq!(
        def.with(20, 0).finish(),
        Err(err(ErrorCode::IllegalParameterValue))
    );
    assert_eq!(def.with(20, 0).default(5).finish(), Ok(5));
    let auto: NumericValue<i32> = NumericValue::Auto;
    assert_eq!(auto.with(20, 0).finish_auto(|| 7), Ok(7));
    assert_eq!(v.map(|x| x * 2), NumericValue::Value(24));

    let mut once = Auto::try_from(Token::CharacterProgramData(b"once")).unwrap();
    assert!(once.auto_enabled());
    once.auto_once();
    assert!(!once.auto_enabled());
    once.auto_once();
    assert!(!once.auto_enabled());
    let mut on = Auto::try_from(Token::CharacterProgramData(b"ON")).unwrap();
    on.auto_once();
    assert!(on.auto_enabled());
    assert!(matches!(
        Auto::try_from(Token::DecimalNumericProgramData(b"0")),
        Ok(Auto::Bool(false))
    ));
}

#[test]
fn parameters_read_data_in_order() {
    let mut tok = Tokenizer::new_params(b"25, ON ,\"str\"");
    let mut params = Parameters::with(&mut tok);
    assert_eq!(params.next_data::<i32>(), Ok(25));
    assert_eq!(params.next_data::<bool>(), Ok(true));
    assert_eq!(params.next_data::<&[u8]>(), Ok(&b"str"[..]));
    assert_eq!(params.next_optional_data::<i32>(), Ok(None));
    assert_eq!(
        params.next_data::<i32>(),
        Err(err(ErrorCode::MissingParameter))
    );
}

#[test]
fn parameters_separator_needs_data() {
    let mut tok = Tokenizer::new_params(b"1,");
    let mut params = Parameters::with(&mut tok);
    assert_eq!(params.next_data::<i32>(), Ok(1));
    assert_eq!(
        params.next_optional_data::<i32>(),
        Err(err(ErrorCode::MissingParameter))
    );
}

#[test]
fn integer_responses_read_back() {
    use_read_back();
}

fn use_read_back() {
    for v in [-25i64, 0, 7, i64::MAX, i64::MIN] {
        let mut buf: Vec<u8> = Vec::new();
        scpi::parser::response::ResponseData::format_response_data(&v, &mut buf).unwrap();
        assert_eq!(i64::try_from(Token::DecimalNumericProgramData(&buf)), Ok(v));
    }
    for v in [0u8, 1, 255] {
        let mut buf: Vec<u8> = Vec::new();
        scpi::parser::response::ResponseData::format_response_data(&v, &mut buf).unwrap();
        assert_eq!(u8::try_from(Token::DecimalNumericProgramData(&buf)), Ok(v));
    }
}
