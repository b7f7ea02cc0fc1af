use scpi::error::{Error, ErrorCode};
use scpi::parser::format::{Arbitrary, Binary, Character, Expression, Hex, Octal};
use scpi::parser::response::{ArrayVecFormatter, Formatter};

#[test]
fn response_test_vecarray() {
    let mut array = ArrayVecFormatter::<16>::new();
    array.message_start().unwrap();
    array
        .response_unit()
        .unwrap()
        .data(&b"potato"[..])
        .data(0u8)
        .finish()
        .unwrap();
    assert_eq!(array.as_slice(), b"\"potato\",0");
}

#[test]
fn response_test_outamemory() {
    let mut array = ArrayVecFormatter::<1>::new();
    array.push_byte(b'x').unwrap();
    assert_eq!(
        array.push_byte(b'x'),
        Err(Error::from(ErrorCode::OutOfMemory))
    );
    assert_eq!(
        array.push_str(b"x"),
        Err(Error::from(ErrorCode::OutOfMemory))
    );
}

#[test]
fn arrayformatter_test_vecarray() {
    let mut array = ArrayVecFormatter::<16>::new();
    array.message_start().unwrap();
    // First unit
    array
        .response_unit()
        .unwrap()
        .data(&b"potato"[..])
        .data(0u8)
        .finish()
        .unwrap();
    // Second unit
    array.response_unit().unwrap().data(42i16).finish().unwrap();
    array.message_end().unwrap();
    assert_eq!(array.as_slice(), b"\"potato\",0;42\n");
}

#[test]
fn arrayformatter_test_outamemory() {
    let mut array = ArrayVecFormatter::<1>::new();
    array.push_byte(b'x').unwrap();
    assert_eq!(
        array.push_byte(b'x'),
        Err(Error::from(ErrorCode::OutOfMemory))
    );
    assert_eq!(
        array.push_str(b"x"),
        Err(Error::from(ErrorCode::OutOfMemory))
    );
}

#[test]
fn array_formatter_refuses_what_does_not_fit() {
    let mut array = ArrayVecFormatter::<4>::new();
    assert_eq!(array.push_str(b"abc"), Ok(()));
    assert_eq!(array.push_str(b"de"), Err(Error::from(ErrorCode::OutOfMemory)));
    assert_eq!(array.as_slice(), b"abc");
    assert_eq!(array.len(), 3);
    array.clear();
    assert!(array.is_empty());
}

fn formatted<T: scpi::parser::response::ResponseData>(v: T) -> Result<Vec<u8>, Error> {
    let mut buf: Vec<u8> = Vec::new();
    v.format_response_data(&mut buf).map(|_| buf)
}

#[test]
fn integer_responses() {
    assert_eq!(formatted(-25i32), Ok(b"-25".to_vec()));
    assert_eq!(formatted(0u8), Ok(b"0".to_vec()));
    assert_eq!(formatted(u64::MAX), Ok(b"18446744073709551615".to_vec()));
    assert_eq!(formatted(i64::MIN), Ok(b"-9223372036854775808".to_vec()));
    assert_eq!(formatted(Hex(255u8)), Ok(b"#HFF".to_vec()));
    assert_eq!(formatted(Octal(8u16)), Ok(b"#Q10".to_vec()));
    assert_eq!(formatted(Binary(5u32)), Ok(b"#B101".to_vec()));
}

#[test]
fn other_responses() {
    assert_eq!(formatted(true), Ok(b"1".to_vec()));
    assert_eq!(formatted(false), Ok(b"0".to_vec()));
    assert_eq!(formatted(Arbitrary(b"hello")), Ok(b"#15hello".to_vec()));
    assert_eq!(formatted(Arbitrary(b"")), Ok(b"#10".to_vec()));
    assert_eq!(formatted("hi"), Ok(b"#12hi".to_vec()));
    assert_eq!(formatted(Character(b"CHAR")), Ok(b"CHAR".to_vec()));
    assert_eq!(formatted(Expression(b"1+2")), Ok(b"(1+2)".to_vec()));
    assert_eq!(formatted(&b"a\"b"[..]), Ok(b"\"a\"\"b\"".to_vec()));
    assert_eq!(formatted(&b""[..]), Ok(b"\"\"".to_vec()));
    assert_eq!(
        formatted(&[0xc3u8, 0xa5][..]),
        Err(Error::new(ErrorCode::ExecutionError))
    );
}

#[test]
fn error_responses() {
    assert_eq!(
        formatted(Error::new(ErrorCode::SyntaxError)),
        Ok(b"-102,\"Syntax error\"".to_vec())
    );
    assert_eq!(
        formatted(Error::extended(ErrorCode::DataOutOfRange, b"Too big")),
        Ok(b"-222,\"Data out of range;Too big\"".to_vec())
    );
    assert_eq!(
        formatted(Error::new(ErrorCode::NoError)),
        Ok(b"0,\"No error\"".to_vec())
    );
}

#[test]
fn response_unit_header_and_data() {
    let mut buf: Vec<u8> = Vec::new();
    buf.message_start().unwrap();
    buf.response_unit()
        .unwrap()
        .header(b"SYST")
        .header(b"ERR")
        .data(1u8)
        .data(2u8)
        .finish()
        .unwrap();
    buf.response_unit().unwrap().data(true).finish().unwrap();
    buf.message_end().unwrap();
    assert_eq!(buf.as_slice(), b"SYST:ERR 1,2;1\n");
}

#[test]
fn response_unit_keeps_first_error() {
    let mut array = ArrayVecFormatter::<4>::new();
    let r = array
        .response_unit()
        .unwrap()
        .data(&b"toolong"[..])
        .data(1u8)
        .finish();
    assert_eq!(r, Err(Error::new(ErrorCode::OutOfMemory)));
}
