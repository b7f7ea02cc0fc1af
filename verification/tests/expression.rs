use scpi::error::{Error, ErrorCode};
use scpi::expression::channel_list::{
    ChannelSpec as OldChannelSpec, Token as OldChannelToken, Tokenizer as OldChannelTokenizer,
};
use scpi::expression::numeric_list::{Token as IntToken, Tokenizer as IntTokenizer};
use scpi::parser::expression::channel_list::{ChannelList, ChannelSpec, Token as ChannelToken};
use scpi::parser::expression::numeric_list::{NumericList, Token as NumToken};
use scpi::parser::token::Token as Number;

#[test]
fn numeric_list_test_numeric_data() {
    let spec = NumericList::new(b"2").read_numeric_data();
    assert_eq!(
        spec,
        Ok(NumToken::Numeric(Number::DecimalNumericProgramData(b"2")))
    );
    let range = NumericList::new(b"2:5").read_numeric_data();
    assert_eq!(
        range,
        Ok(NumToken::NumericRange(
            Number::DecimalNumericProgramData(b"2"),
            Number::DecimalNumericProgramData(b"5")
        ))
    );
    let specfail = NumericList::new(b"2::5").read_numeric_data();
    assert_eq!(specfail, Err(ErrorCode::NumericDataError.into()));
}

#[test]
fn numeric_list_test_numeric_list() {
    let mut expr = NumericList::new(b"3.1415,1.1:3.9e6");
    assert_eq!(
        expr.next().unwrap(),
        Ok(NumToken::Numeric(Number::DecimalNumericProgramData(b"3.1415")))
    );
    assert_eq!(
        expr.next().unwrap(),
        Ok(NumToken::NumericRange(
            Number::DecimalNumericProgramData(b"1.1"),
            Number::DecimalNumericProgramData(b"3.9e6")
        ))
    );
    assert_eq!(expr.next(), None);
}

#[test]
fn numeric_list_test_numeric_leading() {
    let mut expr = NumericList::new(b",1,2:5");
    assert_eq!(
        expr.next().unwrap(),
        Err(Error::extended(
            ErrorCode::InvalidExpression,
            b"Invalid character"
        ))
    );
}

#[test]
fn numeric_list_test_numeric_repeated() {
    let mut expr = NumericList::new(b"1,,2:5");
    assert_eq!(
        expr.next().unwrap(),
        Ok(NumToken::Numeric(Number::DecimalNumericProgramData(b"1")))
    );
    assert_eq!(
        expr.next().unwrap(),
        Err(Error::extended(
            ErrorCode::InvalidExpression,
            ErrorCode::NumericDataError.get_message()
        ))
    );
}

#[test]
fn channel_list_test_channel_list() {
    let mut expr = ChannelList::new(b"@1!12,3!4:5!6,'POTATO'").unwrap();

    // Destructure a spec
    let spec = expr.next().unwrap().unwrap();
    assert_eq!(spec, ChannelToken::ChannelSpec(ChannelSpec(b"1!12", 2)));
    if let ChannelToken::ChannelSpec(spec) = spec {
        let mut spec_iter = spec.into_iter();
        assert_eq!(Some(Ok(1)), spec_iter.next());
        assert_eq!(Some(Ok(12)), spec_iter.next());
        assert_eq!(None, spec_iter.next());
    } else {
        panic!("Not a channel spec")
    }

    // Destructure a range
    let range = expr.next().unwrap().unwrap();
    assert_eq!(
        range,
        ChannelToken::ChannelRange(ChannelSpec(b"3!4", 2), ChannelSpec(b"5!6", 2))
    );
    if let ChannelToken::ChannelRange(begin, end) = range {
        let mut begin_iter = begin.into_iter();
        assert_eq!(Some(Ok(3)), begin_iter.next());
        assert_eq!(Some(Ok(4)), begin_iter.next());
        assert_eq!(None, begin_iter.next());
        let mut end_iter = end.into_iter();
        assert_eq!(Some(Ok(5)), end_iter.next());
        assert_eq!(Some(Ok(6)), end_iter.next());
        assert_eq!(None, end_iter.next());
    } else {
        panic!("Not a channel range")
    }
    assert_eq!(expr.next(), Some(Ok(ChannelToken::PathName(b"POTATO"))));
    assert_eq!(expr.next(), None);
}

#[test]
fn expression_test_numeric_data() {
    let spec = IntTokenizer {
        chars: b"2",
        expect_num: true,
    }
    .read_numeric_data();
    assert_eq!(spec, Ok(IntToken::Numeric(2)));
    let range = IntTokenizer {
        chars: b"2:5",
        expect_num: true,
    }
    .read_numeric_data();
    assert_eq!(range, Ok(IntToken::NumericRange(2, 5)));
    let specfail = IntTokenizer {
        chars: b"2::5",
        expect_num: true,
    }
    .read_numeric_data();
    assert_eq!(specfail, Err(ErrorCode::InvalidExpression));
}

#[test]
fn expression_test_numeric_list() {
    let mut expr = IntTokenizer {
        chars: b"1,2:5",
        expect_num: true,
    };
    assert_eq!(expr.next(), Some(Ok(IntToken::Numeric(1))));
    assert_eq!(expr.next(), Some(Ok(IntToken::Separator)));
    assert_eq!(expr.next(), Some(Ok(IntToken::NumericRange(2, 5))));
    assert_eq!(expr.next(), None);
}

#[test]
fn expression_test_numeric_leading() {
    let mut expr = IntTokenizer {
        chars: b",1,2:5",
        expect_num: true,
    };
    assert_eq!(expr.next(), Some(Err(ErrorCode::InvalidExpression)));
}

#[test]
fn expression_test_numeric_repeated() {
    let mut expr = IntTokenizer {
        chars: b"1,,2:5",
        expect_num: true,
    };
    assert_eq!(expr.next(), Some(Ok(IntToken::Numeric(1))));
    assert_eq!(expr.next(), Some(Ok(IntToken::Separator)));
    assert_eq!(expr.next(), Some(Err(ErrorCode::InvalidExpression)));
}

#[test]
fn expression_test_channel_list() {
    let mut expr = OldChannelTokenizer::new(b"@1!12,3!4:5!6,'POTATO'").unwrap();

    // Destructure a spec
    let spec = expr.next().unwrap().unwrap();
    assert_eq!(spec, OldChannelToken::ChannelSpec(OldChannelSpec(b"1!12", 2)));
    if let OldChannelToken::ChannelSpec(spec) = spec {
        let mut spec_iter = spec.into_iter();
        assert_eq!(Some(Ok(1)), spec_iter.next());
        assert_eq!(Some(Ok(12)), spec_iter.next());
        assert_eq!(None, spec_iter.next());
    } else {
        panic!("Not a channel spec")
    }

    assert_eq!(expr.next(), Some(Ok(OldChannelToken::Separator)));

    // Destructure a range
    let range = expr.next().unwrap().unwrap();
    assert_eq!(
        range,
        OldChannelToken::ChannelRange(OldChannelSpec(b"3!4", 2), OldChannelSpec(b"5!6", 2))
    );
    if let OldChannelToken::ChannelRange(begin, end) = range {
        let mut begin_iter = begin.into_iter();
        assert_eq!(Some(Ok(3)), begin_iter.next());
        assert_eq!(Some(Ok(4)), begin_iter.next());
        assert_eq!(None, begin_iter.next());
        let mut end_iter = end.into_iter();
        assert_eq!(Some(Ok(5)), end_iter.next());
        assert_eq!(Some(Ok(6)), end_iter.next());
        assert_eq!(None, end_iter.next());
    } else {
        panic!("Not a channel range")
    }

    assert_eq!(expr.next(), Some(Ok(OldChannelToken::Separator)));
    assert_eq!(expr.next(), Some(Ok(OldChannelToken::PathName(b"POTATO"))));
    assert_eq!(expr.next(), None);
}

#[test]
fn channel_range_needs_equal_dimensions() {
    let mut list = ChannelList::new(b"@1!2:3").unwrap();
    assert_eq!(list.next(), Some(Err(ErrorCode::InvalidExpression)));
    let mut list = ChannelList::new(b"@1!12,3!4:5!6").unwrap();
    assert_eq!(
        list.next(),
        Some(Ok(ChannelToken::ChannelSpec(ChannelSpec(b"1!12", 2))))
    );
}

#[test]
fn channel_spec_iterator_reads_any_rest() {
    // A doubled `!` and a non-numeric rest are answered, not refused.
    let spec = ChannelSpec(b"1!!2", 2);
    let mut it = spec.into_iter();
    assert_eq!(it.next(), Some(Ok(1)));
    assert!(it.next().is_some());
    let spec = ChannelSpec(b"a", 1);
    let mut it = spec.into_iter();
    assert!(it.next().is_some());
}
