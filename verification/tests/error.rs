use std::collections::VecDeque;

use scpi::error::{ArrayErrorQueue, Error, ErrorCode, ErrorQueue};

#[test]
fn test_vecqueue() {
    // Check that errorqueue returns NoError when there are no errors
    let mut errors: VecDeque<Error> = VecDeque::new();
    errors.push_back_error(ErrorCode::Custom(1, b"One").into());
    errors.push_back_error(ErrorCode::Custom(2, b"Two").into());
    assert_eq!(
        errors.pop_front_error(),
        Error::new(ErrorCode::Custom(1, b"One"))
    );
    assert_eq!(
        errors.pop_front_error(),
        Error::new(ErrorCode::Custom(2, b"Two"))
    );
    assert_eq!(errors.pop_front_error(), Error::new(ErrorCode::NoError));
}

#[test]
fn error_codes_and_messages() {
    assert_eq!(ErrorCode::NoError.get_code(), 0);
    assert_eq!(ErrorCode::NoError.get_message(), b"No error");
    assert_eq!(ErrorCode::SyntaxError.get_code(), -102);
    assert_eq!(ErrorCode::SyntaxError.get_message(), b"Syntax error");
    assert_eq!(ErrorCode::Custom(42, b"Answer").get_code(), 42);
    let e = Error::extended(ErrorCode::InvalidExpression, b"Invalid character");
    assert_eq!(e.get_code(), -171);
    assert_eq!(e.get_extended(), Some(&b"Invalid character"[..]));
    assert_eq!(Error::new(ErrorCode::DataTypeError).get_extended(), None);
}

#[test]
fn esr_mask_by_class() {
    assert_eq!(ErrorCode::NoError.esr_mask(), 0);
    assert_eq!(ErrorCode::CommandError.esr_mask(), 0x20);
    assert_eq!(ErrorCode::ExecutionError.esr_mask(), 0x10);
    assert_eq!(ErrorCode::DeviceSpecificError.esr_mask(), 0x08);
    assert_eq!(ErrorCode::QueryError.esr_mask(), 0x04);
    assert_eq!(ErrorCode::PowerOn.esr_mask(), 0x80);
    assert_eq!(ErrorCode::UserRequest.esr_mask(), 0x40);
    assert_eq!(ErrorCode::RequestControl.esr_mask(), 0x02);
    assert_eq!(ErrorCode::OperationComplete.esr_mask(), 0x01);
    assert_eq!(ErrorCode::Custom(1, b"x").esr_mask(), 0x08);
    assert_eq!(Error::new(ErrorCode::QueryError).esr_mask(), 0x04);
}

#[test]
fn queue_is_first_in_first_out() {
    let mut errors: VecDeque<Error> = VecDeque::new();
    assert_eq!(ErrorQueue::len(&errors), 0);
    assert!(errors.not_empty());
    errors.push_back_error(ErrorCode::SyntaxError.into());
    errors.push_back_error(ErrorCode::QueueOverflow.into());
    assert_eq!(ErrorQueue::len(&errors), 2);
    assert!(!errors.not_empty());
    assert_eq!(errors.pop_front_error(), ErrorCode::SyntaxError.into());
    ErrorQueue::clear(&mut errors);
    assert_eq!(ErrorQueue::len(&errors), 0);
    assert_eq!(errors.pop_front_error(), Error::default());
}

#[test]
fn test_extended() {
    // Check that errorqueue returns NoError when there are no errors
    let mut errors = ArrayErrorQueue::<10>::new();
    errors.push_back_error(Error::extended(ErrorCode::Custom(1, b"Error"), b"Extended"));
    assert_eq!(
        errors.pop_front_error(),
        Error(ErrorCode::Custom(1, b"Error"), Some(b"Extended"))
    );
}

#[test]
fn test_queue_noerror() {
    // Check that errorqueue returns NoError when there are no errors
    let mut errors = ArrayErrorQueue::<10>::new();
    errors.push_back_error(ErrorCode::Custom(1, b"One").into());
    errors.push_back_error(ErrorCode::Custom(2, b"Two").into());
    assert_eq!(
        errors.pop_front_error(),
        Error::new(ErrorCode::Custom(1, b"One"))
    );
    assert_eq!(
        errors.pop_front_error(),
        Error::new(ErrorCode::Custom(2, b"Two"))
    );
    assert_eq!(errors.pop_front_error(), Error::new(ErrorCode::NoError));
}

#[test]
fn test_queue_overflow() {
    // Check that errorqueue returns NoError when there are no errors
    let mut errors = ArrayErrorQueue::<2>::new();
    errors.push_back_error(ErrorCode::Custom(1, b"One").into());
    errors.push_back_error(ErrorCode::Custom(2, b"Two").into());
    errors.push_back_error(ErrorCode::Custom(3, b"Three").into());
    assert_eq!(
        errors.pop_front_error(),
        Error::new(ErrorCode::Custom(1, b"One"))
    );
    assert_eq!(
        errors.pop_front_error(),
        Error::new(ErrorCode::QueueOverflow)
    );
}

#[test]
fn array_queue_len_clear_and_zero_capacity() {
    let mut errors = ArrayErrorQueue::<3>::new();
    assert_eq!(errors.len(), 0);
    errors.push_back_error(ErrorCode::SyntaxError.into());
    errors.push_back_error(ErrorCode::DataTypeError.into());
    assert_eq!(errors.len(), 2);
    errors.clear();
    assert_eq!(errors.len(), 0);
    assert_eq!(errors.pop_front_error(), Error::new(ErrorCode::NoError));

    let mut none = ArrayErrorQueue::<0>::default();
    none.push_back_error(ErrorCode::SyntaxError.into());
    assert_eq!(none.len(), 0);
    assert_eq!(none.pop_front_error(), Error::new(ErrorCode::NoError));
}
