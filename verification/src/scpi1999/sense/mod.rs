//! # 18 SENSe Subsystem

use vstd::prelude::*;

use crate::error::{Error, ErrorCode};
use crate::parser::response::ResponseData;
use crate::parser::token::Token;

use self::function::SensorFunction;

pub mod common;
pub mod function;

verus! {

/// A sensor function and the unit its values are read and written in.
pub trait SenseFunction {
    type Unit: for<'a> TryFrom<Token<'a>, Error = Error> + ResponseData;
}

/// A device with sensor `N`.
pub trait Sense<const N: usize> {
    fn function_on(&mut self, function: SensorFunction) -> core::result::Result<(), FunctionError>;

    fn get_function_on(&self) -> core::result::Result<SensorFunction, FunctionError>;
}

/// Why a sensor function was refused.
#[derive(Debug, Clone, Copy, PartialEq, Eq)]
pub enum FunctionError {
    FunctionNotSupported,
    SuffixNotSupported,
    PresentationNotSupported,
    Other,
}

/// The extended message of each [`FunctionError`].
pub open spec fn function_error_message(err: FunctionError) -> Option<Seq<u8>> {
    match err {
        // "Function not supported"
        FunctionError::FunctionNotSupported => Some(seq![70u8, 117u8, 110u8, 99u8, 116u8, 105u8, 111u8, 110u8, 32u8, 110u8, 111u8, 116u8, 32u8, 115u8, 117u8, 112u8, 112u8, 111u8, 114u8, 116u8, 101u8, 100u8]),
        // "Sensor function suffix not supported"
        FunctionError::SuffixNotSupported => Some(seq![83u8, 101u8, 110u8, 115u8, 111u8, 114u8, 32u8, 102u8, 117u8, 110u8, 99u8, 116u8, 105u8, 111u8, 110u8, 32u8, 115u8, 117u8, 102u8, 102u8, 105u8, 120u8, 32u8, 110u8, 111u8, 116u8, 32u8, 115u8, 117u8, 112u8, 112u8, 111u8, 114u8, 116u8, 101u8, 100u8]),
        // "Sensor function presentation not supported"
        FunctionError::PresentationNotSupported => Some(seq![83u8, 101u8, 110u8, 115u8, 111u8, 114u8, 32u8, 102u8, 117u8, 110u8, 99u8, 116u8, 105u8, 111u8, 110u8, 32u8, 112u8, 114u8, 101u8, 115u8, 101u8, 110u8, 116u8, 97u8, 116u8, 105u8, 111u8, 110u8, 32u8, 110u8, 111u8, 116u8, 32u8, 115u8, 117u8, 112u8, 112u8, 111u8, 114u8, 116u8, 101u8, 100u8]),
        FunctionError::Other => None,
    }
}

/// Every function error is an illegal parameter value, with a message that
/// says why (none for [`FunctionError::Other`]).
impl From<FunctionError> for Error {
    fn from(err: FunctionError) -> (e: Self)
        ensures
            e.0 == ErrorCode::IllegalParameterValue,
            match (e.1, function_error_message(err)) {
                (Some(m), Some(t)) => m@ == t,
                (None, None) => true,
                _ => false,
            },
    {
        match err {
            FunctionError::FunctionNotSupported => {
                let m: &'static [u8] = &[70u8, 117u8, 110u8, 99u8, 116u8, 105u8, 111u8, 110u8, 32u8, 110u8, 111u8, 116u8, 32u8, 115u8, 117u8, 112u8, 112u8, 111u8, 114u8, 116u8, 101u8, 100u8];
                proof {
                    assert(m@ == function_error_message(err)->0);
                    let c = choose|c: &'static [u8]| c@ == function_error_message(err)->0;
                    assert(c == m);
                }
                Error::extended(ErrorCode::IllegalParameterValue, m)
            },
            FunctionError::SuffixNotSupported => {
                let m: &'static [u8] = &[83u8, 101u8, 110u8, 115u8, 111u8, 114u8, 32u8, 102u8, 117u8, 110u8, 99u8, 116u8, 105u8, 111u8, 110u8, 32u8, 115u8, 117u8, 102u8, 102u8, 105u8, 120u8, 32u8, 110u8, 111u8, 116u8, 32u8, 115u8, 117u8, 112u8, 112u8, 111u8, 114u8, 116u8, 101u8, 100u8];
                proof {
                    assert(m@ == function_error_message(err)->0);
                    let c = choose|c: &'static [u8]| c@ == function_error_message(err)->0;
                    assert(c == m);
                }
                Error::extended(ErrorCode::IllegalParameterValue, m)
            },
            FunctionError::PresentationNotSupported => {
                let m: &'static [u8] = &[83u8, 101u8, 110u8, 115u8, 111u8, 114u8, 32u8, 102u8, 117u8, 110u8, 99u8, 116u8, 105u8, 111u8, 110u8, 32u8, 112u8, 114u8, 101u8, 115u8, 101u8, 110u8, 116u8, 97u8, 116u8, 105u8, 111u8, 110u8, 32u8, 110u8, 111u8, 116u8, 32u8, 115u8, 117u8, 112u8, 112u8, 111u8, 114u8, 116u8, 101u8, 100u8];
                proof {
                    assert(m@ == function_error_message(err)->0);
                    let c = choose|c: &'static [u8]| c@ == function_error_message(err)->0;
                    assert(c == m);
                }
                Error::extended(ErrorCode::IllegalParameterValue, m)
            },
            FunctionError::Other => Error::new(ErrorCode::IllegalParameterValue),
        }
    }
}

impl vstd::std_specs::convert::FromSpecImpl<FunctionError> for Error {
    open spec fn obeys_from_spec() -> bool {
        true
    }

    open spec fn from_spec(err: FunctionError) -> Error {
        Error(ErrorCode::IllegalParameterValue, if function_error_message(err) is Some {
            Some(choose|c: &'static [u8]| c@ == function_error_message(err)->0)
        } else {
            None
        })
    }
}

} // verus!
