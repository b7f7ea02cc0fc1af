//! # 21 SYSTem Subsystem
//! The error/event queue commands, the version and the capability query.

use vstd::prelude::*;

use crate::error::{error_is_none, Error, ErrorCode, ErrorQueue, Result};
use crate::parser::lexical::integer_text;
use crate::parser::parameters::Parameters;
use crate::parser::response::{
    data_prefix, error_response, responds, string_data, Formatter, ResponseData, ResponseUnit,
};
use crate::tree::command::{Command, CommandTypeMeta};
use crate::Context;

use super::device::ScpiDevice;

verus! {

/// `SYSTem:ERRor[:NEXT]?`: responds with the oldest error of the queue and
/// removes it; `0,"No error"` when the queue is empty.
pub struct SystErrNextCommand;

impl<D> Command<D> for SystErrNextCommand where D: ScpiDevice {
    fn meta(&self) -> CommandTypeMeta {
        CommandTypeMeta::QueryOnly
    }

    fn query<F: Formatter>(
        &self,
        device: &mut D,
        context: &mut Context,
        _params: Parameters<'_, '_>,
        response: &mut ResponseUnit<'_, F>,
    ) -> (r: Result<()>)
        ensures
            old(device).errors().len() > 0 ==> final(device).errors() == old(device).errors().drop_first()
                && (error_response(old(device).errors()[0]) matches Some(t) ==> responds(*old(response), *final(response), t)),
            old(device).errors().len() == 0 ==> final(device).errors() == old(device).errors()
                && responds(*old(response), *final(response), error_response(Error(ErrorCode::NoError, None))->0),
            r == final(response).result,
    {
        context.record_call(true, &*_params.0);
        //Always return first error (NoError if empty)
        let err = device.pop_front_error();
        proof {
            assert(error_response(Error(ErrorCode::NoError, None)) is Some);
        }
        response.data(err).finish()
    }
}

/// `SYSTem:ERRor:COUNt?`: responds with the number of errors in the queue.
pub struct SystErrCounCommand;

impl<D> Command<D> for SystErrCounCommand where D: ScpiDevice {
    fn meta(&self) -> CommandTypeMeta {
        CommandTypeMeta::QueryOnly
    }

    fn query<F: Formatter>(
        &self,
        device: &mut D,
        context: &mut Context,
        _params: Parameters<'_, '_>,
        response: &mut ResponseUnit<'_, F>,
    ) -> (r: Result<()>)
        ensures
            responds(*old(response), *final(response), integer_text(old(device).errors().len() as int, 10)),
            r == final(response).result,
    {
        context.record_call(true, &*_params.0);
        let n = device.len();
        response.data(n).finish()
    }
}

/// The error/event code of `e` as response data.
pub open spec fn code_text(e: Error) -> Seq<u8> {
    integer_text(e.0.code() as int, 10)
}

/// The codes of the errors `errs` written one after the other as response
/// data, separated by commas (SCPI-99 21.8.5.1).
pub open spec fn errors_text(errs: Seq<Error>) -> Seq<u8>
    decreases errs.len(),
{
    if errs.len() == 0 {
        Seq::empty()
    } else {
        let a = errors_text(errs.drop_last());
        let b = code_text(errs.last());
        if errs.len() == 1 { b } else { a + seq![44u8] + b }
    }
}

/// `SYSTem:ERRor:ALL?`: responds with the codes of all errors of the queue,
/// oldest first, and empties it; `0` when the queue is empty.
pub struct SystErrAllCommand;

impl<D> Command<D> for SystErrAllCommand where D: ScpiDevice {
    fn meta(&self) -> CommandTypeMeta {
        CommandTypeMeta::QueryOnly
    }

    #[verifier::rlimit(50)]
    fn query<F: Formatter>(
        &self,
        device: &mut D,
        context: &mut Context,
        _params: Parameters<'_, '_>,
        response: &mut ResponseUnit<'_, F>,
    ) -> (r: Result<()>)
        ensures
            final(device).errors().len() == 0,
            old(device).errors().len() == 0 ==> responds(*old(response), *final(response), seq![48u8]),
            old(device).errors().len() > 0 ==> responds(*old(response), *final(response), errors_text(old(device).errors())),
            r == final(response).result,
    {
        context.record_call(true, &*_params.0);
        if device.len() == 0 {
            let none: i16 = 0;
            proof {
                assert(integer_text(0, 10) == seq![48u8]);
            }
            response.data(none).finish()
        } else {
            let ghost errs = device.errors();
            let ghost r0 = response.result;
            let ghost b0 = response.fmt.bytes();
            let ghost h0 = response.has_header;
            let ghost d0 = response.has_data;
            let ghost mut i: nat = 0;
            proof {
                assert(errs.skip(0) =~= errs);
                assert(errs.take(0) =~= Seq::<Error>::empty());
            }
            while device.len() > 0
                invariant
                    context.calls@ == old(context).calls@.push((true, old(_params.0).state())),
                    i <= errs.len(),
                    device.errors() == errs.skip(i as int),
                    response.has_header == h0,
                    response.has_data == (d0 || i > 0),
                    r0 is Err ==> response.result == r0 && response.fmt.bytes() == b0,
                    i == 0 ==> response.result == r0 && response.fmt.bytes() == b0,
                    r0 is Ok && response.result is Ok ==> response.fmt.bytes() == b0 + (if i == 0 {
                            Seq::<u8>::empty()
                        } else {
                            data_prefix(h0, d0) + errors_text(errs.take(i as int))
                        }),
                decreases device.errors().len(),
            {
                let err = device.pop_front_error();
                proof {
                    assert(i < errs.len());
                    assert(err == errs.skip(i as int)[0]);
                    assert(err == errs[i as int]);
                    assert(device.errors() =~= errs.skip((i + 1) as int));
                    let t = errs.take((i + 1) as int);
                    assert(t.drop_last() =~= errs.take(i as int));
                    assert(t.last() == errs[i as int]);
                }
                response.data(err.get_code());
                proof {
                    i = i + 1;
                    if r0 is Ok && response.result is Ok && i > 1 {
                        let a = errors_text(errs.take(i - 1));
                        let b = code_text(errs[i - 1]);
                        assert(b0 + (data_prefix(h0, d0) + a) + seq![44u8] + b
                            == b0 + (data_prefix(h0, d0) + (a + seq![44u8] + b)));
                    }
                    if r0 is Ok && response.result is Ok && i == 1 {
                        assert(b0 + Seq::<u8>::empty() == b0);
                    }
                }
            }
            proof {
                assert(i == errs.len());
                assert(errs.take(i as int) =~= errs);
                if r0 is Ok && response.result is Ok {
                    let t = errors_text(errs);
                    assert(b0 + (data_prefix(h0, d0) + t) == b0 + data_prefix(h0, d0) + t);
                }
            }
            response.finish()
        }
    }
}

/// `SYSTem:VERSion?`: the SCPI version the device complies with.
pub struct SystVersCommand {
    pub year: u16,
    pub rev: u8,
}

impl<'a> ResponseData for &'a SystVersCommand {
    /// `<year>.<revision>`
    open spec fn response(&self) -> Option<Seq<u8>> {
        Some(integer_text(self.year as int, 10) + seq![46u8] + integer_text(self.rev as int, 10))
    }

    fn format_response_data<F: Formatter>(&self, formatter: &mut F) -> (r: Result<()>) {
        let ghost b0 = formatter.bytes();
        let r = self.year.format_response_data(formatter);
        if r.is_err() {
            return r;
        }
        let ghost b1 = formatter.bytes();
        proof {
            crate::parser::response::lemma_extends_append(b1, seq![46u8]);
            assert(b1.push(46u8) == b1 + seq![46u8]);
        }
        let r = formatter.push_byte(46u8);
        proof {
            crate::parser::response::lemma_extends_trans(b0, b1, formatter.bytes());
        }
        if r.is_err() {
            return r;
        }
        let ghost b2 = formatter.bytes();
        let r = self.rev.format_response_data(formatter);
        proof {
            crate::parser::response::lemma_extends_trans(b0, b2, formatter.bytes());
            assert(b0 + integer_text(self.year as int, 10) + seq![46u8] + integer_text(self.rev as int, 10)
                == b0 + (integer_text(self.year as int, 10) + seq![46u8] + integer_text(self.rev as int, 10)));
        }
        r
    }
}

impl<D> Command<D> for SystVersCommand where D: ScpiDevice {
    fn meta(&self) -> CommandTypeMeta {
        CommandTypeMeta::QueryOnly
    }

    fn query<F: Formatter>(
        &self,
        device: &mut D,
        context: &mut Context,
        _params: Parameters<'_, '_>,
        response: &mut ResponseUnit<'_, F>,
    ) -> (r: Result<()>)
        ensures
            responds(*old(response), *final(response),
                integer_text(self.year as int, 10) + seq![46u8] + integer_text(self.rev as int, 10)),
            r == final(response).result,
    {
        context.record_call(true, &*_params.0);
        response.data(self).finish()
    }
}

/// A device that states its capabilities.
pub trait Capability: ScpiDevice {
    /// The capability string.
    open spec fn capability_text() -> Seq<u8> {
        vstd::pervasive::arbitrary()
    }
    fn capability() -> (c: &'static [u8])
        ensures
            c@ == Self::capability_text(),
    ;
}

/// `SYSTem:CAPability?`: responds with the device's capability string.
pub struct SystCapCommand;

impl<D> Command<D> for SystCapCommand where D: ScpiDevice + Capability {
    fn meta(&self) -> CommandTypeMeta {
        CommandTypeMeta::QueryOnly
    }

    fn query<F: Formatter>(
        &self,
        device: &mut D,
        context: &mut Context,
        _params: Parameters<'_, '_>,
        response: &mut ResponseUnit<'_, F>,
    ) -> (r: Result<()>)
        ensures
            string_data(D::capability_text()) matches Some(t) ==> responds(*old(response), *final(response), t),
            r == final(response).result,
    {
        context.record_call(true, &*_params.0);
        let c = D::capability();
        response.data(c).finish()
    }
}

} // verus!
