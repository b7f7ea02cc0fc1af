//! IEEE 488.2 mandatory common commands.

use vstd::prelude::*;

use crate::error::{Error, ErrorCode, Result};
use crate::parser::format::Character;
use crate::parser::lexical::integer_text;
use crate::parser::parameters::{required_integer, Parameters};
use crate::parser::response::{responds, Formatter, ResponseData, ResponseUnit};
use crate::tree::command::{Command, CommandTypeMeta};
use crate::Context;

use super::IEEE488Device;

verus! {

/// The registers other than ESR are as they were.
pub open spec fn same_enables<D: IEEE488Device>(before: D, after: D) -> bool {
    after.sre_reg() == before.sre_reg() && after.ese_reg() == before.ese_reg()
}

/// ## 10.3 *CLS, Clear Status Command
/// Clears the event registers and queues, see [`IEEE488Device::exec_cls`].
pub struct ClsCommand;

impl<D> Command<D> for ClsCommand where D: IEEE488Device {
    fn meta(&self) -> CommandTypeMeta {
        CommandTypeMeta::NoQuery
    }

    /// Returns what [`IEEE488Device::exec_cls`] returned (recorded in the
    /// context's `hooks`); on success the event status register is clear.
    fn event(&self, device: &mut D, context: &mut Context, _params: Parameters<'_, '_>) -> (r: Result<()>)
        ensures
            r is Ok ==> final(device).esr_reg() == 0,
            final(context).hooks@ == old(context).hooks@.push(r),
    {
        context.record_call(false, &*_params.0);
        let r = device.exec_cls();
        context.record_hook(&r);
        r
    }
}

/// ## 10.10 *ESE, Standard Event Status Enable Command
/// Sets (`*ESE <u8>`) or reads (`*ESE?`) the Standard Event Status Enable register.
pub struct EseCommand;

impl<D> Command<D> for EseCommand where D: IEEE488Device {
    fn meta(&self) -> CommandTypeMeta {
        CommandTypeMeta::Both
    }

    fn event(&self, device: &mut D, context: &mut Context, mut params: Parameters<'_, '_>) -> (r: Result<()>)
        ensures
            match required_integer(*old(params.0), 0, 255) {
                Ok(v) => r is Ok && final(device).ese_reg() == v,
                Err(e) => r == Err::<(), Error>(e) && final(device).ese_reg() == old(device).ese_reg(),
            },
            final(device).sre_reg() == old(device).sre_reg(),
            final(device).esr_reg() == old(device).esr_reg(),
    {
        context.record_call(false, &*params.0);
        let ese: u8 = match params.next_data() {
            Ok(v) => v,
            Err(e) => return Err(e),
        };
        device.set_ese(ese);
        Ok(())
    }

    fn query<F: Formatter>(
        &self,
        device: &mut D,
        context: &mut Context,
        _params: Parameters<'_, '_>,
        response: &mut ResponseUnit<'_, F>,
    ) -> (r: Result<()>)
        ensures
            responds(*old(response), *final(response), integer_text(old(device).ese_reg() as int, 10)),
            r == final(response).result,
    {
        context.record_call(true, &*_params.0);
        let v = device.ese();
        response.data(v).finish()
    }
}


/// ## 10.12 *ESR?, Standard Event Status Register Query
/// Reads the Standard Event Status Register; once it is written to the
/// response, the register is cleared.
pub struct EsrCommand;

impl<D> Command<D> for EsrCommand where D: IEEE488Device {
    fn meta(&self) -> CommandTypeMeta {
        CommandTypeMeta::QueryOnly
    }

    fn query<F: Formatter>(
        &self,
        device: &mut D,
        context: &mut Context,
        _params: Parameters<'_, '_>,
        response: &mut ResponseUnit<'_, F>,
    ) -> (r: Result<()>)
        ensures
            responds(*old(response), *final(response), integer_text(old(device).esr_reg() as int, 10)),
            r == final(response).result,
            final(device).esr_reg() == if r is Ok { 0 } else { old(device).esr_reg() },
            same_enables(*old(device), *final(device)),
    {
        context.record_call(true, &*_params.0);
        let esr = device.esr();
        let r = response.data(esr).finish();
        if r.is_ok() {
            device.set_esr(0);
        }
        r
    }
}

/// ## 10.14 *IDN?, Identification Query
/// Responds with the manufacturer, model, serial number and firmware level.
pub struct IdnCommand<'a> {
    pub manufacturer: &'a [u8],
    pub model: &'a [u8],
    pub serial: &'a [u8],
    pub firmware: &'a [u8],
}

impl<'a, D> Command<D> for IdnCommand<'a> where D: IEEE488Device {
    fn meta(&self) -> CommandTypeMeta {
        CommandTypeMeta::QueryOnly
    }

    fn query<F: Formatter>(
        &self,
        device: &mut D,
        context: &mut Context,
        _params: Parameters<'_, '_>,
        response: &mut ResponseUnit<'_, F>,
    ) -> (r: Result<()>)
        ensures
            responds(*old(response), *final(response),
                self.manufacturer@ + seq![44u8] + self.model@ + seq![44u8] + self.serial@ + seq![44u8] + self.firmware@),
            r == final(response).result,
    {
        context.record_call(true, &*_params.0);
        let ghost before = *response;
        response.data(Character(self.manufacturer));
        let ghost a = *response;
        response.data(Character(self.model));
        let ghost b = *response;
        response.data(Character(self.serial));
        let ghost c = *response;
        response.data(Character(self.firmware));
        proof {
            if before.result is Ok && response.result is Ok {
                assert(a.result is Ok && b.result is Ok && c.result is Ok);
                assert(response.fmt.bytes() == before.fmt.bytes() + crate::parser::response::data_prefix(before.has_header, before.has_data)
                    + (self.manufacturer@ + seq![44u8] + self.model@ + seq![44u8] + self.serial@ + seq![44u8] + self.firmware@));
            }
        }
        response.finish()
    }
}

/// ## 10.18 *OPC, Operation Complete Command
/// `*OPC` runs [`IEEE488Device::exec_opc`]; `*OPC?` responds `1`.
pub struct OpcCommand;

impl<D> Command<D> for OpcCommand where D: IEEE488Device {
    fn meta(&self) -> CommandTypeMeta {
        CommandTypeMeta::Both
    }

    /// Returns what [`IEEE488Device::exec_opc`] returned (recorded in the
    /// context's `hooks`); on success the operation complete bit of the event
    /// status register is set.
    fn event(&self, device: &mut D, context: &mut Context, _params: Parameters<'_, '_>) -> (r: Result<()>)
        ensures
            r is Ok ==> final(device).esr_reg() == old(device).esr_reg() | 0x01,
            final(context).hooks@ == old(context).hooks@.push(r),
    {
        context.record_call(false, &*_params.0);
        let r = device.exec_opc();
        context.record_hook(&r);
        r
    }

    fn query<F: Formatter>(
        &self,
        device: &mut D,
        context: &mut Context,
        _params: Parameters<'_, '_>,
        response: &mut ResponseUnit<'_, F>,
    ) -> (r: Result<()>)
        ensures
            responds(*old(response), *final(response), seq![49u8]),
            r == final(response).result,
    {
        context.record_call(true, &*_params.0);
        let one: u8 = 1;
        proof {
            assert(integer_text(1, 10) == seq![49u8]);
        }
        response.data(one).finish()
    }
}

/// ## 10.32 *RST, Reset Command
/// Runs [`IEEE488Device::exec_rst`].
pub struct RstCommand;

impl<D> Command<D> for RstCommand where D: IEEE488Device {
    fn meta(&self) -> CommandTypeMeta {
        CommandTypeMeta::NoQuery
    }

    /// Returns what [`IEEE488Device::exec_rst`] returned (recorded in the
    /// context's `hooks`).
    fn event(&self, device: &mut D, context: &mut Context, _params: Parameters<'_, '_>) -> (r: Result<()>)
        ensures
            final(context).hooks@ == old(context).hooks@.push(r),
    {
        context.record_call(false, &*_params.0);
        let r = device.exec_rst();
        context.record_hook(&r);
        r
    }
}

/// ## 10.34 *SRE, Service Request Enable Command
/// Sets (`*SRE <u8>`) or reads (`*SRE?`) the Service Request Enable register.
pub struct SreCommand;

impl<D> Command<D> for SreCommand where D: IEEE488Device {
    fn meta(&self) -> CommandTypeMeta {
        CommandTypeMeta::Both
    }

    fn event(&self, device: &mut D, context: &mut Context, mut params: Parameters<'_, '_>) -> (r: Result<()>)
        ensures
            match required_integer(*old(params.0), 0, 255) {
                Ok(v) => r is Ok && final(device).sre_reg() == v,
                Err(e) => r == Err::<(), Error>(e) && final(device).sre_reg() == old(device).sre_reg(),
            },
            final(device).ese_reg() == old(device).ese_reg(),
            final(device).esr_reg() == old(device).esr_reg(),
    {
        context.record_call(false, &*params.0);
        let sre: u8 = match params.next_data() {
            Ok(v) => v,
            Err(e) => return Err(e),
        };
        device.set_sre(sre);
        Ok(())
    }

    fn query<F: Formatter>(
        &self,
        device: &mut D,
        context: &mut Context,
        _params: Parameters<'_, '_>,
        response: &mut ResponseUnit<'_, F>,
    ) -> (r: Result<()>)
        ensures
            responds(*old(response), *final(response), integer_text(old(device).sre_reg() as int, 10)),
            r == final(response).result,
    {
        context.record_call(true, &*_params.0);
        let v = device.sre();
        response.data(v).finish()
    }
}

/// ## 10.36 *STB?, Read Status Byte Query
/// Responds with the status byte, see [`IEEE488Device::read_stb`].
pub struct StbCommand;

impl<D> Command<D> for StbCommand where D: IEEE488Device {
    fn meta(&self) -> CommandTypeMeta {
        CommandTypeMeta::QueryOnly
    }

    fn query<F: Formatter>(
        &self,
        device: &mut D,
        context: &mut Context,
        _params: Parameters<'_, '_>,
        response: &mut ResponseUnit<'_, F>,
    ) -> (r: Result<()>)
        ensures
            exists|s: u8| call_ensures(D::status, (&*old(device),), s)
                && responds(*old(response), *final(response), integer_text(
                super::stb_value(s, old(device).esr_reg(), old(device).ese_reg(), old(device).sre_reg()) as int, 10)),
            r == final(response).result,
    {
        context.record_call(true, &*_params.0);
        let v = device.read_stb();
        response.data(v).finish()
    }
}

/// The code a self-test result is answered with: `0` on success, else the
/// error's code.
pub open spec fn test_code_of(t: Result<()>) -> i16 {
    match t {
        Ok(_) => 0,
        Err(e) => e.0.code(),
    }
}

/// The code a self-test result is answered with, see [`test_code_of`].
pub fn test_code(t: &Result<()>) -> (c: i16)
    ensures
        c == test_code_of(*t),
{
    match t {
        Ok(_) => 0,
        Err(e) => e.get_code(),
    }
}

/// The self-test result `c` as response data.
pub open spec fn test_result_text(c: i16) -> Seq<u8> {
    integer_text(c as int, 10)
}

/// ## 10.38 *TST?, Self-Test Query
/// Runs [`IEEE488Device::exec_tst`] and responds `0` on success or the
/// code of the error it returned.
pub struct TstCommand;

impl<D> Command<D> for TstCommand where D: IEEE488Device {
    fn meta(&self) -> CommandTypeMeta {
        CommandTypeMeta::QueryOnly
    }

    fn query<F: Formatter>(
        &self,
        device: &mut D,
        context: &mut Context,
        _params: Parameters<'_, '_>,
        response: &mut ResponseUnit<'_, F>,
    ) -> (r: Result<()>)
        ensures
            final(context).hooks@.len() == old(context).hooks@.len() + 1,
            final(context).hooks@.drop_last() == old(context).hooks@,
            responds(*old(response), *final(response), test_result_text(test_code_of(final(context).hooks@.last()))),
            r == final(response).result,
    {
        context.record_call(true, &*_params.0);
        let t = device.exec_tst();
        context.record_hook(&t);
        let code = test_code(&t);
        let r = response.data(code).finish();
        proof {
            assert(context.hooks@.drop_last() =~= old(context).hooks@);
        }
        r
    }
}

/// ## 10.39 *WAI, Wait-to-Continue Command
/// Commands are run one after the other, so there is nothing to wait for.
pub struct WaiCommand;

impl<D> Command<D> for WaiCommand where D: IEEE488Device {
    fn meta(&self) -> CommandTypeMeta {
        CommandTypeMeta::NoQuery
    }

    fn event(&self, device: &mut D, context: &mut Context, _params: Parameters<'_, '_>) -> (r: Result<()>)
        ensures
            r is Ok,
    {
        context.record_call(false, &*_params.0);
        Ok(())
    }
}

} // verus!
