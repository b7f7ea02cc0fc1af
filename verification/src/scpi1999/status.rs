//! # 20 STATus Subsystem
//! The OPERation and QUEStionable status registers.

use vstd::prelude::*;

use super::register::{BitFlags, EventRegisterName};

verus! {

/// The OPERation status register.
pub struct Operation;

impl EventRegisterName for Operation {
    type BitFlags = OperationBits;
}

/// Bits of the OPERation status register.
#[derive(Clone, Copy, PartialEq, Eq, Debug)]
pub enum OperationBits {
    Calibrating,
    Settling,
    Ranging,
    Sweeping,
    Measuring,
    WaitingForTrig,
    WaitingForArm,
    Correcting,
    Designer1,
    Designer2,
    Designer3,
    Designer4,
    Designer5,
    InstrumentSummary,
    ProgramRunning,
}

impl OperationBits {
    /// The bit's position in the register.
    pub open spec fn position(self) -> u16 {
        match self {
            OperationBits::Calibrating => 0,
            OperationBits::Settling => 1,
            OperationBits::Ranging => 2,
            OperationBits::Sweeping => 3,
            OperationBits::Measuring => 4,
            OperationBits::WaitingForTrig => 5,
            OperationBits::WaitingForArm => 6,
            OperationBits::Correcting => 7,
            OperationBits::Designer1 => 8,
            OperationBits::Designer2 => 9,
            OperationBits::Designer3 => 10,
            OperationBits::Designer4 => 11,
            OperationBits::Designer5 => 12,
            OperationBits::InstrumentSummary => 13,
            OperationBits::ProgramRunning => 14,
        }
    }
}

impl BitFlags<u16> for OperationBits {
    fn get_mask(self) -> (m: u16)
        ensures
            m == 1u16 << self.position(),
    {
        let p = self.get_pos();
        1u16 << p
    }

    fn get_pos(self) -> (p: u16)
        ensures
            p == self.position(),
    {
        match self {
            OperationBits::Calibrating => 0,
            OperationBits::Settling => 1,
            OperationBits::Ranging => 2,
            OperationBits::Sweeping => 3,
            OperationBits::Measuring => 4,
            OperationBits::WaitingForTrig => 5,
            OperationBits::WaitingForArm => 6,
            OperationBits::Correcting => 7,
            OperationBits::Designer1 => 8,
            OperationBits::Designer2 => 9,
            OperationBits::Designer3 => 10,
            OperationBits::Designer4 => 11,
            OperationBits::Designer5 => 12,
            OperationBits::InstrumentSummary => 13,
            OperationBits::ProgramRunning => 14,
        }
    }
}

/// The QUEStionable status register.
pub struct Questionable;

impl EventRegisterName for Questionable {
    type BitFlags = QuestionableBits;
}

/// Bits of the QUEStionable status register.
#[derive(Clone, Copy, PartialEq, Eq, Debug)]
pub enum QuestionableBits {
    SummaryVoltage,
    SummaryCurrent,
    SummaryTime,
    SummaryPower,
    SummaryTemperature,
    SummaryFrequency,
    SummaryPhase,
    SummaryModulation,
    SummaryCalibration,
    Designer1,
    Designer2,
    Designer3,
    Designer4,
    InstrumentSummary,
    CommandWarning,
}

impl QuestionableBits {
    /// The bit's position in the register.
    pub open spec fn position(self) -> u16 {
        match self {
            QuestionableBits::SummaryVoltage => 0,
            QuestionableBits::SummaryCurrent => 1,
            QuestionableBits::SummaryTime => 2,
            QuestionableBits::SummaryPower => 3,
            QuestionableBits::SummaryTemperature => 4,
            QuestionableBits::SummaryFrequency => 5,
            QuestionableBits::SummaryPhase => 6,
            QuestionableBits::SummaryModulation => 7,
            QuestionableBits::SummaryCalibration => 8,
            QuestionableBits::Designer1 => 9,
            QuestionableBits::Designer2 => 10,
            QuestionableBits::Designer3 => 11,
            QuestionableBits::Designer4 => 12,
            QuestionableBits::InstrumentSummary => 13,
            QuestionableBits::CommandWarning => 14,
        }
    }
}

impl BitFlags<u16> for QuestionableBits {
    fn get_mask(self) -> (m: u16)
        ensures
            m == 1u16 << self.position(),
    {
        let p = self.get_pos();
        1u16 << p
    }

    fn get_pos(self) -> (p: u16)
        ensures
            p == self.position(),
    {
        match self {
            QuestionableBits::SummaryVoltage => 0,
            QuestionableBits::SummaryCurrent => 1,
            QuestionableBits::SummaryTime => 2,
            QuestionableBits::SummaryPower => 3,
            QuestionableBits::SummaryTemperature => 4,
            QuestionableBits::SummaryFrequency => 5,
            QuestionableBits::SummaryPhase => 6,
            QuestionableBits::SummaryModulation => 7,
            QuestionableBits::SummaryCalibration => 8,
            QuestionableBits::Designer1 => 9,
            QuestionableBits::Designer2 => 10,
            QuestionableBits::Designer3 => 11,
            QuestionableBits::Designer4 => 12,
            QuestionableBits::InstrumentSummary => 13,
            QuestionableBits::CommandWarning => 14,
        }
    }
}

} // verus!

use core::marker::PhantomData;

use crate::error::{Error, Result};
use crate::parser::lexical::integer_text;
use crate::parser::parameters::{required_integer, Parameters};
use crate::parser::response::{responds, Formatter, ResponseUnit};
use crate::tree::command::{Command, CommandTypeMeta};
use crate::{Context, Device};

use super::device::ScpiDevice;
use super::register::{EventRegister, GetEventRegister};

verus! {

/// The register `T` of `d`.
pub open spec fn register_of<T: EventRegisterName, D: GetEventRegister<T>>(d: &D) -> EventRegister {
    <D as GetEventRegister<T>>::event_register(d)
}

/// `STATus:PRESet`: runs [`ScpiDevice::exec_preset`].
pub struct StatPresCommand;

impl<D> Command<D> for StatPresCommand where D: ScpiDevice {
    fn meta(&self) -> CommandTypeMeta {
        CommandTypeMeta::NoQuery
    }

    /// Returns what [`ScpiDevice::exec_preset`] returned (recorded in the
    /// context's `hooks`).
    fn event(&self, device: &mut D, context: &mut Context, _params: Parameters<'_, '_>) -> (r: Result<()>)
        ensures
            final(context).hooks@ == old(context).hooks@.push(r),
    {
        context.record_call(false, &*_params.0);
        let r = device.exec_preset();
        context.record_hook(&r);
        r
    }
}

/// `STATus:<register>[:EVENt]?`: responds with the event register (bits 0
/// to 14) and clears it.
pub struct EventCommand<T>(PhantomData<T>);

impl<T> EventCommand<T> {
    pub fn new() -> Self {
        Self(PhantomData)
    }
}

impl<D, T> Command<D> for EventCommand<T> where T: EventRegisterName, D: Device + GetEventRegister<T> {
    fn meta(&self) -> CommandTypeMeta {
        CommandTypeMeta::QueryOnly
    }

    fn query<F: Formatter>(
        &self,
        device: &mut D,
        context: &mut Context,
        _params: Parameters<'_, '_>,
        response: &mut ResponseUnit<'_, F>,
    ) -> (r: Result<()>)
        ensures
            responds(*old(response), *final(response),
                integer_text((register_of::<T, D>(old(device)).event & 0x7fffu16) as int, 10)),
            r == final(response).result,
            register_of::<T, D>(final(device)) == (EventRegister { event: 0, ..register_of::<T, D>(old(device)) }),
    {
        context.record_call(true, &*_params.0);
        let reg = device.register_mut();
        let event = reg.event;
        reg.event = 0;
        response.data(event & 0x7fffu16).finish()
    }
}

/// `STATus:<register>:CONDition?`: responds with the condition register
/// (bits 0 to 14).
pub struct CondCommand<T>(PhantomData<T>);

impl<T> CondCommand<T> {
    pub fn new() -> Self {
        Self(PhantomData)
    }
}

impl<D, T> Command<D> for CondCommand<T> where T: EventRegisterName, D: Device + GetEventRegister<T> {
    fn meta(&self) -> CommandTypeMeta {
        CommandTypeMeta::QueryOnly
    }

    fn query<F: Formatter>(
        &self,
        device: &mut D,
        context: &mut Context,
        _params: Parameters<'_, '_>,
        response: &mut ResponseUnit<'_, F>,
    ) -> (r: Result<()>)
        ensures
            responds(*old(response), *final(response),
                integer_text((register_of::<T, D>(old(device)).condition & 0x7fffu16) as int, 10)),
            r == final(response).result,
    {
        context.record_call(true, &*_params.0);
        let v = device.register().condition & 0x7fffu16;
        response.data(v).finish()
    }
}

} // verus!

verus! {

/// `STATus:<register>:ENABle`: sets (`<u16>`) or reads the enable register
/// (bits 0 to 14 are read).
pub struct EnabCommand<T>(PhantomData<T>);

impl<T> EnabCommand<T> {
    pub fn new() -> Self {
        Self(PhantomData)
    }
}

impl<D, T> Command<D> for EnabCommand<T> where T: EventRegisterName, D: Device + GetEventRegister<T> {
    fn meta(&self) -> CommandTypeMeta {
        CommandTypeMeta::Both
    }

    fn event(&self, device: &mut D, context: &mut Context, mut params: Parameters<'_, '_>) -> (r: Result<()>)
        ensures
            match required_integer(*old(params.0), 0, 65535) {
                Ok(v) => r is Ok && register_of::<T, D>(final(device)) == (EventRegister { enable: v as u16, ..register_of::<T, D>(old(device)) }),
                Err(e) => r == Err::<(), Error>(e) && register_of::<T, D>(final(device)) == register_of::<T, D>(old(device)),
            },
    {
        context.record_call(false, &*params.0);
        let v: u16 = match params.next_data() {
            Ok(v) => v,
            Err(e) => return Err(e),
        };
        device.register_mut().enable = v;
        Ok(())
    }

    fn query<F: Formatter>(
        &self,
        device: &mut D,
        context: &mut Context,
        _params: Parameters<'_, '_>,
        response: &mut ResponseUnit<'_, F>,
    ) -> (r: Result<()>)
        ensures
            responds(*old(response), *final(response),
                integer_text((register_of::<T, D>(old(device)).enable & 0x7fffu16) as int, 10)),
            r == final(response).result,
    {
        context.record_call(true, &*_params.0);
        let v = device.register().enable & 0x7fffu16;
        response.data(v).finish()
    }
}

} // verus!

verus! {

/// `STATus:<register>:NTRansition`: sets (`<u16>`) or reads the negative transition filter
/// (bits 0 to 14 are read).
pub struct NtrCommand<T>(PhantomData<T>);

impl<T> NtrCommand<T> {
    pub fn new() -> Self {
        Self(PhantomData)
    }
}

impl<D, T> Command<D> for NtrCommand<T> where T: EventRegisterName, D: Device + GetEventRegister<T> {
    fn meta(&self) -> CommandTypeMeta {
        CommandTypeMeta::Both
    }

    fn event(&self, device: &mut D, context: &mut Context, mut params: Parameters<'_, '_>) -> (r: Result<()>)
        ensures
            match required_integer(*old(params.0), 0, 65535) {
                Ok(v) => r is Ok && register_of::<T, D>(final(device)) == (EventRegister { ntr_filter: v as u16, ..register_of::<T, D>(old(device)) }),
                Err(e) => r == Err::<(), Error>(e) && register_of::<T, D>(final(device)) == register_of::<T, D>(old(device)),
            },
    {
        context.record_call(false, &*params.0);
        let v: u16 = match params.next_data() {
            Ok(v) => v,
            Err(e) => return Err(e),
        };
        device.register_mut().ntr_filter = v;
        Ok(())
    }

    fn query<F: Formatter>(
        &self,
        device: &mut D,
        context: &mut Context,
        _params: Parameters<'_, '_>,
        response: &mut ResponseUnit<'_, F>,
    ) -> (r: Result<()>)
        ensures
            responds(*old(response), *final(response),
                integer_text((register_of::<T, D>(old(device)).ntr_filter & 0x7fffu16) as int, 10)),
            r == final(response).result,
    {
        context.record_call(true, &*_params.0);
        let v = device.register().ntr_filter & 0x7fffu16;
        response.data(v).finish()
    }
}

} // verus!

verus! {

/// `STATus:<register>:PTRansition`: sets (`<u16>`) or reads the positive transition filter
/// (bits 0 to 14 are read).
pub struct PtrCommand<T>(PhantomData<T>);

impl<T> PtrCommand<T> {
    pub fn new() -> Self {
        Self(PhantomData)
    }
}

impl<D, T> Command<D> for PtrCommand<T> where T: EventRegisterName, D: Device + GetEventRegister<T> {
    fn meta(&self) -> CommandTypeMeta {
        CommandTypeMeta::Both
    }

    fn event(&self, device: &mut D, context: &mut Context, mut params: Parameters<'_, '_>) -> (r: Result<()>)
        ensures
            match required_integer(*old(params.0), 0, 65535) {
                Ok(v) => r is Ok && register_of::<T, D>(final(device)) == (EventRegister { ptr_filter: v as u16, ..register_of::<T, D>(old(device)) }),
                Err(e) => r == Err::<(), Error>(e) && register_of::<T, D>(final(device)) == register_of::<T, D>(old(device)),
            },
    {
        context.record_call(false, &*params.0);
        let v: u16 = match params.next_data() {
            Ok(v) => v,
            Err(e) => return Err(e),
        };
        device.register_mut().ptr_filter = v;
        Ok(())
    }

    fn query<F: Formatter>(
        &self,
        device: &mut D,
        context: &mut Context,
        _params: Parameters<'_, '_>,
        response: &mut ResponseUnit<'_, F>,
    ) -> (r: Result<()>)
        ensures
            responds(*old(response), *final(response),
                integer_text((register_of::<T, D>(old(device)).ptr_filter & 0x7fffu16) as int, 10)),
            r == final(response).result,
    {
        context.record_call(true, &*_params.0);
        let v = device.register().ptr_filter & 0x7fffu16;
        response.data(v).finish()
    }
}

} // verus!

verus! {

/// `STATus:OPERation[:EVENt]?`
pub type StatOperEvenCommand = EventCommand<Operation>;
/// `STATus:OPERation:CONDition?`
pub type StatOperCondCommand = CondCommand<Operation>;
/// `STATus:OPERation:ENABle`
pub type StatOperEnabCommand = EnabCommand<Operation>;
/// `STATus:OPERation:NTRansition`
pub type StatOperNtrCommand = NtrCommand<Operation>;
/// `STATus:OPERation:PTRansition`
pub type StatOperPtrCommand = PtrCommand<Operation>;
/// `STATus:QUEStionable[:EVENt]?`
pub type StatQuesEvenCommand = EventCommand<Questionable>;
/// `STATus:QUEStionable:CONDition?`
pub type StatQuesCondCommand = CondCommand<Questionable>;
/// `STATus:QUEStionable:ENABle`
pub type StatQuesEnabCommand = EnabCommand<Questionable>;
/// `STATus:QUEStionable:NTRansition`
pub type StatQuesNtrCommand = NtrCommand<Questionable>;
/// `STATus:QUEStionable:PTRansition`
pub type StatQuesPtrCommand = PtrCommand<Questionable>;

/// What `STATus:<register>:ENABle <n>` sets, `STATus:<register>:ENABle?`
/// reports, for every `n` below bit 15 (bit 15 is not reported).
pub proof fn lemma_enable_write_read(before: EventRegister, n: u16)
    requires
        n < 0x8000,
    ensures
        (EventRegister { enable: n, ..before }).enable & 0x7fffu16 == n,
{
    assert(n < 0x8000 ==> n & 0x7fffu16 == n) by (bit_vector);
}

} // verus!
