//! A SCPI-99 device: IEEE 488.2 registers, an error/event queue and the
//! OPERation and QUEStionable status registers.

use vstd::prelude::*;

use crate::error::{esr_bit, queued, Error, ErrorCode, ErrorQueue, Result};
use crate::ieee488::IEEE488Device;
use crate::Device;

use super::register::{EventRegister, EventRegisterName, GetEventRegister};
use super::status::{Operation, Questionable};

verus! {

/// The OPERation register of `d`.
pub open spec fn operation<D: GetEventRegister<Operation> + ?Sized>(d: &D) -> EventRegister {
    <D as GetEventRegister<Operation>>::event_register(d)
}

/// The QUEStionable register of `d`.
pub open spec fn questionable<D: GetEventRegister<Questionable> + ?Sized>(d: &D) -> EventRegister {
    <D as GetEventRegister<Questionable>>::event_register(d)
}

/// A SCPI-99 device.
///
/// `sre_value`, `esr_value` and `ese_value` are the IEEE 488.2 registers;
/// each setter changes its own register only and leaves the status
/// registers and the error queue as they were.
pub trait ScpiDevice: Device + ErrorQueue + GetEventRegister<Operation> + GetEventRegister<Questionable> {
    open spec fn sre_value(&self) -> u8 {
        vstd::pervasive::arbitrary()
    }
    open spec fn esr_value(&self) -> u8 {
        vstd::pervasive::arbitrary()
    }
    open spec fn ese_value(&self) -> u8 {
        vstd::pervasive::arbitrary()
    }
    /// Device specific status bits of the status byte.
    fn status(&self) -> (r: u8)
        default_ensures
            r == 0,
    {
        0x00
    }

    fn sre(&self) -> (r: u8)
        ensures
            r == self.sre_value(),
    ;

    fn set_sre(&mut self, value: u8)
        ensures
            final(self).sre_value() == value,
            final(self).esr_value() == old(self).esr_value(),
            final(self).ese_value() == old(self).ese_value(),
            final(self).errors() == old(self).errors(),
            operation(final(self)) == operation(old(self)),
            questionable(final(self)) == questionable(old(self)),
    ;

    fn esr(&self) -> (r: u8)
        ensures
            r == self.esr_value(),
    ;

    fn set_esr(&mut self, value: u8)
        ensures
            final(self).esr_value() == value,
            final(self).sre_value() == old(self).sre_value(),
            final(self).ese_value() == old(self).ese_value(),
            final(self).errors() == old(self).errors(),
            operation(final(self)) == operation(old(self)),
            questionable(final(self)) == questionable(old(self)),
    ;

    fn ese(&self) -> (r: u8)
        ensures
            r == self.ese_value(),
    ;

    fn set_ese(&mut self, value: u8)
        ensures
            final(self).ese_value() == value,
            final(self).sre_value() == old(self).sre_value(),
            final(self).esr_value() == old(self).esr_value(),
            final(self).errors() == old(self).errors(),
            operation(final(self)) == operation(old(self)),
            questionable(final(self)) == questionable(old(self)),
    ;

    /// `STATus:PRESet`: by default presets the OPERation and then the
    /// QUEStionable register. (Whether presetting one register leaves the
    /// other as it was is up to the device.)
    fn exec_preset(&mut self) -> (r: Result<()>)
        default_ensures
            r is Ok,
            questionable(final(self)).condition == 0,
            questionable(final(self)).enable == 0,
            questionable(final(self)).ptr_filter == 0xffff,
            questionable(final(self)).ntr_filter == 0,
    {
        <Self as GetEventRegister<Operation>>::register_mut(self).preset();
        <Self as GetEventRegister<Questionable>>::register_mut(self).preset();
        Ok(())
    }

    /// `*TST?`: by default the self-test passes.
    fn exec_tst(&mut self) -> (r: Result<()>)
        default_ensures
            r == Ok::<(), Error>(()),
    {
        Ok(())
    }

    /// `*RST`: by default there is nothing to reset.
    fn exec_rst(&mut self) -> (r: Result<()>)
        default_ensures
            r == Ok::<(), Error>(()),
    {
        Ok(())
    }

    /// `*OPC`: sets the operation complete bit of the event status register
    /// (on success); by default it also queues an operation complete event.
    fn exec_opc(&mut self) -> (r: Result<()>)
        ensures
            r is Ok ==> final(self).esr_value() == old(self).esr_value() | 0x01,
        default_ensures
            r is Ok,
            queued(old(self).errors(), Error(ErrorCode::OperationComplete, None), final(self).errors()),
    {
        let esr = self.esr() | ErrorCode::OperationComplete.esr_mask();
        self.push_back_error(Error::new(ErrorCode::OperationComplete));
        self.set_esr(esr);
        Ok(())
    }

    /// `*CLS`: clears the event status register (and, on success, leaves
    /// it clear); by default it clears the events of the OPERation and the
    /// QUEStionable register too.
    fn exec_cls(&mut self) -> (r: Result<()>)
        ensures
            r is Ok ==> final(self).esr_value() == 0,
        default_ensures
            r is Ok,
            questionable(final(self)).event == 0,
    {
        // Clear event registers
        <Self as GetEventRegister<Operation>>::register_mut(self).clear_event();
        <Self as GetEventRegister<Questionable>>::register_mut(self).clear_event();
        // Clear ESR
        self.set_esr(0);
        Ok(())
    }

    /// Sets the error's bit of the event status register and queues the
    /// error.
    fn _handle_error(&mut self, err: Error)
        ensures
            final(self).esr_value() == old(self).esr_value() | esr_bit(err.0.code()),
            queued(old(self).errors(), err, final(self).errors()),
    {
        let esr = self.esr() | err.esr_mask();
        // Add error to error/event queue
        self.push_back_error(err);
        // Set ESR mask
        self.set_esr(esr);
    }
}

/// The status byte of a SCPI device: its own status bits, with the
/// OPERation summary (bit 7), the QUEStionable summary (bit 3) and the
/// error queue (bit 2, set while the queue holds errors).
pub open spec fn scpi_status(own: u8, operation_summary: bool, questionable_summary: bool, has_errors: bool) -> u8 {
    let a = if operation_summary { own | 0x80 } else { own };
    let b = if questionable_summary { a | 0x08 } else { a };
    if has_errors { b | 0x04 } else { b }
}

/// Whether the enabled condition bits of `reg` (other than bit 15) are set.
pub open spec fn summary(reg: EventRegister) -> bool {
    (reg.condition & reg.enable) & 0x7fffu16 != 0u16
}

impl<T> IEEE488Device for T where T: ScpiDevice {
    open spec fn sre_reg(&self) -> u8 {
        self.sre_value()
    }

    open spec fn esr_reg(&self) -> u8 {
        self.esr_value()
    }

    open spec fn ese_reg(&self) -> u8 {
        self.ese_value()
    }

    /// The device's own status bits with the summaries of the OPERation and
    /// QUEStionable registers and the error queue bit, see [`scpi_status`].
    fn status(&self) -> (r: u8)
        ensures
            exists|own: u8| call_ensures(<Self as ScpiDevice>::status, (self,), own)
                && r == scpi_status(own, summary(operation(self)), summary(questionable(self)), self.errors().len() > 0),
    {
        let mut reg = <Self as ScpiDevice>::status(self);
        let ghost own = reg;
        //Set OPERation status bits
        if <Self as GetEventRegister<Operation>>::register(self).get_summary() {
            reg = reg | 0x80;
        }
        //Set QUEStionable status bit
        if <Self as GetEventRegister<Questionable>>::register(self).get_summary() {
            reg = reg | 0x08;
        }
        //Set error queue empty bit
        if !self.not_empty() {
            reg = reg | 0x04;
        }
        reg
    }

    fn sre(&self) -> (r: u8) {
        <Self as ScpiDevice>::sre(self)
    }

    fn set_sre(&mut self, value: u8) {
        <Self as ScpiDevice>::set_sre(self, value)
    }

    fn esr(&self) -> (r: u8) {
        <Self as ScpiDevice>::esr(self)
    }

    fn set_esr(&mut self, value: u8) {
        <Self as ScpiDevice>::set_esr(self, value)
    }

    fn ese(&self) -> (r: u8) {
        <Self as ScpiDevice>::ese(self)
    }

    fn set_ese(&mut self, value: u8) {
        <Self as ScpiDevice>::set_ese(self, value)
    }

    fn exec_tst(&mut self) -> Result<()> {
        <Self as ScpiDevice>::exec_tst(self)
    }

    fn exec_rst(&mut self) -> Result<()> {
        <Self as ScpiDevice>::exec_rst(self)
    }

    fn exec_cls(&mut self) -> (r: Result<()>) {
        <Self as ScpiDevice>::exec_cls(self)
    }

    fn exec_opc(&mut self) -> (r: Result<()>) {
        <Self as ScpiDevice>::exec_opc(self)
    }

    /// Sets the error's bit of the event status register and queues the
    /// error, see [`ScpiDevice::_handle_error`].
    fn _handle_error(&mut self, err: Error)
        ensures
            queued(old(self).errors(), err, final(self).errors()),
    {
        <Self as ScpiDevice>::_handle_error(self, err)
    }
}

/// The status byte of a SCPI device reports its status registers and its
/// error queue: bit 7 is set while the OPERation summary is, bit 3 while the
/// QUEStionable summary is, and bit 2 while the error queue holds errors.
pub proof fn lemma_scpi_status_byte<T: ScpiDevice>(dev: &T, stb: u8)
    requires
        call_ensures(<T as IEEE488Device>::read_stb, (dev,), stb),
    ensures
        summary(operation(dev)) ==> stb & 0x80 == 0x80,
        summary(questionable(dev)) ==> stb & 0x08 == 0x08,
        dev.errors().len() > 0 ==> stb & 0x04 == 0x04,
{
    let s = choose|s: u8| call_ensures(<T as IEEE488Device>::status, (dev,), s)
        && stb == crate::ieee488::stb_value(s, dev.esr_reg(), dev.ese_reg(), dev.sre_reg());
    crate::ieee488::lemma_stb_event_summary(s, dev.esr_reg(), dev.ese_reg(), dev.sre_reg());
    let own = choose|own: u8| call_ensures(<T as ScpiDevice>::status, (dev,), own)
        && s == scpi_status(own, summary(operation(dev)), summary(questionable(dev)), dev.errors().len() > 0);
    let op = summary(operation(dev));
    let q = summary(questionable(dev));
    let e = dev.errors().len() > 0;
    let a = if summary(operation(dev)) { own | 0x80 } else { own };
    let b = if summary(questionable(dev)) { a | 0x08 } else { a };
    assert(op ==> a & 0x80 == 0x80) by (bit_vector)
        requires
            op ==> a == own | 0x80;
    assert(a & 0x80 == 0x80 ==> b & 0x80 == 0x80) by (bit_vector)
        requires
            b == a || b == a | 0x08;
    assert(q ==> b & 0x08 == 0x08) by (bit_vector)
        requires
            q ==> b == a | 0x08;
    assert(b & 0x88 == 0x88 ==> s & 0x88 == 0x88) by (bit_vector)
        requires
            s == b || s == b | 0x04;
    assert(b & 0x80 == 0x80 ==> s & 0x80 == 0x80) by (bit_vector)
        requires
            s == b || s == b | 0x04;
    assert(b & 0x08 == 0x08 ==> s & 0x08 == 0x08) by (bit_vector)
        requires
            s == b || s == b | 0x04;
    assert(e ==> s & 0x04 == 0x04) by (bit_vector)
        requires
            e ==> s == b | 0x04;
    assert(s & 0x80 == 0x80 ==> stb & 0x80 == 0x80) by (bit_vector)
        requires
            stb & s == s;
    assert(s & 0x08 == 0x08 ==> stb & 0x08 == 0x08) by (bit_vector)
        requires
            stb & s == s;
    assert(s & 0x04 == 0x04 ==> stb & 0x04 == 0x04) by (bit_vector)
        requires
            stb & s == s;
}

} // verus!
