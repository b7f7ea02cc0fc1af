//! IEEE 488.2 status reporting and mandatory common commands.

use vstd::prelude::*;

use crate::error::{esr_bit, Error, ErrorCode, Result};
use crate::Device;

pub mod commands;
pub mod trg;

verus! {

/// The status byte: the device status with the event summary bit (5) set
/// when an enabled standard event is pending, and the master summary bit
/// (6) set when a bit enabled for service request is set.
pub open spec fn stb_value(status: u8, esr: u8, ese: u8, sre: u8) -> u8 {
    let reg = if esr & ese != 0 { status | 0x20 } else { status };
    if reg & sre != 0 { reg | 0x40 } else { reg }
}

/// A device with the IEEE 488.2 status registers.
///
/// `sre_reg`, `esr_reg` and `ese_reg` are the registers' values; each setter
/// changes its own register only.
pub trait IEEE488Device: Device {
    open spec fn sre_reg(&self) -> u8 {
        vstd::pervasive::arbitrary()
    }
    open spec fn esr_reg(&self) -> u8 {
        vstd::pervasive::arbitrary()
    }
    open spec fn ese_reg(&self) -> u8 {
        vstd::pervasive::arbitrary()
    }
    /// The status byte, see [`stb_value`], from the device's [`Self::status`].
    fn read_stb(&self) -> (r: u8)
        ensures
            exists|s: u8| call_ensures(Self::status, (self,), s)
                && r == stb_value(s, self.esr_reg(), self.ese_reg(), self.sre_reg()),
    {
        let mut reg = self.status();
        let ghost s0 = reg;
        //Set ESB bit
        if self.esr() & self.ese() != 0 {
            reg = reg | 0x20;
        }
        //Set MSS bit
        if reg & self.sre() != 0 {
            reg = reg | 0x40;
        }
        // MAV bit is left to user
        assert(reg == stb_value(s0, self.esr_reg(), self.ese_reg(), self.sre_reg()));
        reg
    }

    /// Current status of device
    fn status(&self) -> (r: u8)
        default_ensures
            r == 0,
    {
        0x00
    }

    /// Service Request Enable register
    fn sre(&self) -> (r: u8)
        ensures
            r == self.sre_reg(),
    ;

    /// Set the SRE register
    fn set_sre(&mut self, value: u8)
        ensures
            final(self).sre_reg() == value,
            final(self).esr_reg() == old(self).esr_reg(),
            final(self).ese_reg() == old(self).ese_reg(),
    ;

    /// Event Status Register
    fn esr(&self) -> (r: u8)
        ensures
            r == self.esr_reg(),
    ;

    /// Set the ESR register
    fn set_esr(&mut self, value: u8)
        ensures
            final(self).esr_reg() == value,
            final(self).sre_reg() == old(self).sre_reg(),
            final(self).ese_reg() == old(self).ese_reg(),
    ;

    /// Event Status Enable Register
    fn ese(&self) -> (r: u8)
        ensures
            r == self.ese_reg(),
    ;

    /// Set the ESE register
    fn set_ese(&mut self, value: u8)
        ensures
            final(self).ese_reg() == value,
            final(self).sre_reg() == old(self).sre_reg(),
            final(self).esr_reg() == old(self).esr_reg(),
    ;

    /// # *TST
    /// Return Ok(()) on successfull self-test or
    /// some kind of standard or device-specific error on self-test-fault
    fn exec_tst(&mut self) -> (r: Result<()>)
        default_ensures
            r == Ok::<(), Error>(()),
    {
        Ok(())
    }

    /// # *RST
    fn exec_rst(&mut self) -> (r: Result<()>)
        default_ensures
            r == Ok::<(), Error>(()),
    {
        Ok(())
    }

    /// # *CLS
    /// Clears the event status register (and, on success, leaves it clear);
    /// by default that is all it does.
    fn exec_cls(&mut self) -> (r: Result<()>)
        ensures
            r is Ok ==> final(self).esr_reg() == 0,
        default_ensures
            r is Ok,
            final(self).esr_reg() == 0,
            final(self).sre_reg() == old(self).sre_reg(),
            final(self).ese_reg() == old(self).ese_reg(),
    {
        // Clear ESR
        self.set_esr(0);
        Ok(())
    }

    /// # *OPC
    /// Sets the operation complete bit of the event status register (on
    /// success); by default that is all it does.
    fn exec_opc(&mut self) -> (r: Result<()>)
        ensures
            r is Ok ==> final(self).esr_reg() == old(self).esr_reg() | 0x01,
        default_ensures
            r is Ok,
            final(self).esr_reg() == old(self).esr_reg() | 0x01,
            final(self).sre_reg() == old(self).sre_reg(),
            final(self).ese_reg() == old(self).ese_reg(),
    {
        let esr = self.esr() | ErrorCode::OperationComplete.esr_mask();
        self.set_esr(esr);
        Ok(())
    }

    /// Add a error: sets its bit of the event status register.
    fn _handle_error(&mut self, err: Error)
        ensures
            final(self).esr_reg() == old(self).esr_reg() | esr_bit(err.0.code()),
        default_ensures
            final(self).sre_reg() == old(self).sre_reg(),
            final(self).ese_reg() == old(self).ese_reg(),
    {
        let esr = self.esr() | err.esr_mask();
        self.set_esr(esr);
    }
}

impl<T> Device for T where T: IEEE488Device {
    /// Sets the error's bit of the event status register, see
    /// [`IEEE488Device::_handle_error`].
    fn handle_error(&mut self, err: Error)
        ensures
            final(self).esr_reg() == old(self).esr_reg() | esr_bit(err.0.code()),
    {
        self._handle_error(err)
    }
}

/// The status byte keeps the device's status bits, and its event summary
/// bit (5) is set while an enabled standard event is pending. Where the
/// device sets neither bit 5 nor bit 6 itself, bit 5 is set only then.
pub proof fn lemma_stb_event_summary(status: u8, esr: u8, ese: u8, sre: u8)
    ensures
        stb_value(status, esr, ese, sre) & status == status,
        esr & ese != 0 ==> stb_value(status, esr, ese, sre) & 0x20 == 0x20,
        status & 0x60 == 0 && esr & ese == 0 ==> stb_value(status, esr, ese, sre) & 0x20 == 0,
{
    let reg = if esr & ese != 0 { status | 0x20 } else { status };
    assert(reg & status == status) by (bit_vector)
        requires
            reg == status | 0x20 || reg == status;
    assert((reg | 0x40) & status == status) by (bit_vector)
        requires
            reg & status == status;
    assert(esr & ese != 0 ==> (status | 0x20) & 0x20 == 0x20 && ((status | 0x20) | 0x40) & 0x20 == 0x20) by (bit_vector);
    assert(status & 0x60 == 0 ==> status & 0x20 == 0 && (status | 0x40) & 0x20 == 0) by (bit_vector);
}

/// The master summary bit (6) of the status byte is set whenever a bit
/// enabled for service request is set; where the device does not set bit 6
/// itself, only then.
pub proof fn lemma_stb_master_summary(status: u8, esr: u8, ese: u8, sre: u8)
    ensures
        ({
            let reg = if esr & ese != 0 { status | 0x20 } else { status };
            &&& reg & sre != 0 ==> stb_value(status, esr, ese, sre) & 0x40 == 0x40
            &&& status & 0x40 == 0 && reg & sre == 0 ==> stb_value(status, esr, ese, sre) & 0x40 == 0
        }),
{
    let reg = if esr & ese != 0 { status | 0x20 } else { status };
    assert((reg | 0x40) & 0x40 == 0x40) by (bit_vector);
    assert(status & 0x40 == 0 ==> status & 0x40 == 0 && (status | 0x20) & 0x40 == 0) by (bit_vector);
}

} // verus!
