//! # 20 TRIGger Subsystem

use vstd::prelude::*;

use crate::error::Result;
use crate::parser::parameters::Parameters;
use crate::tree::command::{Command, CommandTypeMeta};
use crate::Context;

use super::ScpiDevice;

verus! {

/// A device whose trigger system can be aborted.
pub trait Abort {
    /// Abort trigger
    fn abort(&mut self);
}

/// # ABORt
/// `ABORt`
///
/// The ABORt command resets the trigger system and places all trigger sequences in the IDLE
/// state. Any actions related to the trigger system that are in progress, such as a sweep or
/// acquiring a measurement, shall also be aborted as quickly as possible.
///
/// This command is an event and has no associated *RST condition or query form.
pub struct AbortCommand;

impl<D> Command<D> for AbortCommand where D: ScpiDevice + Abort {
    fn meta(&self) -> CommandTypeMeta {
        CommandTypeMeta::NoQuery
    }

    /// Aborts the trigger system; never fails.
    fn event(&self, device: &mut D, context: &mut Context, _params: Parameters<'_, '_>) -> (r: Result<()>)
        ensures
            r == Ok::<(), crate::error::Error>(()),
    {
        context.record_call(false, &*_params.0);
        device.abort();
        Ok(())
    }
}

} // verus!
