//! IEEE488.2 Trigger command

use vstd::prelude::*;

use crate::error::Result;
use crate::parser::parameters::Parameters;
use crate::tree::command::{Command, CommandTypeMeta};
use crate::Context;

use super::IEEE488Device;

verus! {

/// Implements trigger logic for the `*TRG` command
pub trait IEEE488Trg {
    /// Called when `*TRG` is executed.
    fn exec_trg(&mut self) -> Result<()>;
}

///## 10.37 *TRG, Trigger Command
///> The Trigger command is the device-specific analog of the IEEE 488.1 defined Group Execute Trigger (GET) interface
///> message, and has exactly the same effect as a GET when received, parsed, and executed by the device.
pub struct TrgCommand;

impl<D> Command<D> for TrgCommand where D: IEEE488Device + IEEE488Trg {
    fn meta(&self) -> CommandTypeMeta {
        CommandTypeMeta::NoQuery
    }

    /// Returns what [`IEEE488Trg::exec_trg`] returned (recorded in the
    /// context's `hooks`).
    fn event(&self, device: &mut D, context: &mut Context, _params: Parameters<'_, '_>) -> (r: Result<()>)
        ensures
            final(context).hooks@ == old(context).hooks@.push(r),
    {
        context.record_call(false, &*_params.0);
        let r = device.exec_trg();
        context.record_hook(&r);
        r
    }
}

} // verus!
