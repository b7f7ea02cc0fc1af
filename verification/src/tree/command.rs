//! Command trait and helper types.

use vstd::prelude::*;

use crate::error::{Error, ErrorCode, Result};
use crate::parser::parameters::Parameters;
use crate::parser::response::{Formatter, ResponseUnit};
use crate::{Context, Device};

verus! {

/// Hint about the command forms.
#[derive(Copy, Clone, PartialEq, Eq, Debug)]
pub enum CommandTypeMeta {
    /// Not known
    Unknown,
    /// Query not allowed
    NoQuery,
    /// Only query allowed
    QueryOnly,
    /// Both query and event are allowed
    Both,
}

/// This trait implements a command with event/query operations.
///
/// The default stubs for [Command::event] and [Command::query] return an
/// [ErrorCode::UndefinedHeader] error.
pub trait Command<D: Device> {
    /// Whether the command's handlers can run; a handler that cannot
    /// (see [`Todo`]) sets this to `false`.
    open spec fn implemented(&self) -> bool {
        true
    }

    /// Hint about the allowed forms this command allows.
    fn meta(&self) -> (m: CommandTypeMeta)
        default_ensures
            m == CommandTypeMeta::Unknown,
    {
        CommandTypeMeta::Unknown
    }

    /// Called when the event form `COMmand` is used. The handler records
    /// its call in the context (see [`Context::record_call`]) and reads its
    /// parameters forward only.
    fn event(&self, device: &mut D, context: &mut Context, params: Parameters<'_, '_>) -> (r: Result<()>)
        requires
            self.implemented(),
        ensures
            final(params.0).reads_on(*old(params.0)),
            final(context).calls@ == old(context).calls@.push((false, old(params.0).state())),
            final(context).results@ == old(context).results@,
            final(context).handled@ == old(context).handled@,
        default_ensures
            r == Err::<(), Error>(Error(ErrorCode::UndefinedHeader, None)),
    {
        context.record_call(false, &*params.0);
        Err(Error::new(ErrorCode::UndefinedHeader))
    }

    /// Called when the query form `COMmand?` is used; records its call as
    /// the event form does.
    fn query<F: Formatter>(
        &self,
        device: &mut D,
        context: &mut Context,
        params: Parameters<'_, '_>,
        response: &mut ResponseUnit<'_, F>,
    ) -> (r: Result<()>)
        requires
            self.implemented(),
        ensures
            final(params.0).reads_on(*old(params.0)),
            final(context).calls@ == old(context).calls@.push((true, old(params.0).state())),
            final(context).results@ == old(context).results@,
            final(context).handled@ == old(context).handled@,
        default_ensures
            r == Err::<(), Error>(Error(ErrorCode::UndefinedHeader, None)),
    {
        context.record_call(true, &*params.0);
        Err(Error::new(ErrorCode::UndefinedHeader))
    }
}

/// Placeholder for an unfinished command: its handlers cannot be run.
pub struct Todo;

impl<D: Device> Command<D> for Todo {
    open spec fn implemented(&self) -> bool {
        false
    }

    fn event(&self, device: &mut D, context: &mut Context, params: Parameters<'_, '_>) -> (r: Result<()>) {
        context.record_call(false, &*params.0);
        proof {
            assert(false);
        }
        Err(Error::new(ErrorCode::UndefinedHeader))
    }

    fn query<F: Formatter>(
        &self,
        device: &mut D,
        context: &mut Context,
        params: Parameters<'_, '_>,
        response: &mut ResponseUnit<'_, F>,
    ) -> (r: Result<()>) {
        context.record_call(true, &*params.0);
        proof {
            assert(false);
        }
        Err(Error::new(ErrorCode::UndefinedHeader))
    }
}

} // verus!
