//! Range and resolution commands shared by the sensor functions.

use core::marker::PhantomData;

use vstd::prelude::*;

use crate::error::{Error, Result};
use crate::parser::parameters::{optional_token, required, Parameters};
use crate::parser::response::{Formatter, ResponseUnit};
use crate::scpi1999::device::ScpiDevice;
use crate::scpi1999::numeric::NumericValue;
use crate::scpi1999::util::Auto;
use crate::tree::command::{Command, CommandTypeMeta};
use crate::Context;

use super::{Sense, SenseFunction};

verus! {

/// The next parameter is missing or the tokenizer fails on it.
pub open spec fn parameter_error(p: crate::parser::tokenizer::Tokenizer) -> Option<Error> {
    match required(optional_token(p.rest(), p.header(), p.common()).0) {
        Err(e) => Some(Error(e, None)),
        _ => None,
    }
}

/// A device whose sensor `N` has a selectable range for `FUNC`.
pub trait SenseRange<FUNC, const N: usize>: Sense<N> where FUNC: SenseFunction {
    fn range_upper(&mut self, upper: NumericValue<FUNC::Unit>) -> Result<()>;

    fn get_range_upper(&self) -> FUNC::Unit;

    fn range_lower(&mut self, lower: NumericValue<FUNC::Unit>) -> Result<()>;

    fn get_range_lower(&self) -> FUNC::Unit;

    fn auto(&mut self, auto: Auto) -> Result<()>;

    fn get_auto(&self) -> Auto;
}

/// `SENSe:<function>:RANGe:UPPer`
pub struct SenseRangeUpperCommand<FUNC, const N: usize> {
    phantom: PhantomData<FUNC>,
}

impl<FUNC, const N: usize> SenseRangeUpperCommand<FUNC, N> {
    pub fn new() -> Self {
        Self { phantom: PhantomData }
    }
}

impl<D, FUNC, const N: usize> Command<D> for SenseRangeUpperCommand<FUNC, N> where
    D: ScpiDevice + Sense<N> + SenseRange<FUNC, N>,
    FUNC: SenseFunction,
 {
    fn meta(&self) -> CommandTypeMeta {
        CommandTypeMeta::Both
    }

    /// Hands the parameter to [`SenseRange::range_upper`].
    fn event(&self, device: &mut D, context: &mut Context, mut params: Parameters<'_, '_>) -> (r: Result<()>)
        ensures
            parameter_error(*old(params.0)) matches Some(e) ==> r == Err::<(), Error>(e),
    {
        context.record_call(false, &*params.0);
        let upper = match params.next_data::<NumericValue<FUNC::Unit>>() {
            Ok(v) => v,
            Err(e) => return Err(e),
        };
        device.range_upper(upper)
    }

    fn query<F: Formatter>(
        &self,
        device: &mut D,
        context: &mut Context,
        _params: Parameters<'_, '_>,
        response: &mut ResponseUnit<'_, F>,
    ) -> (r: Result<()>)
        ensures
            r == final(response).result,
    {
        context.record_call(true, &*_params.0);
        let upper = device.get_range_upper();
        response.data(upper).finish()
    }
}

/// `SENSe:<function>:RANGe:LOWer`
pub struct SenseRangeLowerCommand<FUNC, const N: usize> {
    phantom: PhantomData<FUNC>,
}

impl<FUNC, const N: usize> SenseRangeLowerCommand<FUNC, N> {
    pub fn new() -> Self {
        Self { phantom: PhantomData }
    }
}

impl<D, FUNC, const N: usize> Command<D> for SenseRangeLowerCommand<FUNC, N> where
    D: ScpiDevice + Sense<N> + SenseRange<FUNC, N>,
    FUNC: SenseFunction,
 {
    fn meta(&self) -> CommandTypeMeta {
        CommandTypeMeta::Both
    }

    /// Hands the parameter to [`SenseRange::range_lower`].
    fn event(&self, device: &mut D, context: &mut Context, mut params: Parameters<'_, '_>) -> (r: Result<()>)
        ensures
            parameter_error(*old(params.0)) matches Some(e) ==> r == Err::<(), Error>(e),
    {
        context.record_call(false, &*params.0);
        let lower = match params.next_data::<NumericValue<FUNC::Unit>>() {
            Ok(v) => v,
            Err(e) => return Err(e),
        };
        device.range_lower(lower)
    }

    fn query<F: Formatter>(
        &self,
        device: &mut D,
        context: &mut Context,
        _params: Parameters<'_, '_>,
        response: &mut ResponseUnit<'_, F>,
    ) -> (r: Result<()>)
        ensures
            r == final(response).result,
    {
        context.record_call(true, &*_params.0);
        let lower = device.get_range_lower();
        response.data(lower).finish()
    }
}

/// `SENSe:<function>:RANGe:AUTO`
pub struct SenseRangeAutoCommand<FUNC, const N: usize> {
    phantom: PhantomData<FUNC>,
}

impl<FUNC, const N: usize> SenseRangeAutoCommand<FUNC, N> {
    pub fn new() -> Self {
        Self { phantom: PhantomData }
    }
}

impl<D, FUNC, const N: usize> Command<D> for SenseRangeAutoCommand<FUNC, N> where
    D: ScpiDevice + Sense<N> + SenseRange<FUNC, N>,
    FUNC: SenseFunction,
 {
    fn meta(&self) -> CommandTypeMeta {
        CommandTypeMeta::Both
    }

    /// Hands the parameter to [`SenseRange::auto`].
    fn event(&self, device: &mut D, context: &mut Context, mut params: Parameters<'_, '_>) -> (r: Result<()>)
        ensures
            parameter_error(*old(params.0)) matches Some(e) ==> r == Err::<(), Error>(e),
    {
        context.record_call(false, &*params.0);
        let auto = match params.next_data::<Auto>() {
            Ok(v) => v,
            Err(e) => return Err(e),
        };
        device.auto(auto)
    }

    fn query<F: Formatter>(
        &self,
        device: &mut D,
        context: &mut Context,
        _params: Parameters<'_, '_>,
        response: &mut ResponseUnit<'_, F>,
    ) -> (r: Result<()>)
        ensures
            r == final(response).result,
    {
        context.record_call(true, &*_params.0);
        let auto = device.get_auto();
        response.data(auto).finish()
    }
}

/// A device whose sensor `N` has a selectable resolution for `FUNC`.
pub trait SenseResolution<FUNC, const N: usize>: Sense<N> where FUNC: SenseFunction {
    fn resolution(&mut self, upper: NumericValue<FUNC::Unit>) -> Result<()>;

    fn get_resolution(&self) -> FUNC::Unit;
}

/// `SENSe:<function>:RESolution`
pub struct SenseResolutionCommand<FUNC, const N: usize> {
    phantom: PhantomData<FUNC>,
}

impl<FUNC, const N: usize> SenseResolutionCommand<FUNC, N> {
    pub fn new() -> Self {
        Self { phantom: PhantomData }
    }
}

impl<D, FUNC, const N: usize> Command<D> for SenseResolutionCommand<FUNC, N> where
    D: ScpiDevice + Sense<N> + SenseResolution<FUNC, N>,
    FUNC: SenseFunction,
 {
    fn meta(&self) -> CommandTypeMeta {
        CommandTypeMeta::Both
    }

    /// Hands the parameter to [`SenseResolution::resolution`].
    fn event(&self, device: &mut D, context: &mut Context, mut params: Parameters<'_, '_>) -> (r: Result<()>)
        ensures
            parameter_error(*old(params.0)) matches Some(e) ==> r == Err::<(), Error>(e),
    {
        context.record_call(false, &*params.0);
        let resolution = match params.next_data::<NumericValue<FUNC::Unit>>() {
            Ok(v) => v,
            Err(e) => return Err(e),
        };
        device.resolution(resolution)
    }

    fn query<F: Formatter>(
        &self,
        device: &mut D,
        context: &mut Context,
        _params: Parameters<'_, '_>,
        response: &mut ResponseUnit<'_, F>,
    ) -> (r: Result<()>)
        ensures
            r == final(response).result,
    {
        context.record_call(true, &*_params.0);
        let resolution = device.get_resolution();
        response.data(resolution).finish()
    }
}

} // verus!
