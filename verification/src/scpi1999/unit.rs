//! # 24 UNIT Subsystem
//! The units that values are read and written in.

use core::marker::PhantomData;

use vstd::prelude::*;

use crate::error::{Error, ErrorCode, Result};
use crate::option::ScpiEnum;
use crate::parser::parameters::{required, Parameters};
use crate::parser::response::{responds, Formatter, ResponseData, ResponseUnit};
use crate::parser::token::{SpecToken, Token};
use crate::parser::util::{mnemonic_compare, mnemonic_eq, mnemonic_match, mnemonic_matches};
use crate::tree::command::{Command, CommandTypeMeta};
use crate::Context;

use super::device::ScpiDevice;

verus! {

/// A device that reads and writes values in a selectable unit.
pub trait Unit<UNIT> {
    fn set_unit(&mut self, unit: UNIT) -> Result<()>;

    fn get_unit(&mut self) -> UNIT;
}

/// A device that only knows the default units: selecting a unit is an
/// undefined header, and the unit is always the default one.
pub trait DefaultUnits {}

impl<T, U> Unit<U> for T where T: DefaultUnits, U: Default {
    fn set_unit(&mut self, _unit: U) -> (r: Result<()>)
        ensures
            r == Err::<(), Error>(Error(ErrorCode::UndefinedHeader, None)),
    {
        Err(Error::new(ErrorCode::UndefinedHeader))
    }

    /// The default unit.
    fn get_unit(&mut self) -> (r: U)
        ensures
            call_ensures(U::default, (), r),
            *final(self) == *old(self),
    {
        U::default()
    }
}

/// `UNIT:<quantity>`: selects (`<unit>`) or reads the unit of a quantity.
pub struct UnitCommand<UNIT> {
    _phantom: PhantomData<UNIT>,
}

impl<UNIT> UnitCommand<UNIT> {
    pub fn new() -> Self {
        UnitCommand { _phantom: PhantomData }
    }
}

impl<D, UNIT> Command<D> for UnitCommand<UNIT> where
    D: ScpiDevice + Unit<UNIT>,
    UNIT: for<'a> TryFrom<Token<'a>, Error = Error> + ResponseData + Default,
 {
    fn meta(&self) -> CommandTypeMeta {
        CommandTypeMeta::Both
    }

    fn event(&self, device: &mut D, context: &mut Context, mut params: Parameters<'_, '_>) -> (r: Result<()>)
        ensures
            required(crate::parser::parameters::optional_token(old(params.0).rest(), old(params.0).header(), old(params.0).common()).0) matches Err(e)
                ==> r == Err::<(), Error>(Error(e, None)),
    {
        context.record_call(false, &*params.0);
        let unit: UNIT = match params.next_data() {
            Ok(u) => u,
            Err(e) => return Err(e),
        };
        match device.set_unit(unit) {
            Ok(_) => Ok(()),
            Err(e) => Err(e),
        }
    }

    fn query<F: Formatter>(
        &self,
        device: &mut D,
        context: &mut Context,
        _params: Parameters<'_, '_>,
        response: &mut ResponseUnit<'_, F>,
    ) -> (r: Result<()>)
        ensures
            r == final(response).result,
            exists|u: UNIT| {
                &&& u.response() is Some ==> responds(*old(response), *final(response), u.response()->0)
                &&& u.response() is None && old(response).result is Ok ==> final(response).result is Err
            },
    {
        context.record_call(true, &*_params.0);
        let unit = device.get_unit();
        let ghost u = unit;
        let r = response.data(unit).finish();
        assert(u.response() is Some ==> responds(*old(response), *final(response), u.response()->0));
        r
    }
}

} // verus!

verus! {

/// Angle units
#[derive(Debug, Clone, Copy)]
pub enum AngleUnit {
    Degree,
    Radian,
}

impl Default for AngleUnit {
    fn default() -> (r: Self)
        ensures
            r == AngleUnit::Radian,
    {
        Self::Radian
    }
}

impl ScpiEnum for AngleUnit {
    open spec fn mnemonic_text(&self) -> Seq<u8> {
        match *self {
            AngleUnit::Degree => seq![68u8, 69u8, 71u8],
            AngleUnit::Radian => seq![82u8, 65u8, 68u8],
        }
    }

    /// The first variant whose mnemonic matches, in declaration order.
    fn from_mnemonic(s: &[u8]) -> (r: Option<Self>)
        ensures
            mnemonic_matches(seq![68u8, 69u8, 71u8], s@) ==> r == Some(AngleUnit::Degree),
            !mnemonic_matches(seq![68u8, 69u8, 71u8], s@) && mnemonic_matches(seq![82u8, 65u8, 68u8], s@) ==> r == Some(AngleUnit::Radian),
            !mnemonic_matches(seq![68u8, 69u8, 71u8], s@) && !mnemonic_matches(seq![82u8, 65u8, 68u8], s@) ==> r is None,
    {
        let m0: &[u8] = &[68u8, 69u8, 71u8];
        proof {
            assert(m0@ == seq![68u8, 69u8, 71u8]);
        }
        if mnemonic_match(m0, s) {
            return Some(Self::Degree);
        }
        let m1: &[u8] = &[82u8, 65u8, 68u8];
        proof {
            assert(m1@ == seq![82u8, 65u8, 68u8]);
        }
        if mnemonic_match(m1, s) {
            return Some(Self::Radian);
        }
        None
    }

    fn mnemonic(&self) -> (m: &'static [u8]) {
        match self {
            AngleUnit::Degree => {
                let m: &'static [u8] = &[68u8, 69u8, 71u8];
                proof {
                    assert(m@ == seq![68u8, 69u8, 71u8]);
                }
                m
            },
            AngleUnit::Radian => {
                let m: &'static [u8] = &[82u8, 65u8, 68u8];
                proof {
                    assert(m@ == seq![82u8, 65u8, 68u8]);
                }
                m
            },
        }
    }
}

/// Character data naming a variant; other character data is an illegal
/// parameter value and other data a data type error.
impl<'a> TryFrom<Token<'a>> for AngleUnit {
    type Error = Error;

    fn try_from(value: Token<'a>) -> (r: Result<AngleUnit>)
        ensures
            match value {
                Token::CharacterProgramData(s) => match AngleUnit::from_mnemonic_spec(s@) {
                    Some(v) => r == Ok::<AngleUnit, Error>(v),
                    None => r == Err::<AngleUnit, Error>(Error(ErrorCode::IllegalParameterValue, None)),
                },
                _ => r == Err::<AngleUnit, Error>(Error(ErrorCode::DataTypeError, None)),
            },
    {
        match value {
            Token::CharacterProgramData(s) => match Self::from_mnemonic(s) {
                Some(v) => Ok(v),
                None => Err(Error::new(ErrorCode::IllegalParameterValue)),
            },
            _ => Err(Error::new(ErrorCode::DataTypeError)),
        }
    }
}

impl AngleUnit {
    /// The variant [`ScpiEnum::from_mnemonic`] gives for `s`.
    pub open spec fn from_mnemonic_spec(s: Seq<u8>) -> Option<AngleUnit> {
        if mnemonic_matches(seq![68u8, 69u8, 71u8], s) { Some(AngleUnit::Degree) } else { if mnemonic_matches(seq![82u8, 65u8, 68u8], s) { Some(AngleUnit::Radian) } else { None } }
    }
}

impl<'a> vstd::std_specs::convert::TryFromSpecImpl<Token<'a>> for AngleUnit {
    open spec fn obeys_try_from_spec() -> bool {
        true
    }

    open spec fn try_from_spec(value: Token<'a>) -> Result<AngleUnit> {
        match value {
            Token::CharacterProgramData(s) => match AngleUnit::from_mnemonic_spec(s@) {
                Some(v) => Ok(v),
                None => Err(Error(ErrorCode::IllegalParameterValue, None)),
            },
            _ => Err(Error(ErrorCode::DataTypeError, None)),
        }
    }
}

/// `UNIT:ANGLe`
pub type UnitAngle = UnitCommand<AngleUnit>;

/// Current units
#[derive(Debug, Clone, Copy)]
pub enum CurrentUnit {
    Ampere,
}

impl Default for CurrentUnit {
    fn default() -> (r: Self)
        ensures
            r == CurrentUnit::Ampere,
    {
        Self::Ampere
    }
}

impl ScpiEnum for CurrentUnit {
    open spec fn mnemonic_text(&self) -> Seq<u8> {
        match *self {
            CurrentUnit::Ampere => seq![65u8],
        }
    }

    /// The first variant whose mnemonic matches, in declaration order.
    fn from_mnemonic(s: &[u8]) -> (r: Option<Self>)
        ensures
            mnemonic_matches(seq![65u8], s@) ==> r == Some(CurrentUnit::Ampere),
            !mnemonic_matches(seq![65u8], s@) ==> r is None,
    {
        let m0: &[u8] = &[65u8];
        proof {
            assert(m0@ == seq![65u8]);
        }
        if mnemonic_match(m0, s) {
            return Some(Self::Ampere);
        }
        None
    }

    fn mnemonic(&self) -> (m: &'static [u8]) {
        match self {
            CurrentUnit::Ampere => {
                let m: &'static [u8] = &[65u8];
                proof {
                    assert(m@ == seq![65u8]);
                }
                m
            },
        }
    }
}

/// Character data naming a variant; other character data is an illegal
/// parameter value and other data a data type error.
impl<'a> TryFrom<Token<'a>> for CurrentUnit {
    type Error = Error;

    fn try_from(value: Token<'a>) -> (r: Result<CurrentUnit>)
        ensures
            match value {
                Token::CharacterProgramData(s) => match CurrentUnit::from_mnemonic_spec(s@) {
                    Some(v) => r == Ok::<CurrentUnit, Error>(v),
                    None => r == Err::<CurrentUnit, Error>(Error(ErrorCode::IllegalParameterValue, None)),
                },
                _ => r == Err::<CurrentUnit, Error>(Error(ErrorCode::DataTypeError, None)),
            },
    {
        match value {
            Token::CharacterProgramData(s) => match Self::from_mnemonic(s) {
                Some(v) => Ok(v),
                None => Err(Error::new(ErrorCode::IllegalParameterValue)),
            },
            _ => Err(Error::new(ErrorCode::DataTypeError)),
        }
    }
}

impl CurrentUnit {
    /// The variant [`ScpiEnum::from_mnemonic`] gives for `s`.
    pub open spec fn from_mnemonic_spec(s: Seq<u8>) -> Option<CurrentUnit> {
        if mnemonic_matches(seq![65u8], s) { Some(CurrentUnit::Ampere) } else { None }
    }
}

impl<'a> vstd::std_specs::convert::TryFromSpecImpl<Token<'a>> for CurrentUnit {
    open spec fn obeys_try_from_spec() -> bool {
        true
    }

    open spec fn try_from_spec(value: Token<'a>) -> Result<CurrentUnit> {
        match value {
            Token::CharacterProgramData(s) => match CurrentUnit::from_mnemonic_spec(s@) {
                Some(v) => Ok(v),
                None => Err(Error(ErrorCode::IllegalParameterValue, None)),
            },
            _ => Err(Error(ErrorCode::DataTypeError, None)),
        }
    }
}

/// `UNIT:CURRent`
pub type UnitCurrent = UnitCommand<CurrentUnit>;

/// Voltage units
#[derive(Debug, Clone, Copy)]
pub enum VoltageUnit {
    Volt,
}

impl Default for VoltageUnit {
    fn default() -> (r: Self)
        ensures
            r == VoltageUnit::Volt,
    {
        Self::Volt
    }
}

impl ScpiEnum for VoltageUnit {
    open spec fn mnemonic_text(&self) -> Seq<u8> {
        match *self {
            VoltageUnit::Volt => seq![86u8],
        }
    }

    /// The first variant whose mnemonic matches, in declaration order.
    fn from_mnemonic(s: &[u8]) -> (r: Option<Self>)
        ensures
            mnemonic_matches(seq![86u8], s@) ==> r == Some(VoltageUnit::Volt),
            !mnemonic_matches(seq![86u8], s@) ==> r is None,
    {
        let m0: &[u8] = &[86u8];
        proof {
            assert(m0@ == seq![86u8]);
        }
        if mnemonic_match(m0, s) {
            return Some(Self::Volt);
        }
        None
    }

    fn mnemonic(&self) -> (m: &'static [u8]) {
        match self {
            VoltageUnit::Volt => {
                let m: &'static [u8] = &[86u8];
                proof {
                    assert(m@ == seq![86u8]);
                }
                m
            },
        }
    }
}

/// Character data naming a variant; other character data is an illegal
/// parameter value and other data a data type error.
impl<'a> TryFrom<Token<'a>> for VoltageUnit {
    type Error = Error;

    fn try_from(value: Token<'a>) -> (r: Result<VoltageUnit>)
        ensures
            match value {
                Token::CharacterProgramData(s) => match VoltageUnit::from_mnemonic_spec(s@) {
                    Some(v) => r == Ok::<VoltageUnit, Error>(v),
                    None => r == Err::<VoltageUnit, Error>(Error(ErrorCode::IllegalParameterValue, None)),
                },
                _ => r == Err::<VoltageUnit, Error>(Error(ErrorCode::DataTypeError, None)),
            },
    {
        match value {
            Token::CharacterProgramData(s) => match Self::from_mnemonic(s) {
                Some(v) => Ok(v),
                None => Err(Error::new(ErrorCode::IllegalParameterValue)),
            },
            _ => Err(Error::new(ErrorCode::DataTypeError)),
        }
    }
}

impl VoltageUnit {
    /// The variant [`ScpiEnum::from_mnemonic`] gives for `s`.
    pub open spec fn from_mnemonic_spec(s: Seq<u8>) -> Option<VoltageUnit> {
        if mnemonic_matches(seq![86u8], s) { Some(VoltageUnit::Volt) } else { None }
    }
}

impl<'a> vstd::std_specs::convert::TryFromSpecImpl<Token<'a>> for VoltageUnit {
    open spec fn obeys_try_from_spec() -> bool {
        true
    }

    open spec fn try_from_spec(value: Token<'a>) -> Result<VoltageUnit> {
        match value {
            Token::CharacterProgramData(s) => match VoltageUnit::from_mnemonic_spec(s@) {
                Some(v) => Ok(v),
                None => Err(Error(ErrorCode::IllegalParameterValue, None)),
            },
            _ => Err(Error(ErrorCode::DataTypeError, None)),
        }
    }
}

/// `UNIT:VOLTage`
pub type UnitVoltage = UnitCommand<VoltageUnit>;

/// Power units
#[derive(Debug, Clone, Copy)]
pub enum PowerUnit {
    Watt,
}

impl Default for PowerUnit {
    fn default() -> (r: Self)
        ensures
            r == PowerUnit::Watt,
    {
        Self::Watt
    }
}

impl ScpiEnum for PowerUnit {
    open spec fn mnemonic_text(&self) -> Seq<u8> {
        match *self {
            PowerUnit::Watt => seq![87u8],
        }
    }

    /// The first variant whose mnemonic matches, in declaration order.
    fn from_mnemonic(s: &[u8]) -> (r: Option<Self>)
        ensures
            mnemonic_matches(seq![87u8], s@) ==> r == Some(PowerUnit::Watt),
            !mnemonic_matches(seq![87u8], s@) ==> r is None,
    {
        let m0: &[u8] = &[87u8];
        proof {
            assert(m0@ == seq![87u8]);
        }
        if mnemonic_match(m0, s) {
            return Some(Self::Watt);
        }
        None
    }

    fn mnemonic(&self) -> (m: &'static [u8]) {
        match self {
            PowerUnit::Watt => {
                let m: &'static [u8] = &[87u8];
                proof {
                    assert(m@ == seq![87u8]);
                }
                m
            },
        }
    }
}

/// Character data naming a variant; other character data is an illegal
/// parameter value and other data a data type error.
impl<'a> TryFrom<Token<'a>> for PowerUnit {
    type Error = Error;

    fn try_from(value: Token<'a>) -> (r: Result<PowerUnit>)
        ensures
            match value {
                Token::CharacterProgramData(s) => match PowerUnit::from_mnemonic_spec(s@) {
                    Some(v) => r == Ok::<PowerUnit, Error>(v),
                    None => r == Err::<PowerUnit, Error>(Error(ErrorCode::IllegalParameterValue, None)),
                },
                _ => r == Err::<PowerUnit, Error>(Error(ErrorCode::DataTypeError, None)),
            },
    {
        match value {
            Token::CharacterProgramData(s) => match Self::from_mnemonic(s) {
                Some(v) => Ok(v),
                None => Err(Error::new(ErrorCode::IllegalParameterValue)),
            },
            _ => Err(Error::new(ErrorCode::DataTypeError)),
        }
    }
}

impl PowerUnit {
    /// The variant [`ScpiEnum::from_mnemonic`] gives for `s`.
    pub open spec fn from_mnemonic_spec(s: Seq<u8>) -> Option<PowerUnit> {
        if mnemonic_matches(seq![87u8], s) { Some(PowerUnit::Watt) } else { None }
    }
}

impl<'a> vstd::std_specs::convert::TryFromSpecImpl<Token<'a>> for PowerUnit {
    open spec fn obeys_try_from_spec() -> bool {
        true
    }

    open spec fn try_from_spec(value: Token<'a>) -> Result<PowerUnit> {
        match value {
            Token::CharacterProgramData(s) => match PowerUnit::from_mnemonic_spec(s@) {
                Some(v) => Ok(v),
                None => Err(Error(ErrorCode::IllegalParameterValue, None)),
            },
            _ => Err(Error(ErrorCode::DataTypeError, None)),
        }
    }
}

/// `UNIT:POWer`
pub type UnitPower = UnitCommand<PowerUnit>;

/// Time units
#[derive(Debug, Clone, Copy)]
pub enum TimeUnit {
    Hour,
    Minute,
    Second,
}

impl Default for TimeUnit {
    fn default() -> (r: Self)
        ensures
            r == TimeUnit::Second,
    {
        Self::Second
    }
}

impl ScpiEnum for TimeUnit {
    open spec fn mnemonic_text(&self) -> Seq<u8> {
        match *self {
            TimeUnit::Hour => seq![72u8, 79u8, 85u8, 82u8],
            TimeUnit::Minute => seq![77u8, 73u8, 78u8, 117u8, 116u8, 101u8],
            TimeUnit::Second => seq![83u8, 69u8, 67u8, 111u8, 110u8, 100u8],
        }
    }

    /// The first variant whose mnemonic matches, in declaration order.
    fn from_mnemonic(s: &[u8]) -> (r: Option<Self>)
        ensures
            mnemonic_matches(seq![72u8, 79u8, 85u8, 82u8], s@) ==> r == Some(TimeUnit::Hour),
            !mnemonic_matches(seq![72u8, 79u8, 85u8, 82u8], s@) && mnemonic_matches(seq![77u8, 73u8, 78u8, 117u8, 116u8, 101u8], s@) ==> r == Some(TimeUnit::Minute),
            !mnemonic_matches(seq![72u8, 79u8, 85u8, 82u8], s@) && !mnemonic_matches(seq![77u8, 73u8, 78u8, 117u8, 116u8, 101u8], s@) && mnemonic_matches(seq![83u8, 69u8, 67u8, 111u8, 110u8, 100u8], s@) ==> r == Some(TimeUnit::Second),
            !mnemonic_matches(seq![72u8, 79u8, 85u8, 82u8], s@) && !mnemonic_matches(seq![77u8, 73u8, 78u8, 117u8, 116u8, 101u8], s@) && !mnemonic_matches(seq![83u8, 69u8, 67u8, 111u8, 110u8, 100u8], s@) ==> r is None,
    {
        let m0: &[u8] = &[72u8, 79u8, 85u8, 82u8];
        proof {
            assert(m0@ == seq![72u8, 79u8, 85u8, 82u8]);
        }
        if mnemonic_match(m0, s) {
            return Some(Self::Hour);
        }
        let m1: &[u8] = &[77u8, 73u8, 78u8, 117u8, 116u8, 101u8];
        proof {
            assert(m1@ == seq![77u8, 73u8, 78u8, 117u8, 116u8, 101u8]);
        }
        if mnemonic_match(m1, s) {
            return Some(Self::Minute);
        }
        let m2: &[u8] = &[83u8, 69u8, 67u8, 111u8, 110u8, 100u8];
        proof {
            assert(m2@ == seq![83u8, 69u8, 67u8, 111u8, 110u8, 100u8]);
        }
        if mnemonic_match(m2, s) {
            return Some(Self::Second);
        }
        None
    }

    fn mnemonic(&self) -> (m: &'static [u8]) {
        match self {
            TimeUnit::Hour => {
                let m: &'static [u8] = &[72u8, 79u8, 85u8, 82u8];
                proof {
                    assert(m@ == seq![72u8, 79u8, 85u8, 82u8]);
                }
                m
            },
            TimeUnit::Minute => {
                let m: &'static [u8] = &[77u8, 73u8, 78u8, 117u8, 116u8, 101u8];
                proof {
                    assert(m@ == seq![77u8, 73u8, 78u8, 117u8, 116u8, 101u8]);
                }
                m
            },
            TimeUnit::Second => {
                let m: &'static [u8] = &[83u8, 69u8, 67u8, 111u8, 110u8, 100u8];
                proof {
                    assert(m@ == seq![83u8, 69u8, 67u8, 111u8, 110u8, 100u8]);
                }
                m
            },
        }
    }
}

/// Character data naming a variant; other character data is an illegal
/// parameter value and other data a data type error.
impl<'a> TryFrom<Token<'a>> for TimeUnit {
    type Error = Error;

    fn try_from(value: Token<'a>) -> (r: Result<TimeUnit>)
        ensures
            match value {
                Token::CharacterProgramData(s) => match TimeUnit::from_mnemonic_spec(s@) {
                    Some(v) => r == Ok::<TimeUnit, Error>(v),
                    None => r == Err::<TimeUnit, Error>(Error(ErrorCode::IllegalParameterValue, None)),
                },
                _ => r == Err::<TimeUnit, Error>(Error(ErrorCode::DataTypeError, None)),
            },
    {
        match value {
            Token::CharacterProgramData(s) => match Self::from_mnemonic(s) {
                Some(v) => Ok(v),
                None => Err(Error::new(ErrorCode::IllegalParameterValue)),
            },
            _ => Err(Error::new(ErrorCode::DataTypeError)),
        }
    }
}

impl TimeUnit {
    /// The variant [`ScpiEnum::from_mnemonic`] gives for `s`.
    pub open spec fn from_mnemonic_spec(s: Seq<u8>) -> Option<TimeUnit> {
        if mnemonic_matches(seq![72u8, 79u8, 85u8, 82u8], s) { Some(TimeUnit::Hour) } else { if mnemonic_matches(seq![77u8, 73u8, 78u8, 117u8, 116u8, 101u8], s) { Some(TimeUnit::Minute) } else { if mnemonic_matches(seq![83u8, 69u8, 67u8, 111u8, 110u8, 100u8], s) { Some(TimeUnit::Second) } else { None } } }
    }
}

impl<'a> vstd::std_specs::convert::TryFromSpecImpl<Token<'a>> for TimeUnit {
    open spec fn obeys_try_from_spec() -> bool {
        true
    }

    open spec fn try_from_spec(value: Token<'a>) -> Result<TimeUnit> {
        match value {
            Token::CharacterProgramData(s) => match TimeUnit::from_mnemonic_spec(s@) {
                Some(v) => Ok(v),
                None => Err(Error(ErrorCode::IllegalParameterValue, None)),
            },
            _ => Err(Error(ErrorCode::DataTypeError, None)),
        }
    }
}

/// `UNIT:TIME`
pub type UnitTime = UnitCommand<TimeUnit>;

/// Temperature units
#[derive(Debug, Clone, Copy)]
pub enum TemperatureUnit {
    Celsius,
    Fahrenheit,
    Kelvin,
}

impl Default for TemperatureUnit {
    fn default() -> (r: Self)
        ensures
            r == TemperatureUnit::Celsius,
    {
        Self::Celsius
    }
}

impl ResponseData for TemperatureUnit {
    /// `CEL`, `FAR` or `K`.
    open spec fn response(&self) -> Option<Seq<u8>> {
        Some(match *self {
            TemperatureUnit::Celsius => seq![67u8, 69u8, 76u8],
            TemperatureUnit::Fahrenheit => seq![70u8, 65u8, 82u8],
            TemperatureUnit::Kelvin => seq![75u8],
        })
    }

    fn format_response_data<F: Formatter>(&self, formatter: &mut F) -> (r: Result<()>) {
        let m: &[u8] = match self {
            TemperatureUnit::Celsius => &[67u8, 69u8, 76u8],
            TemperatureUnit::Fahrenheit => &[70u8, 65u8, 82u8],
            TemperatureUnit::Kelvin => &[75u8],
        };
        proof {
            assert(m@ == self.response()->0);
            crate::parser::response::lemma_extends_append(old(formatter).bytes(), m@);
        }
        formatter.push_ascii(m)
    }
}

/// Reads `CELsius`, `FARenheit` or `K`; anything else is an illegal
/// parameter value.
pub open spec fn token_temperature_unit(t: SpecToken) -> Result<TemperatureUnit> {
    match t {
        SpecToken::CharacterProgramData(s) => if mnemonic_eq(seq![67u8, 101u8, 108u8], s) {
            Ok(TemperatureUnit::Celsius)
        } else if mnemonic_eq(seq![70u8, 97u8, 114u8], s) {
            Ok(TemperatureUnit::Fahrenheit)
        } else if mnemonic_eq(seq![75u8], s) {
            Ok(TemperatureUnit::Kelvin)
        } else {
            Err(Error(ErrorCode::IllegalParameterValue, None))
        },
        _ => Err(Error(ErrorCode::IllegalParameterValue, None)),
    }
}

impl<'a> TryFrom<Token<'a>> for TemperatureUnit {
    type Error = Error;

    fn try_from(value: Token<'a>) -> (r: Result<TemperatureUnit>) {
        match value {
            Token::CharacterProgramData(s) => {
                let cel: &[u8] = &[67u8, 101u8, 108u8];
                let far: &[u8] = &[70u8, 97u8, 114u8];
                let k: &[u8] = &[75u8];
                proof {
                    assert(cel@ == seq![67u8, 101u8, 108u8]);
                    assert(far@ == seq![70u8, 97u8, 114u8]);
                    assert(k@ == seq![75u8]);
                }
                if mnemonic_compare(cel, s) {
                    Ok(Self::Celsius)
                } else if mnemonic_compare(far, s) {
                    Ok(Self::Fahrenheit)
                } else if mnemonic_compare(k, s) {
                    Ok(Self::Kelvin)
                } else {
                    Err(Error::new(ErrorCode::IllegalParameterValue))
                }
            },
            _ => Err(Error::new(ErrorCode::IllegalParameterValue)),
        }
    }
}

impl<'a> vstd::std_specs::convert::TryFromSpecImpl<Token<'a>> for TemperatureUnit {
    open spec fn obeys_try_from_spec() -> bool {
        true
    }

    open spec fn try_from_spec(value: Token<'a>) -> Result<TemperatureUnit> {
        token_temperature_unit(value@)
    }
}

/// `UNIT:TEMPerature`
pub type UnitTemperature = UnitCommand<TemperatureUnit>;

} // verus!
