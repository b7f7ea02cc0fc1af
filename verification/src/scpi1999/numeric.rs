//! Numeric parameters that also accept `MAXimum`, `MINimum`, `DEFault`,
//! `UP`, `DOWN` and `AUTO`.

use vstd::prelude::*;
use vstd::std_specs::cmp::{PartialOrdIs, PartialOrdSpec};
use vstd::std_specs::convert::TryFromSpec;

use crate::error::{Error, ErrorCode, Result};
use crate::parser::token::{SpecToken, Token};
use crate::parser::util::{mnemonic_compare, mnemonic_eq};

verus! {

/// A numeric parameter: a value or one of the special forms.
#[derive(Debug, PartialEq, Eq, Copy, Clone)]
pub enum NumericValue<T> {
    Maximum,
    Minimum,
    Default,
    Up,
    Down,
    Auto,
    Value(T),
}

impl<T> NumericValue<T> {
    /// The value, if this is one.
    pub fn value(&self) -> (r: Option<&T>)
        ensures
            match *self {
                NumericValue::Value(t) => r == Some(&t),
                _ => r is None,
            },
    {
        if let Self::Value(t) = self {
            Some(t)
        } else {
            None
        }
    }

    /// A builder that resolves this parameter within `[min, max]`.
    pub fn with(self, max: T, min: T) -> (b: NumericBuilder<T>)
        where
            T: PartialOrd,
        ensures
            b.value() == self,
            b.max() == max,
            b.min() == min,
            b.default_value() is None,
    {
        NumericBuilder::new(self, max, min)
    }

    /// Maps the value with `f`; the special forms stay.
    pub fn map<F, U>(self, f: F) -> (r: NumericValue<U>)
        where
            F: FnOnce(T) -> U,
        requires
            self matches NumericValue::Value(t) ==> f.requires((t,)),
        ensures
            match self {
                NumericValue::Maximum => r == NumericValue::<U>::Maximum,
                NumericValue::Minimum => r == NumericValue::<U>::Minimum,
                NumericValue::Default => r == NumericValue::<U>::Default,
                NumericValue::Up => r == NumericValue::<U>::Up,
                NumericValue::Down => r == NumericValue::<U>::Down,
                NumericValue::Auto => r == NumericValue::<U>::Auto,
                NumericValue::Value(t) => (r matches NumericValue::Value(u) && f.ensures((t,), u)),
            },
            // Where `f` computes the spec function `g`, the result is `map_value(self, g)`.
            forall|g: spec_fn(T) -> U| (forall|t: T, u: U| f.ensures((t,), u) ==> u == g(t))
                ==> r == map_value(self, g),
    {
        match self {
            NumericValue::Maximum => NumericValue::Maximum,
            NumericValue::Minimum => NumericValue::Minimum,
            NumericValue::Default => NumericValue::Default,
            NumericValue::Up => NumericValue::Up,
            NumericValue::Down => NumericValue::Down,
            NumericValue::Auto => NumericValue::Auto,
            NumericValue::Value(t) => NumericValue::Value(f(t)),
        }
    }
}

/// Resolves a [`NumericValue`] within bounds, with an optional default.
pub struct NumericBuilder<T> {
    value: NumericValue<T>,
    max: T,
    min: T,
    default: Option<T>,
}

impl<T> NumericBuilder<T> {
    pub closed spec fn value(self) -> NumericValue<T> {
        self.value
    }

    pub closed spec fn max(self) -> T {
        self.max
    }

    pub closed spec fn min(self) -> T {
        self.min
    }

    pub closed spec fn default_value(self) -> Option<T> {
        self.default
    }
}

/// What [`NumericBuilder::finish`] resolves `value` to: the bounds for
/// `MAXimum` and `MINimum`, the default (if any) for `DEFault`, a value
/// within the bounds; anything else is refused.
pub open spec fn resolve<T: PartialOrd>(value: NumericValue<T>, max: T, min: T, default: Option<T>) -> Result<T> {
    match value {
        NumericValue::Maximum => Ok(max),
        NumericValue::Minimum => Ok(min),
        NumericValue::Default => match default {
            Some(d) => Ok(d),
            None => Err(Error(ErrorCode::IllegalParameterValue, None)),
        },
        NumericValue::Up | NumericValue::Down | NumericValue::Auto => Err(Error(ErrorCode::IllegalParameterValue, None)),
        NumericValue::Value(t) => if t.is_le(&max) && t.is_ge(&min) {
            Ok(t)
        } else {
            Err(Error(ErrorCode::DataOutOfRange, None))
        },
    }
}

impl<T> NumericBuilder<T> where T: PartialOrd {
    fn new(value: NumericValue<T>, max: T, min: T) -> (b: Self)
        ensures
            b.value() == value,
            b.max() == max,
            b.min() == min,
            b.default_value() is None,
    {
        Self { value, max, min, default: None }
    }

    /// Sets the value `DEFault` resolves to.
    pub fn default(self, value: T) -> (b: Self)
        ensures
            b.value() == self.value(),
            b.max() == self.max(),
            b.min() == self.min(),
            b.default_value() == Some(value),
    {
        Self { value: self.value, max: self.max, min: self.min, default: Some(value) }
    }

    /// Resolves the parameter, see [`resolve`].
    pub fn finish(self) -> (r: Result<T>)
        ensures
            T::obeys_partial_cmp_spec() ==> r == resolve(self.value(), self.max(), self.min(), self.default_value()),
            !(self.value() is Value) ==> r == resolve(self.value(), self.max(), self.min(), self.default_value()),
    {
        match self.value {
            NumericValue::Maximum => Ok(self.max),
            NumericValue::Minimum => Ok(self.min),
            NumericValue::Default => match self.default {
                Some(d) => Ok(d),
                None => Err(Error::new(ErrorCode::IllegalParameterValue)),
            },
            NumericValue::Up => Err(Error::new(ErrorCode::IllegalParameterValue)),
            NumericValue::Down => Err(Error::new(ErrorCode::IllegalParameterValue)),
            NumericValue::Auto => Err(Error::new(ErrorCode::IllegalParameterValue)),
            NumericValue::Value(t) => {
                if t <= self.max && t >= self.min {
                    Ok(t)
                } else {
                    Err(Error::new(ErrorCode::DataOutOfRange))
                }
            },
        }
    }

    /// Resolves the parameter, with `AUTO` resolved by calling `auto`.
    pub fn finish_auto<A>(self, auto: A) -> (r: Result<T>)
        where
            A: FnOnce() -> T,
        requires
            self.value() is Auto ==> auto.requires(()),
        ensures
            self.value() is Auto ==> (r matches Ok(v) && auto.ensures((), v)),
            !(self.value() is Auto) && T::obeys_partial_cmp_spec() ==> r == resolve(self.value(), self.max(), self.min(), self.default_value()),
            !(self.value() is Auto) && !(self.value() is Value) ==> r == resolve(self.value(), self.max(), self.min(), self.default_value()),
    {
        match self.value {
            NumericValue::Auto => Ok(auto()),
            _ => self.finish(),
        }
    }
}

/// `MAXimum`, `MINimum`, `DEFault`, `UP`, `DOWN`, `AUTO`
pub open spec fn special_mnemonic(i: int) -> Seq<u8> {
    if i == 0 {
        seq![77u8, 65u8, 88u8, 105u8, 109u8, 117u8, 109u8]
    } else if i == 1 {
        seq![77u8, 73u8, 78u8, 105u8, 109u8, 117u8, 109u8]
    } else if i == 2 {
        seq![68u8, 69u8, 70u8, 97u8, 117u8, 108u8, 116u8]
    } else if i == 3 {
        seq![85u8, 80u8]
    } else if i == 4 {
        seq![68u8, 79u8, 87u8, 78u8]
    } else {
        seq![65u8, 85u8, 84u8, 79u8]
    }
}

/// The special form named by character data `s`, if any.
pub open spec fn special_form<T>(s: Seq<u8>) -> Option<NumericValue<T>> {
    if mnemonic_eq(special_mnemonic(0), s) {
        Some(NumericValue::Maximum)
    } else if mnemonic_eq(special_mnemonic(1), s) {
        Some(NumericValue::Minimum)
    } else if mnemonic_eq(special_mnemonic(2), s) {
        Some(NumericValue::Default)
    } else if mnemonic_eq(special_mnemonic(3), s) {
        Some(NumericValue::Up)
    } else if mnemonic_eq(special_mnemonic(4), s) {
        Some(NumericValue::Down)
    } else if mnemonic_eq(special_mnemonic(5), s) {
        Some(NumericValue::Auto)
    } else {
        None
    }
}

/// Reads a numeric parameter: a special form by its mnemonic, else a
/// value read by `T`'s own conversion.
impl<'a, T> TryFrom<Token<'a>> for NumericValue<T> where T: TryFrom<Token<'a>, Error = Error> {
    type Error = Error;

    fn try_from(value: Token<'a>) -> (r: core::result::Result<NumericValue<T>, Error>) {
        if let Token::CharacterProgramData(s) = value {
            let max: &[u8] = &[77u8, 65u8, 88u8, 105u8, 109u8, 117u8, 109u8];
            let min: &[u8] = &[77u8, 73u8, 78u8, 105u8, 109u8, 117u8, 109u8];
            let def: &[u8] = &[68u8, 69u8, 70u8, 97u8, 117u8, 108u8, 116u8];
            let up: &[u8] = &[85u8, 80u8];
            let down: &[u8] = &[68u8, 79u8, 87u8, 78u8];
            let auto: &[u8] = &[65u8, 85u8, 84u8, 79u8];
            proof {
                assert(max@ == special_mnemonic(0));
                assert(min@ == special_mnemonic(1));
                assert(def@ == special_mnemonic(2));
                assert(up@ == special_mnemonic(3));
                assert(down@ == special_mnemonic(4));
                assert(auto@ == special_mnemonic(5));
            }
            if mnemonic_compare(max, s) {
                return Ok(Self::Maximum);
            } else if mnemonic_compare(min, s) {
                return Ok(Self::Minimum);
            } else if mnemonic_compare(def, s) {
                return Ok(Self::Default);
            } else if mnemonic_compare(up, s) {
                return Ok(Self::Up);
            } else if mnemonic_compare(down, s) {
                return Ok(Self::Down);
            } else if mnemonic_compare(auto, s) {
                return Ok(Self::Auto);
            }
        }
        match T::try_from(value) {
            Ok(v) => Ok(Self::Value(v)),
            Err(e) => Err(e),
        }
    }
}

impl<'a, T> vstd::std_specs::convert::TryFromSpecImpl<Token<'a>> for NumericValue<T> where T: TryFrom<Token<'a>, Error = Error> {
    open spec fn obeys_try_from_spec() -> bool {
        T::obeys_try_from_spec()
    }

    open spec fn try_from_spec(value: Token<'a>) -> core::result::Result<NumericValue<T>, Error> {
        match (value@, value) {
            (SpecToken::CharacterProgramData(s), _) if special_form::<T>(s) is Some => Ok(special_form::<T>(s)->0),
            _ => match T::try_from_spec(value) {
                Ok(v) => Ok(NumericValue::Value(v)),
                Err(e) => Err(e),
            },
        }
    }
}

/// A default only changes what `DEFault` resolves to: it is returned as it
/// is, without a range check, and every other form resolves as without it.
pub proof fn lemma_default_only_for_default<T: PartialOrd>(value: NumericValue<T>, max: T, min: T, d: T)
    ensures
        resolve(value, max, min, Some(d)) == if value is Default {
            Ok::<T, Error>(d)
        } else {
            resolve(value, max, min, None)
        },
{
}

/// `map` over a spec function: the value is mapped, the special forms stay.
pub open spec fn map_value<T, U>(v: NumericValue<T>, f: spec_fn(T) -> U) -> NumericValue<U> {
    match v {
        NumericValue::Maximum => NumericValue::Maximum,
        NumericValue::Minimum => NumericValue::Minimum,
        NumericValue::Default => NumericValue::Default,
        NumericValue::Up => NumericValue::Up,
        NumericValue::Down => NumericValue::Down,
        NumericValue::Auto => NumericValue::Auto,
        NumericValue::Value(t) => NumericValue::Value(f(t)),
    }
}

/// Mapping with the identity changes nothing, and mapping twice is mapping
/// once with the composition.
pub proof fn lemma_map_laws<T, U, W>(v: NumericValue<T>, f: spec_fn(T) -> U, g: spec_fn(U) -> W)
    ensures
        map_value(v, |x: T| x) == v,
        map_value(map_value(v, f), g) == map_value(v, |x: T| g(f(x))),
{
}

} // verus!
