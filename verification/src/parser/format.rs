//! Wrappers to format and discriminate SCPI types.

use vstd::prelude::*;

verus! {

/// Hexadecimal data
#[derive(Debug, PartialEq, Eq, Copy, Clone)]
pub struct Hex<V>(pub V);

/// Binary data
#[derive(Debug, PartialEq, Eq, Copy, Clone)]
pub struct Binary<V>(pub V);

/// Octal data
#[derive(Debug, PartialEq, Eq, Copy, Clone)]
pub struct Octal<V>(pub V);

/// Arbitrary data
#[derive(Debug, PartialEq, Eq, Copy, Clone)]
pub struct Arbitrary<'a>(pub &'a [u8]);

/// Expression data
#[derive(Debug, PartialEq, Eq, Copy, Clone)]
pub struct Expression<'a>(pub &'a [u8]);

/// Character data
#[derive(Debug, PartialEq, Eq, Copy, Clone)]
pub struct Character<'a>(pub &'a [u8]);

} // verus!
