//! The errors of the parsers, the writers and the lookups.
use vstd::prelude::*;

verus! {

/// The bytes do not hold the layout that was asked for: they end too early,
/// a field has a value that the format does not allow, or a string is not UTF-8.
#[derive(Debug, Clone, Copy, PartialEq, Eq, Structural)]
pub struct ReadError;

/// A value cannot be written in the layout that was asked for.
#[derive(Debug, Clone, Copy, PartialEq, Eq, Structural)]
pub struct WriteError;

/// A value that was looked for is not there, or has another shape than asked for.
#[derive(Debug, Clone, Copy, PartialEq, Eq, Structural)]
pub struct ParserError;

} // verus!
