//! Errors reported by the mutator.

use vstd::prelude::*;

verus! {

/// What kind of item an unsupported-type error is about, with its description.
#[derive(Debug, Clone, PartialEq, Eq)]
pub enum EitherType {
    TypeDef(String),
    Operator(String),
    EggError(String),
    /// A value type, by its binary code.
    ValueType(u8),
}

/// An error of the mutator.
#[derive(Debug, Clone, PartialEq, Eq)]
pub enum Error {
    /// The mutation cannot be applied to this input.
    NoMutationsApplicable,
    /// The input holds an item that the mutator does not handle.
    UnsupportedType(EitherType),
    /// The binary reader reported this error at this offset.
    Parse { message: String, offset: usize },
}

} // verus!
