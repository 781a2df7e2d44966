//! Wasm value types and function signatures, as the mutator sees them.

use vstd::prelude::*;

verus! {

/// A primitive Wasm value type; `Empty` stands for "no value".
#[derive(Debug, Clone, Copy, PartialEq, Eq, Structural, Hash)]
pub enum PrimitiveTypeInfo {
    I32,
    I64,
    F32,
    F64,
    V128,
    FuncRef,
    ExternRef,
    Empty,
}

/// The type of a local of a function.
#[derive(Debug, Clone, Copy, PartialEq, Eq, Structural, Hash)]
pub enum ValType {
    I32,
    I64,
    F32,
    F64,
    V128,
    FuncRef,
    ExternRef,
}

/// The parameters and results of a function type.
#[derive(Debug, Clone)]
pub struct FuncInfo {
    pub params: Vec<PrimitiveTypeInfo>,
    pub returns: Vec<PrimitiveTypeInfo>,
}

/// An entry of the type section.
#[derive(Debug, Clone)]
pub enum TypeInfo {
    Func(FuncInfo),
}

} // verus!
