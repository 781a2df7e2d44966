//! What the WebAssembly specification says of the operators and value types
//! that this library handles, and the laws that tie the type analysis, the
//! encoder and the reader of local declarations to it.

use vstd::prelude::*;

use crate::analysis::{ClassData, PeepholeMutationAnalysis};
use crate::encoder::{
    exit_step, fixed_enter_types, opt_steps, simple_instr, visit, Encoding, ExitOutcome, Instr,
    MemArg, Step, lemma_root_encoded_last,
};
use crate::lang::{operands, well_formed_expr, Id, Lang};
use crate::locals::{spec_read_locals, LocalsOutcome};
use crate::types::{PrimitiveTypeInfo, TypeInfo, ValType};

verus! {

/// The WebAssembly instruction that a node kind with a fixed opcode stands
/// for: the instruction of the same name (`I32Or` is `i32.or`, `I64Ne` is
/// `i64.ne`, `Wrap` is `i32.wrap_i64`).
pub open spec fn wasm_instr(l: Lang) -> Option<Instr> {
    match l {
        Lang::I32Add(_) => Some(Instr::I32Add),
        Lang::I64Add(_) => Some(Instr::I64Add),
        Lang::I32Sub(_) => Some(Instr::I32Sub),
        Lang::I64Sub(_) => Some(Instr::I64Sub),
        Lang::I32Mul(_) => Some(Instr::I32Mul),
        Lang::I64Mul(_) => Some(Instr::I64Mul),
        Lang::I32And(_) => Some(Instr::I32And),
        Lang::I64And(_) => Some(Instr::I64And),
        Lang::I32Or(_) => Some(Instr::I32Or),
        Lang::I64Or(_) => Some(Instr::I64Or),
        Lang::I32Xor(_) => Some(Instr::I32Xor),
        Lang::I64Xor(_) => Some(Instr::I64Xor),
        Lang::I32Shl(_) => Some(Instr::I32Shl),
        Lang::I64Shl(_) => Some(Instr::I64Shl),
        Lang::I32ShrU(_) => Some(Instr::I32ShrU),
        Lang::I64ShrU(_) => Some(Instr::I64ShrU),
        Lang::I32DivU(_) => Some(Instr::I32DivU),
        Lang::I64DivU(_) => Some(Instr::I64DivU),
        Lang::I32DivS(_) => Some(Instr::I32DivS),
        Lang::I64DivS(_) => Some(Instr::I64DivS),
        Lang::I32ShrS(_) => Some(Instr::I32ShrS),
        Lang::I64ShrS(_) => Some(Instr::I64ShrS),
        Lang::I32RotR(_) => Some(Instr::I32Rotr),
        Lang::I64RotR(_) => Some(Instr::I64Rotr),
        Lang::I32RotL(_) => Some(Instr::I32Rotl),
        Lang::I64RotL(_) => Some(Instr::I64Rotl),
        Lang::I32RemS(_) => Some(Instr::I32RemS),
        Lang::I64RemS(_) => Some(Instr::I64RemS),
        Lang::I32RemU(_) => Some(Instr::I32RemU),
        Lang::I64RemU(_) => Some(Instr::I64RemU),
        Lang::F32Add(_) => Some(Instr::F32Add),
        Lang::F64Add(_) => Some(Instr::F64Add),
        Lang::F32Sub(_) => Some(Instr::F32Sub),
        Lang::F64Sub(_) => Some(Instr::F64Sub),
        Lang::F32Mul(_) => Some(Instr::F32Mul),
        Lang::F64Mul(_) => Some(Instr::F64Mul),
        Lang::F32Div(_) => Some(Instr::F32Div),
        Lang::F64Div(_) => Some(Instr::F64Div),
        Lang::F32Min(_) => Some(Instr::F32Min),
        Lang::F64Min(_) => Some(Instr::F64Min),
        Lang::F32Max(_) => Some(Instr::F32Max),
        Lang::F64Max(_) => Some(Instr::F64Max),
        Lang::F32Copysign(_) => Some(Instr::F32Copysign),
        Lang::F64Copysign(_) => Some(Instr::F64Copysign),
        Lang::F32Abs(_) => Some(Instr::F32Abs),
        Lang::F64Abs(_) => Some(Instr::F64Abs),
        Lang::F32Neg(_) => Some(Instr::F32Neg),
        Lang::F64Neg(_) => Some(Instr::F64Neg),
        Lang::F32Sqrt(_) => Some(Instr::F32Sqrt),
        Lang::F64Sqrt(_) => Some(Instr::F64Sqrt),
        Lang::F32Ceil(_) => Some(Instr::F32Ceil),
        Lang::F64Ceil(_) => Some(Instr::F64Ceil),
        Lang::F32Floor(_) => Some(Instr::F32Floor),
        Lang::F64Floor(_) => Some(Instr::F64Floor),
        Lang::F32Trunc(_) => Some(Instr::F32Trunc),
        Lang::F64trunc(_) => Some(Instr::F64Trunc),
        Lang::F32Nearest(_) => Some(Instr::F32Nearest),
        Lang::F64Nearest(_) => Some(Instr::F64Nearest),
        Lang::F32Eq(_) => Some(Instr::F32Eq),
        Lang::F64Eq(_) => Some(Instr::F64Eq),
        Lang::F32Ne(_) => Some(Instr::F32Neq),
        Lang::F64Ne(_) => Some(Instr::F64Neq),
        Lang::F32Lt(_) => Some(Instr::F32Lt),
        Lang::F64Lt(_) => Some(Instr::F64Lt),
        Lang::F32Gt(_) => Some(Instr::F32Gt),
        Lang::F64Gt(_) => Some(Instr::F64Gt),
        Lang::F32Le(_) => Some(Instr::F32Le),
        Lang::F64Le(_) => Some(Instr::F64Le),
        Lang::F32Ge(_) => Some(Instr::F32Ge),
        Lang::F64Ge(_) => Some(Instr::F64Ge),
        Lang::I32Eqz(_) => Some(Instr::I32Eqz),
        Lang::I64Eqz(_) => Some(Instr::I64Eqz),
        Lang::I32Eq(_) => Some(Instr::I32Eq),
        Lang::I64Eq(_) => Some(Instr::I64Eq),
        Lang::I32Ne(_) => Some(Instr::I32Neq),
        Lang::I64Ne(_) => Some(Instr::I64Neq),
        Lang::I32LtS(_) => Some(Instr::I32LtS),
        Lang::I64LtS(_) => Some(Instr::I64LtS),
        Lang::I32LtU(_) => Some(Instr::I32LtU),
        Lang::I64LtU(_) => Some(Instr::I64LtU),
        Lang::I32GtS(_) => Some(Instr::I32GtS),
        Lang::I64GtS(_) => Some(Instr::I64GtS),
        Lang::I32GtU(_) => Some(Instr::I32GtU),
        Lang::I64GtU(_) => Some(Instr::I64GtU),
        Lang::I32LeS(_) => Some(Instr::I32LeS),
        Lang::I64LeS(_) => Some(Instr::I64LeS),
        Lang::I32LeU(_) => Some(Instr::I32LeU),
        Lang::I64LeU(_) => Some(Instr::I64LeU),
        Lang::I32GeS(_) => Some(Instr::I32GeS),
        Lang::I64GeS(_) => Some(Instr::I64GeS),
        Lang::I32GeU(_) => Some(Instr::I32GeU),
        Lang::I64GeU(_) => Some(Instr::I64GeU),
        Lang::I32Popcnt(_) => Some(Instr::I32Popcnt),
        Lang::I64Popcnt(_) => Some(Instr::I64Popcnt),
        Lang::Wrap(_) => Some(Instr::I32WrapI64),
        Lang::I32Extend8S(_) => Some(Instr::I32Extend8S),
        Lang::I64Extend8S(_) => Some(Instr::I64Extend8S),
        Lang::I32Extend16S(_) => Some(Instr::I32Extend16S),
        Lang::I64Extend16S(_) => Some(Instr::I64Extend16S),
        Lang::I64Extend32S(_) => Some(Instr::I64Extend32S),
        Lang::I64ExtendI32S(_) => Some(Instr::I64ExtendI32S),
        Lang::I64ExtendI32U(_) => Some(Instr::I64ExtendI32U),
        Lang::Drop(_) => Some(Instr::Drop),
        _ => None,
    }
}

/// The types of the operands of the instruction that a node kind with a fixed
/// opcode stands for, first operand first, as the WebAssembly specification
/// types them (`drop` is given an `i64` operand).
pub open spec fn wasm_operand_types(l: Lang) -> Seq<PrimitiveTypeInfo> {
    match l {
        Lang::I32Add(_) => seq![PrimitiveTypeInfo::I32, PrimitiveTypeInfo::I32],
        Lang::I64Add(_) => seq![PrimitiveTypeInfo::I64, PrimitiveTypeInfo::I64],
        Lang::I32Sub(_) => seq![PrimitiveTypeInfo::I32, PrimitiveTypeInfo::I32],
        Lang::I64Sub(_) => seq![PrimitiveTypeInfo::I64, PrimitiveTypeInfo::I64],
        Lang::I32Mul(_) => seq![PrimitiveTypeInfo::I32, PrimitiveTypeInfo::I32],
        Lang::I64Mul(_) => seq![PrimitiveTypeInfo::I64, PrimitiveTypeInfo::I64],
        Lang::I32And(_) => seq![PrimitiveTypeInfo::I32, PrimitiveTypeInfo::I32],
        Lang::I64And(_) => seq![PrimitiveTypeInfo::I64, PrimitiveTypeInfo::I64],
        Lang::I32Or(_) => seq![PrimitiveTypeInfo::I32, PrimitiveTypeInfo::I32],
        Lang::I64Or(_) => seq![PrimitiveTypeInfo::I64, PrimitiveTypeInfo::I64],
        Lang::I32Xor(_) => seq![PrimitiveTypeInfo::I32, PrimitiveTypeInfo::I32],
        Lang::I64Xor(_) => seq![PrimitiveTypeInfo::I64, PrimitiveTypeInfo::I64],
        Lang::I32Shl(_) => seq![PrimitiveTypeInfo::I32, PrimitiveTypeInfo::I32],
        Lang::I64Shl(_) => seq![PrimitiveTypeInfo::I64, PrimitiveTypeInfo::I64],
        Lang::I32ShrU(_) => seq![PrimitiveTypeInfo::I32, PrimitiveTypeInfo::I32],
        Lang::I64ShrU(_) => seq![PrimitiveTypeInfo::I64, PrimitiveTypeInfo::I64],
        Lang::I32DivU(_) => seq![PrimitiveTypeInfo::I32, PrimitiveTypeInfo::I32],
        Lang::I64DivU(_) => seq![PrimitiveTypeInfo::I64, PrimitiveTypeInfo::I64],
        Lang::I32DivS(_) => seq![PrimitiveTypeInfo::I32, PrimitiveTypeInfo::I32],
        Lang::I64DivS(_) => seq![PrimitiveTypeInfo::I64, PrimitiveTypeInfo::I64],
        Lang::I32ShrS(_) => seq![PrimitiveTypeInfo::I32, PrimitiveTypeInfo::I32],
        Lang::I64ShrS(_) => seq![PrimitiveTypeInfo::I64, PrimitiveTypeInfo::I64],
        Lang::I32RotR(_) => seq![PrimitiveTypeInfo::I32, PrimitiveTypeInfo::I32],
        Lang::I64RotR(_) => seq![PrimitiveTypeInfo::I64, PrimitiveTypeInfo::I64],
        Lang::I32RotL(_) => seq![PrimitiveTypeInfo::I32, PrimitiveTypeInfo::I32],
        Lang::I64RotL(_) => seq![PrimitiveTypeInfo::I64, PrimitiveTypeInfo::I64],
        Lang::I32RemS(_) => seq![PrimitiveTypeInfo::I32, PrimitiveTypeInfo::I32],
        Lang::I64RemS(_) => seq![PrimitiveTypeInfo::I64, PrimitiveTypeInfo::I64],
        Lang::I32RemU(_) => seq![PrimitiveTypeInfo::I32, PrimitiveTypeInfo::I32],
        Lang::I64RemU(_) => seq![PrimitiveTypeInfo::I64, PrimitiveTypeInfo::I64],
        Lang::F32Add(_) => seq![PrimitiveTypeInfo::F32, PrimitiveTypeInfo::F32],
        Lang::F64Add(_) => seq![PrimitiveTypeInfo::F64, PrimitiveTypeInfo::F64],
        Lang::F32Sub(_) => seq![PrimitiveTypeInfo::F32, PrimitiveTypeInfo::F32],
        Lang::F64Sub(_) => seq![PrimitiveTypeInfo::F64, PrimitiveTypeInfo::F64],
        Lang::F32Mul(_) => seq![PrimitiveTypeInfo::F32, PrimitiveTypeInfo::F32],
        Lang::F64Mul(_) => seq![PrimitiveTypeInfo::F64, PrimitiveTypeInfo::F64],
        Lang::F32Div(_) => seq![PrimitiveTypeInfo::F32, PrimitiveTypeInfo::F32],
        Lang::F64Div(_) => seq![PrimitiveTypeInfo::F64, PrimitiveTypeInfo::F64],
        Lang::F32Min(_) => seq![PrimitiveTypeInfo::F32, PrimitiveTypeInfo::F32],
        Lang::F64Min(_) => seq![PrimitiveTypeInfo::F64, PrimitiveTypeInfo::F64],
        Lang::F32Max(_) => seq![PrimitiveTypeInfo::F32, PrimitiveTypeInfo::F32],
        Lang::F64Max(_) => seq![PrimitiveTypeInfo::F64, PrimitiveTypeInfo::F64],
        Lang::F32Copysign(_) => seq![PrimitiveTypeInfo::F32, PrimitiveTypeInfo::F32],
        Lang::F64Copysign(_) => seq![PrimitiveTypeInfo::F64, PrimitiveTypeInfo::F64],
        Lang::F32Abs(_) => seq![PrimitiveTypeInfo::F32],
        Lang::F64Abs(_) => seq![PrimitiveTypeInfo::F64],
        Lang::F32Neg(_) => seq![PrimitiveTypeInfo::F32],
        Lang::F64Neg(_) => seq![PrimitiveTypeInfo::F64],
        Lang::F32Sqrt(_) => seq![PrimitiveTypeInfo::F32],
        Lang::F64Sqrt(_) => seq![PrimitiveTypeInfo::F64],
        Lang::F32Ceil(_) => seq![PrimitiveTypeInfo::F32],
        Lang::F64Ceil(_) => seq![PrimitiveTypeInfo::F64],
        Lang::F32Floor(_) => seq![PrimitiveTypeInfo::F32],
        Lang::F64Floor(_) => seq![PrimitiveTypeInfo::F64],
        Lang::F32Trunc(_) => seq![PrimitiveTypeInfo::F32],
        Lang::F64trunc(_) => seq![PrimitiveTypeInfo::F64],
        Lang::F32Nearest(_) => seq![PrimitiveTypeInfo::F32],
        Lang::F64Nearest(_) => seq![PrimitiveTypeInfo::F64],
        Lang::F32Eq(_) => seq![PrimitiveTypeInfo::F32, PrimitiveTypeInfo::F32],
        Lang::F64Eq(_) => seq![PrimitiveTypeInfo::F64, PrimitiveTypeInfo::F64],
        Lang::F32Ne(_) => seq![PrimitiveTypeInfo::F32, PrimitiveTypeInfo::F32],
        Lang::F64Ne(_) => seq![PrimitiveTypeInfo::F64, PrimitiveTypeInfo::F64],
        Lang::F32Lt(_) => seq![PrimitiveTypeInfo::F32, PrimitiveTypeInfo::F32],
        Lang::F64Lt(_) => seq![PrimitiveTypeInfo::F64, PrimitiveTypeInfo::F64],
        Lang::F32Gt(_) => seq![PrimitiveTypeInfo::F32, PrimitiveTypeInfo::F32],
        Lang::F64Gt(_) => seq![PrimitiveTypeInfo::F64, PrimitiveTypeInfo::F64],
        Lang::F32Le(_) => seq![PrimitiveTypeInfo::F32, PrimitiveTypeInfo::F32],
        Lang::F64Le(_) => seq![PrimitiveTypeInfo::F64, PrimitiveTypeInfo::F64],
        Lang::F32Ge(_) => seq![PrimitiveTypeInfo::F32, PrimitiveTypeInfo::F32],
        Lang::F64Ge(_) => seq![PrimitiveTypeInfo::F64, PrimitiveTypeInfo::F64],
        Lang::I32Eqz(_) => seq![PrimitiveTypeInfo::I32],
        Lang::I64Eqz(_) => seq![PrimitiveTypeInfo::I64],
        Lang::I32Eq(_) => seq![PrimitiveTypeInfo::I32, PrimitiveTypeInfo::I32],
        Lang::I64Eq(_) => seq![PrimitiveTypeInfo::I64, PrimitiveTypeInfo::I64],
        Lang::I32Ne(_) => seq![PrimitiveTypeInfo::I32, PrimitiveTypeInfo::I32],
        Lang::I64Ne(_) => seq![PrimitiveTypeInfo::I64, PrimitiveTypeInfo::I64],
        Lang::I32LtS(_) => seq![PrimitiveTypeInfo::I32, PrimitiveTypeInfo::I32],
        Lang::I64LtS(_) => seq![PrimitiveTypeInfo::I64, PrimitiveTypeInfo::I64],
        Lang::I32LtU(_) => seq![PrimitiveTypeInfo::I32, PrimitiveTypeInfo::I32],
        Lang::I64LtU(_) => seq![PrimitiveTypeInfo::I64, PrimitiveTypeInfo::I64],
        Lang::I32GtS(_) => seq![PrimitiveTypeInfo::I32, PrimitiveTypeInfo::I32],
        Lang::I64GtS(_) => seq![PrimitiveTypeInfo::I64, PrimitiveTypeInfo::I64],
        Lang::I32GtU(_) => seq![PrimitiveTypeInfo::I32, PrimitiveTypeInfo::I32],
        Lang::I64GtU(_) => seq![PrimitiveTypeInfo::I64, PrimitiveTypeInfo::I64],
        Lang::I32LeS(_) => seq![PrimitiveTypeInfo::I32, PrimitiveTypeInfo::I32],
        Lang::I64LeS(_) => seq![PrimitiveTypeInfo::I64, PrimitiveTypeInfo::I64],
        Lang::I32LeU(_) => seq![PrimitiveTypeInfo::I32, PrimitiveTypeInfo::I32],
        Lang::I64LeU(_) => seq![PrimitiveTypeInfo::I64, PrimitiveTypeInfo::I64],
        Lang::I32GeS(_) => seq![PrimitiveTypeInfo::I32, PrimitiveTypeInfo::I32],
        Lang::I64GeS(_) => seq![PrimitiveTypeInfo::I64, PrimitiveTypeInfo::I64],
        Lang::I32GeU(_) => seq![PrimitiveTypeInfo::I32, PrimitiveTypeInfo::I32],
        Lang::I64GeU(_) => seq![PrimitiveTypeInfo::I64, PrimitiveTypeInfo::I64],
        Lang::I32Popcnt(_) => seq![PrimitiveTypeInfo::I32],
        Lang::I64Popcnt(_) => seq![PrimitiveTypeInfo::I64],
        Lang::Wrap(_) => seq![PrimitiveTypeInfo::I64],
        Lang::I32Extend8S(_) => seq![PrimitiveTypeInfo::I32],
        Lang::I64Extend8S(_) => seq![PrimitiveTypeInfo::I64],
        Lang::I32Extend16S(_) => seq![PrimitiveTypeInfo::I32],
        Lang::I64Extend16S(_) => seq![PrimitiveTypeInfo::I64],
        Lang::I64Extend32S(_) => seq![PrimitiveTypeInfo::I64],
        Lang::I64ExtendI32S(_) => seq![PrimitiveTypeInfo::I32],
        Lang::I64ExtendI32U(_) => seq![PrimitiveTypeInfo::I32],
        Lang::Drop(_) => seq![PrimitiveTypeInfo::I64],
        _ => Seq::empty(),
    }
}

/// The type of the value that the WebAssembly operator a node kind names
/// produces: the width in its name for arithmetic, bit, conversion and load
/// operators, `i32` for comparisons and tests, for `i32.wrap_i64`,
/// `memory.size` and `memory.grow`, and no value (`Empty`) for stores, `drop`
/// and the setting of variables. Constants, random numbers and unfoldings
/// produce a value of their width.
pub open spec fn wasm_result_type(l: Lang) -> Option<PrimitiveTypeInfo> {
    match l {
        Lang::I32Add(_) => Some(PrimitiveTypeInfo::I32),
        Lang::I64Add(_) => Some(PrimitiveTypeInfo::I64),
        Lang::I32Sub(_) => Some(PrimitiveTypeInfo::I32),
        Lang::I64Sub(_) => Some(PrimitiveTypeInfo::I64),
        Lang::I32Mul(_) => Some(PrimitiveTypeInfo::I32),
        Lang::I64Mul(_) => Some(PrimitiveTypeInfo::I64),
        Lang::I32And(_) => Some(PrimitiveTypeInfo::I32),
        Lang::I64And(_) => Some(PrimitiveTypeInfo::I64),
        Lang::I32Or(_) => Some(PrimitiveTypeInfo::I32),
        Lang::I64Or(_) => Some(PrimitiveTypeInfo::I64),
        Lang::I32Xor(_) => Some(PrimitiveTypeInfo::I32),
        Lang::I64Xor(_) => Some(PrimitiveTypeInfo::I64),
        Lang::I32Shl(_) => Some(PrimitiveTypeInfo::I32),
        Lang::I64Shl(_) => Some(PrimitiveTypeInfo::I64),
        Lang::I32ShrU(_) => Some(PrimitiveTypeInfo::I32),
        Lang::I64ShrU(_) => Some(PrimitiveTypeInfo::I64),
        Lang::I32DivU(_) => Some(PrimitiveTypeInfo::I32),
        Lang::I64DivU(_) => Some(PrimitiveTypeInfo::I64),
        Lang::I32DivS(_) => Some(PrimitiveTypeInfo::I32),
        Lang::I64DivS(_) => Some(PrimitiveTypeInfo::I64),
        Lang::I32ShrS(_) => Some(PrimitiveTypeInfo::I32),
        Lang::I64ShrS(_) => Some(PrimitiveTypeInfo::I64),
        Lang::I32RotR(_) => Some(PrimitiveTypeInfo::I32),
        Lang::I64RotR(_) => Some(PrimitiveTypeInfo::I64),
        Lang::I32RotL(_) => Some(PrimitiveTypeInfo::I32),
        Lang::I64RotL(_) => Some(PrimitiveTypeInfo::I64),
        Lang::I32RemS(_) => Some(PrimitiveTypeInfo::I32),
        Lang::I64RemS(_) => Some(PrimitiveTypeInfo::I64),
        Lang::I32RemU(_) => Some(PrimitiveTypeInfo::I32),
        Lang::I64RemU(_) => Some(PrimitiveTypeInfo::I64),
        Lang::F32Add(_) => Some(PrimitiveTypeInfo::F32),
        Lang::F64Add(_) => Some(PrimitiveTypeInfo::F64),
        Lang::F32Sub(_) => Some(PrimitiveTypeInfo::F32),
        Lang::F64Sub(_) => Some(PrimitiveTypeInfo::F64),
        Lang::F32Mul(_) => Some(PrimitiveTypeInfo::F32),
        Lang::F64Mul(_) => Some(PrimitiveTypeInfo::F64),
        Lang::F32Div(_) => Some(PrimitiveTypeInfo::F32),
        Lang::F64Div(_) => Some(PrimitiveTypeInfo::F64),
        Lang::F32Min(_) => Some(PrimitiveTypeInfo::F32),
        Lang::F64Min(_) => Some(PrimitiveTypeInfo::F64),
        Lang::F32Max(_) => Some(PrimitiveTypeInfo::F32),
        Lang::F64Max(_) => Some(PrimitiveTypeInfo::F64),
        Lang::F32Copysign(_) => Some(PrimitiveTypeInfo::F32),
        Lang::F64Copysign(_) => Some(PrimitiveTypeInfo::F64),
        Lang::F32Abs(_) => Some(PrimitiveTypeInfo::F32),
        Lang::F64Abs(_) => Some(PrimitiveTypeInfo::F64),
        Lang::F32Neg(_) => Some(PrimitiveTypeInfo::F32),
        Lang::F64Neg(_) => Some(PrimitiveTypeInfo::F64),
        Lang::F32Sqrt(_) => Some(PrimitiveTypeInfo::F32),
        Lang::F64Sqrt(_) => Some(PrimitiveTypeInfo::F64),
        Lang::F32Ceil(_) => Some(PrimitiveTypeInfo::F32),
        Lang::F64Ceil(_) => Some(PrimitiveTypeInfo::F64),
        Lang::F32Floor(_) => Some(PrimitiveTypeInfo::F32),
        Lang::F64Floor(_) => Some(PrimitiveTypeInfo::F64),
        Lang::F32Trunc(_) => Some(PrimitiveTypeInfo::F32),
        Lang::F64trunc(_) => Some(PrimitiveTypeInfo::F64),
        Lang::F32Nearest(_) => Some(PrimitiveTypeInfo::F32),
        Lang::F64Nearest(_) => Some(PrimitiveTypeInfo::F64),
        Lang::F32Eq(_) => Some(PrimitiveTypeInfo::I32),
        Lang::F64Eq(_) => Some(PrimitiveTypeInfo::I32),
        Lang::F32Ne(_) => Some(PrimitiveTypeInfo::I32),
        Lang::F64Ne(_) => Some(PrimitiveTypeInfo::I32),
        Lang::F32Lt(_) => Some(PrimitiveTypeInfo::I32),
        Lang::F64Lt(_) => Some(PrimitiveTypeInfo::I32),
        Lang::F32Gt(_) => Some(PrimitiveTypeInfo::I32),
        Lang::F64Gt(_) => Some(PrimitiveTypeInfo::I32),
        Lang::F32Le(_) => Some(PrimitiveTypeInfo::I32),
        Lang::F64Le(_) => Some(PrimitiveTypeInfo::I32),
        Lang::F32Ge(_) => Some(PrimitiveTypeInfo::I32),
        Lang::F64Ge(_) => Some(PrimitiveTypeInfo::I32),
        Lang::I32Eqz(_) => Some(PrimitiveTypeInfo::I32),
        Lang::I64Eqz(_) => Some(PrimitiveTypeInfo::I32),
        Lang::I32Eq(_) => Some(PrimitiveTypeInfo::I32),
        Lang::I64Eq(_) => Some(PrimitiveTypeInfo::I32),
        Lang::I32Ne(_) => Some(PrimitiveTypeInfo::I32),
        Lang::I64Ne(_) => Some(PrimitiveTypeInfo::I32),
        Lang::I32LtS(_) => Some(PrimitiveTypeInfo::I32),
        Lang::I64LtS(_) => Some(PrimitiveTypeInfo::I32),
        Lang::I32LtU(_) => Some(PrimitiveTypeInfo::I32),
        Lang::I64LtU(_) => Some(PrimitiveTypeInfo::I32),
        Lang::I32GtS(_) => Some(PrimitiveTypeInfo::I32),
        Lang::I64GtS(_) => Some(PrimitiveTypeInfo::I32),
        Lang::I32GtU(_) => Some(PrimitiveTypeInfo::I32),
        Lang::I64GtU(_) => Some(PrimitiveTypeInfo::I32),
        Lang::I32LeS(_) => Some(PrimitiveTypeInfo::I32),
        Lang::I64LeS(_) => Some(PrimitiveTypeInfo::I32),
        Lang::I32LeU(_) => Some(PrimitiveTypeInfo::I32),
        Lang::I64LeU(_) => Some(PrimitiveTypeInfo::I32),
        Lang::I32GeS(_) => Some(PrimitiveTypeInfo::I32),
        Lang::I64GeS(_) => Some(PrimitiveTypeInfo::I32),
        Lang::I32GeU(_) => Some(PrimitiveTypeInfo::I32),
        Lang::I64GeU(_) => Some(PrimitiveTypeInfo::I32),
        Lang::I32Popcnt(_) => Some(PrimitiveTypeInfo::I32),
        Lang::I64Popcnt(_) => Some(PrimitiveTypeInfo::I64),
        Lang::I32Clz(_) => Some(PrimitiveTypeInfo::I32),
        Lang::I32Ctz(_) => Some(PrimitiveTypeInfo::I32),
        Lang::I64Ctz(_) => Some(PrimitiveTypeInfo::I64),
        Lang::I64Clz(_) => Some(PrimitiveTypeInfo::I64),
        Lang::LocalSet(_) => Some(PrimitiveTypeInfo::Empty),
        Lang::GlobalSet(_) => Some(PrimitiveTypeInfo::Empty),
        Lang::Wrap(_) => Some(PrimitiveTypeInfo::I32),
        Lang::I32Extend8S(_) => Some(PrimitiveTypeInfo::I32),
        Lang::I64Extend8S(_) => Some(PrimitiveTypeInfo::I64),
        Lang::I32Extend16S(_) => Some(PrimitiveTypeInfo::I32),
        Lang::I64Extend16S(_) => Some(PrimitiveTypeInfo::I64),
        Lang::I64Extend32S(_) => Some(PrimitiveTypeInfo::I64),
        Lang::I64ExtendI32S(_) => Some(PrimitiveTypeInfo::I64),
        Lang::I64ExtendI32U(_) => Some(PrimitiveTypeInfo::I64),
        Lang::I32TruncF32S(_) => Some(PrimitiveTypeInfo::I32),
        Lang::I32TruncF32U(_) => Some(PrimitiveTypeInfo::I32),
        Lang::I32TruncF64S(_) => Some(PrimitiveTypeInfo::I32),
        Lang::I32TruncF64U(_) => Some(PrimitiveTypeInfo::I32),
        Lang::I64TruncF32S(_) => Some(PrimitiveTypeInfo::I64),
        Lang::I64TruncF32U(_) => Some(PrimitiveTypeInfo::I64),
        Lang::I64TruncF64S(_) => Some(PrimitiveTypeInfo::I64),
        Lang::I64TruncF64U(_) => Some(PrimitiveTypeInfo::I64),
        Lang::F32ConvertI32S(_) => Some(PrimitiveTypeInfo::F32),
        Lang::F32ConvertI32U(_) => Some(PrimitiveTypeInfo::F32),
        Lang::F32ConvertI64S(_) => Some(PrimitiveTypeInfo::F32),
        Lang::F32ConvertI64U(_) => Some(PrimitiveTypeInfo::F32),
        Lang::F32DemoteF64(_) => Some(PrimitiveTypeInfo::F32),
        Lang::F64ConvertI32S(_) => Some(PrimitiveTypeInfo::F64),
        Lang::F64ConvertI32U(_) => Some(PrimitiveTypeInfo::F64),
        Lang::F64ConvertI64S(_) => Some(PrimitiveTypeInfo::F64),
        Lang::F64ConvertI64U(_) => Some(PrimitiveTypeInfo::F64),
        Lang::F64PromoteF32(_) => Some(PrimitiveTypeInfo::F64),
        Lang::I32ReinterpretF32(_) => Some(PrimitiveTypeInfo::I32),
        Lang::I64ReinterpretF64(_) => Some(PrimitiveTypeInfo::I64),
        Lang::F32ReinterpretI32(_) => Some(PrimitiveTypeInfo::F32),
        Lang::F64ReinterpretI64(_) => Some(PrimitiveTypeInfo::F64),
        Lang::I32TruncSatF32S(_) => Some(PrimitiveTypeInfo::I32),
        Lang::I32TruncSatF32U(_) => Some(PrimitiveTypeInfo::I32),
        Lang::I32TruncSatF64S(_) => Some(PrimitiveTypeInfo::I32),
        Lang::I32TruncSatF64U(_) => Some(PrimitiveTypeInfo::I32),
        Lang::I64TruncSatF32S(_) => Some(PrimitiveTypeInfo::I64),
        Lang::I64TruncSatF32U(_) => Some(PrimitiveTypeInfo::I64),
        Lang::I64TruncSatF64S(_) => Some(PrimitiveTypeInfo::I64),
        Lang::I64TruncSatF64U(_) => Some(PrimitiveTypeInfo::I64),
        Lang::Drop(_) => Some(PrimitiveTypeInfo::Empty),
        Lang::I32Load(_) => Some(PrimitiveTypeInfo::I32),
        Lang::I64Load(_) => Some(PrimitiveTypeInfo::I64),
        Lang::F32Load(_) => Some(PrimitiveTypeInfo::F32),
        Lang::F64Load(_) => Some(PrimitiveTypeInfo::F64),
        Lang::I32Load8S(_) => Some(PrimitiveTypeInfo::I32),
        Lang::I32Load8U(_) => Some(PrimitiveTypeInfo::I32),
        Lang::I32Load16S(_) => Some(PrimitiveTypeInfo::I32),
        Lang::I32Load16U(_) => Some(PrimitiveTypeInfo::I32),
        Lang::I64Load8S(_) => Some(PrimitiveTypeInfo::I64),
        Lang::I64Load8U(_) => Some(PrimitiveTypeInfo::I64),
        Lang::I64Load16S(_) => Some(PrimitiveTypeInfo::I64),
        Lang::I64Load16U(_) => Some(PrimitiveTypeInfo::I64),
        Lang::I64Load32S(_) => Some(PrimitiveTypeInfo::I64),
        Lang::I64Load32U(_) => Some(PrimitiveTypeInfo::I64),
        Lang::I32Store(_) => Some(PrimitiveTypeInfo::Empty),
        Lang::I64Store(_) => Some(PrimitiveTypeInfo::Empty),
        Lang::F32Store(_) => Some(PrimitiveTypeInfo::Empty),
        Lang::F64Store(_) => Some(PrimitiveTypeInfo::Empty),
        Lang::I32Store8(_) => Some(PrimitiveTypeInfo::Empty),
        Lang::I32Store16(_) => Some(PrimitiveTypeInfo::Empty),
        Lang::I64Store8(_) => Some(PrimitiveTypeInfo::Empty),
        Lang::I64Store16(_) => Some(PrimitiveTypeInfo::Empty),
        Lang::I64Store32(_) => Some(PrimitiveTypeInfo::Empty),
        Lang::MemorySize(_) => Some(PrimitiveTypeInfo::I32),
        Lang::MemoryGrow(_) => Some(PrimitiveTypeInfo::I32),
        Lang::RandI32 => Some(PrimitiveTypeInfo::I32),
        Lang::RandI64 => Some(PrimitiveTypeInfo::I64),
        Lang::UnfoldI32(_) => Some(PrimitiveTypeInfo::I32),
        Lang::UnfoldI64(_) => Some(PrimitiveTypeInfo::I64),
        Lang::I32(_) => Some(PrimitiveTypeInfo::I32),
        Lang::I64(_) => Some(PrimitiveTypeInfo::I64),
        Lang::F32(_) => Some(PrimitiveTypeInfo::F32),
        Lang::F64(_) => Some(PrimitiveTypeInfo::F64),
        _ => None,
    }
}

/// The value type that a binary type code names in the WebAssembly binary
/// format, for the types a local may have.
pub open spec fn wasm_value_type(code: u8) -> Option<ValType> {
    match code {
        0x7f => Some(ValType::I32),
        0x7e => Some(ValType::I64),
        0x7d => Some(ValType::F32),
        0x7c => Some(ValType::F64),
        0x7b => Some(ValType::V128),
        0x70 => Some(ValType::FuncRef),
        0x6f => Some(ValType::ExternRef),
        _ => None,
    }
}

/// A node kind with a fixed opcode is encoded by the instruction of its
/// operator, after its operands in their order, each expecting the type that
/// the operator takes there. Loads encode their address only, the setting of
/// a variable its value only, and a call its arguments after the callee.
pub proof fn lemma_operators_encode_as_named(l: Lang)
    ensures
        wasm_instr(l) matches Some(i) ==> simple_instr(l) == Some(i),
        wasm_instr(l) is Some ==> visit(l) == operands(l),
        wasm_instr(l) is Some ==> fixed_enter_types(l) == wasm_operand_types(l).reverse(),
        l is I32Load || l is I64Load ==> visit(l) == seq![operands(l)[0]],
        l is LocalTee || l is LocalSet || l is GlobalSet ==> visit(l) == seq![operands(l)[1]],
        l is Call && operands(l).len() > 0 ==> visit(l) == operands(l).drop_first(),
{
    if wasm_instr(l) is Some {
        assert(wasm_operand_types(l).reverse() =~= fixed_enter_types(l));
    }
}

/// The encoding of an operator node: the encodings of its operands in order,
/// each starting from the types the one before left (the operator pushes the
/// types of its operands, the first operand's on top), then the operator's
/// own instruction, which takes the node's expected type off the stack.
pub proof fn lemma_operator_encoding(
    a: &PeepholeMutationAnalysis,
    nodes: Seq<Lang>,
    i: Id,
    types: Seq<PrimitiveTypeInfo>,
    ins: Instr,
)
    requires
        i < nodes.len(),
        wasm_instr(nodes[i as int]) == Some(ins),
    ensures
        a.encode_node(nodes, i, types) == match a.encode_operands(
            nodes,
            operands(nodes[i as int]),
            types + wasm_operand_types(nodes[i as int]).reverse(),
            i,
        ) {
            Encoding::Encoded(e, t) => Encoding::Encoded(
                e.push(Step::Emit(ins)),
                if t.len() > 0 {
                    t.drop_last()
                } else {
                    t
                },
            ),
            other => other,
        },
{
    let l = nodes[i as int];
    lemma_operators_encode_as_named(l);
    assert(a.enter_types(nodes, l) == Some(Ok::<Seq<PrimitiveTypeInfo>, crate::error::Error>(fixed_enter_types(l))));
    match a.encode_operands(nodes, operands(l), types + wasm_operand_types(l).reverse(), i) {
        Encoding::Encoded(e, t) => {
            assert(exit_step(nodes, i, l, t) == ExitOutcome::Next(
                Some(Step::Emit(ins)),
                if t.len() > 0 {
                    t.drop_last()
                } else {
                    t
                },
            ));
            assert(e + opt_steps(Some(Step::Emit(ins))) =~= e.push(Step::Emit(ins)));
        },
        _ => {},
    }
}

/// When encoding succeeds and the root is an operator node, the plan ends with
/// the instruction of that operator.
pub proof fn lemma_plan_ends_with_root_operator(
    a: &PeepholeMutationAnalysis,
    nodes: Seq<Lang>,
    ins: Instr,
)
    requires
        well_formed_expr(nodes),
        nodes.len() > 0,
        nodes.len() - 1 <= u32::MAX,
        wasm_instr(nodes.last()) == Some(ins),
        a.spec_plan(nodes).1 is Done,
    ensures
        a.spec_plan(nodes).0.len() > 0,
        a.spec_plan(nodes).0.last() == Step::Emit(ins),
{
    lemma_operators_encode_as_named(nodes.last());
    lemma_root_encoded_last(a, nodes);
}

/// A node of a WebAssembly operator has the type of the value that operator
/// produces, in any expression, and making it gives class data of that type.
pub proof fn lemma_operator_result_type(a: &PeepholeMutationAnalysis, l: Lang, expr: Seq<Lang>)
    ensures
        wasm_result_type(l) matches Some(t) ==> a.spec_returning_tpe(l, expr) == Some(
            Ok::<PrimitiveTypeInfo, crate::error::Error>(t),
        ) && a.spec_make(l) == Some(ClassData { tpe: t }),
{
}

/// A local declaration group of `n` locals (fewer than 128, so the count is one
/// byte) with type code `code` is read as `n` locals of the value type that the
/// code names in the binary format, whatever follows.
pub proof fn lemma_local_group_type(n: u8, code: u8, rest: Seq<u8>)
    requires
        n < 128,
    ensures
        wasm_value_type(code) matches Some(t) ==> spec_read_locals(seq![1u8, n, code] + rest)
            == Some(LocalsOutcome::Locals(seq![(n as u32, t)])),
        wasm_value_type(code) is None ==> !(spec_read_locals(seq![1u8, n, code] + rest) matches Some(
            LocalsOutcome::Locals(_),
        )),
{
    let d = seq![1u8, n, code] + rest;
    assert(d[0] == 1u8 && d[1] == n && d[2] == code);
    let d1 = d.subrange(1, d.len() as int);
    let d2 = d.subrange(2, d.len() as int);
    assert(d1[0] == n);
    assert(d2[0] == code);
    assert(crate::locals::leb_u32(d) == Some((1u32, 1usize)));
    assert(crate::locals::leb_u32(d1) == Some((n as u32, 1usize)));
    if wasm_value_type(code) is Some {
        assert(crate::locals::type_code(d2) == Some(code));
        assert(crate::locals::decode_groups(d, 3, 0) == LocalsOutcome::Locals(Seq::empty()));
        assert(seq![(n as u32, wasm_value_type(code).unwrap())] + Seq::<(u32, ValType)>::empty()
            =~= seq![(n as u32, wasm_value_type(code).unwrap())]);
    }
}

/// The expected types that leaving a node leaves: the stack without its top.
pub open spec fn popped(types: Seq<PrimitiveTypeInfo>) -> Seq<PrimitiveTypeInfo> {
    if types.len() > 0 {
        types.drop_last()
    } else {
        types
    }
}

/// The nodes that name a local, a global or a function are encoded by the
/// instruction of their operator with the index that their `Arg` operand
/// holds, cut to 32 bits.
pub proof fn lemma_index_instructions(
    nodes: Seq<Lang>,
    id: Id,
    l: Lang,
    k: u64,
    types: Seq<PrimitiveTypeInfo>,
)
    requires
        operands(l).len() > 0,
        operands(l)[0] < nodes.len(),
        nodes[operands(l)[0] as int] == Lang::Arg(k),
    ensures
        l is LocalGet ==> exit_step(nodes, id, l, types) == ExitOutcome::Next(
            Some(Step::Emit(Instr::LocalGet(k as u32))),
            popped(types),
        ),
        l is GlobalGet ==> exit_step(nodes, id, l, types) == ExitOutcome::Next(
            Some(Step::Emit(Instr::GlobalGet(k as u32))),
            popped(types),
        ),
        l is LocalSet ==> exit_step(nodes, id, l, types) == ExitOutcome::Next(
            Some(Step::Emit(Instr::LocalSet(k as u32))),
            popped(types),
        ),
        l is GlobalSet ==> exit_step(nodes, id, l, types) == ExitOutcome::Next(
            Some(Step::Emit(Instr::GlobalSet(k as u32))),
            popped(types),
        ),
        l is LocalTee ==> exit_step(nodes, id, l, types) == ExitOutcome::Next(
            Some(Step::Emit(Instr::LocalTee(k as u32))),
            popped(types),
        ),
        l is Call ==> exit_step(nodes, id, l, types) == ExitOutcome::Next(
            Some(Step::Emit(Instr::Call(k as u32))),
            popped(types),
        ),
{
}

/// A constant node is encoded as the constant of its own width, and an
/// untyped constant as the constant of the type expected of it (its low bits
/// for a narrower type, its bits for a float).
pub proof fn lemma_constant_instructions(nodes: Seq<Lang>, id: Id, types: Seq<PrimitiveTypeInfo>)
    ensures
        forall|v: i32| #[trigger] exit_step(nodes, id, Lang::I32(v), types) == ExitOutcome::Next(
            Some(Step::Emit(Instr::I32Const(v))),
            popped(types),
        ),
        forall|v: i64| #[trigger] exit_step(nodes, id, Lang::I64(v), types) == ExitOutcome::Next(
            Some(Step::Emit(Instr::I64Const(v))),
            popped(types),
        ),
        forall|v: u32| #[trigger] exit_step(nodes, id, Lang::F32(v), types) == ExitOutcome::Next(
            Some(Step::Emit(Instr::F32Const(v))),
            popped(types),
        ),
        forall|v: u64| #[trigger] exit_step(nodes, id, Lang::F64(v), types) == ExitOutcome::Next(
            Some(Step::Emit(Instr::F64Const(v))),
            popped(types),
        ),
        forall|v: i64|
            types.len() > 0 && types.last() == PrimitiveTypeInfo::I32 ==> #[trigger] exit_step(
                nodes,
                id,
                Lang::Const(v),
                types,
            ) == ExitOutcome::Next(Some(Step::Emit(Instr::I32Const(v as i32))), popped(types)),
        forall|v: i64|
            types.len() > 0 && types.last() == PrimitiveTypeInfo::I64 ==> #[trigger] exit_step(
                nodes,
                id,
                Lang::Const(v),
                types,
            ) == ExitOutcome::Next(Some(Step::Emit(Instr::I64Const(v))), popped(types)),
        forall|v: i64|
            types.len() > 0 && types.last() == PrimitiveTypeInfo::F32 ==> #[trigger] exit_step(
                nodes,
                id,
                Lang::Const(v),
                types,
            ) == ExitOutcome::Next(Some(Step::Emit(Instr::F32Const(v as u32))), popped(types)),
        forall|v: i64|
            types.len() > 0 && types.last() == PrimitiveTypeInfo::F64 ==> #[trigger] exit_step(
                nodes,
                id,
                Lang::Const(v),
                types,
            ) == ExitOutcome::Next(Some(Step::Emit(Instr::F64Const(v as u64))), popped(types)),
{
}

/// Loads and stores are encoded with the memory immediate that their
/// immediate operands hold, in the order offset, alignment, memory index
/// (after the address, and for a store the value).
pub proof fn lemma_memory_instructions(
    nodes: Seq<Lang>,
    id: Id,
    l: Lang,
    off: u64,
    align: u64,
    mem: u64,
    types: Seq<PrimitiveTypeInfo>,
)
    requires
        l is I32Load || l is I64Load || l is I32Store || l is I64Store,
        ({
            let first = if l is I32Load || l is I64Load {
                1int
            } else {
                2int
            };
            &&& first + 3 <= operands(l).len()
            &&& operands(l)[first] < nodes.len() && nodes[operands(l)[first] as int] == Lang::Arg(off)
            &&& operands(l)[first + 1] < nodes.len() && nodes[operands(l)[first + 1] as int]
                == Lang::Arg(align)
            &&& operands(l)[first + 2] < nodes.len() && nodes[operands(l)[first + 2] as int]
                == Lang::Arg(mem)
        }),
    ensures
        ({
            let m = MemArg { offset: off, align: align as u32, memory_index: mem as u32 };
            exit_step(nodes, id, l, types) == ExitOutcome::Next(
                Some(
                    Step::Emit(
                        if l is I32Load {
                            Instr::I32Load(m)
                        } else if l is I64Load {
                            Instr::I64Load(m)
                        } else if l is I32Store {
                            Instr::I32Store(m)
                        } else {
                            Instr::I64Store(m)
                        },
                    ),
                ),
                popped(types),
            )
        }),
{
}

/// The type of a variable read, or of a `local.tee`, is the type of the local
/// or global that its index names; the type of a call is the single result of
/// the callee's type (`types[functions[f]]`), no value where it has none, and
/// an error where it has several.
pub proof fn lemma_variable_and_call_types(
    a: &PeepholeMutationAnalysis,
    l: Lang,
    expr: Seq<Lang>,
    k: u64,
)
    requires
        operands(l).len() > 0,
        operands(l)[0] < expr.len(),
        expr[operands(l)[0] as int] == Lang::Arg(k),
    ensures
        (l is LocalGet || l is LocalTee) && (k as usize) < a.spec_locals().len() ==> a.spec_returning_tpe(
            l,
            expr,
        ) == Some(Ok::<PrimitiveTypeInfo, crate::error::Error>(a.spec_locals()[(k as usize) as int])),
        l is GlobalGet && (k as usize) < a.spec_global_types().len() ==> a.spec_returning_tpe(l, expr)
            == Some(
            Ok::<PrimitiveTypeInfo, crate::error::Error>(a.spec_global_types()[(k as usize) as int]),
        ),
        l is Call && (k as u32) < a.spec_function_map().len() && a.spec_function_map()[(k as u32) as int]
            < a.spec_types_map().len() ==> {
            let TypeInfo::Func(ty) = a.spec_types_map()[a.spec_function_map()[(k as u32) as int] as int];
            a.spec_returning_tpe(l, expr) == if ty.returns@.len() == 0 {
                Some(Ok::<PrimitiveTypeInfo, crate::error::Error>(PrimitiveTypeInfo::Empty))
            } else if ty.returns@.len() == 1 {
                Some(Ok(ty.returns@[0]))
            } else {
                Some(Err(crate::error::Error::NoMutationsApplicable))
            }
        },
{
}

/// Entering a load expects an `i32` address of its operand; a store expects
/// its address (`i32`) and its value (of the store's width), the value taken
/// first; a call expects the parameter types of its callee
/// (`types[functions[f]]`) for its arguments, the first argument's on top.
pub proof fn lemma_memory_and_call_operand_types(a: &PeepholeMutationAnalysis, nodes: Seq<Lang>, l: Lang)
    ensures
        l is I32Load || l is I64Load ==> a.enter_types(nodes, l) == Some(
            Ok::<Seq<PrimitiveTypeInfo>, crate::error::Error>(seq![PrimitiveTypeInfo::I32]),
        ),
        l is I32Store ==> a.enter_types(nodes, l) == Some(
            Ok::<Seq<PrimitiveTypeInfo>, crate::error::Error>(
                seq![PrimitiveTypeInfo::I32, PrimitiveTypeInfo::I32],
            ),
        ),
        l is I64Store ==> a.enter_types(nodes, l) == Some(
            Ok::<Seq<PrimitiveTypeInfo>, crate::error::Error>(
                seq![PrimitiveTypeInfo::I64, PrimitiveTypeInfo::I32],
            ),
        ),
        l is Call && operands(l).len() > 0 && operands(l)[0] < nodes.len() ==> {
            let target = nodes[operands(l)[0] as int];
            let f: int = match target {
                Lang::Arg(v) => (v as u32) as int,
                Lang::Const(v) => (v as u32) as int,
                _ => -1,
            };
            let n = operands(l).len() - 1;
            f >= 0 && f < a.spec_function_map().len() && a.spec_function_map()[f]
                < a.spec_types_map().len() ==> {
                let TypeInfo::Func(ty) = a.spec_types_map()[a.spec_function_map()[f] as int];
                ty.params@.len() >= n ==> a.enter_types(nodes, l) == Some(
                    Ok::<Seq<PrimitiveTypeInfo>, crate::error::Error>(ty.params@.take(n).reverse()),
                )
            }
        },
{
}

} // verus!
