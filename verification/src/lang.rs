//! The expression language of the peephole mutator: one node kind per Wasm
//! operator the mutator understands, plus a few custom nodes. An expression is
//! a sequence of nodes in which each node names its operands by their index.

use vstd::prelude::*;

verus! {

/// The index of a node within an expression.
pub type Id = u32;

/// A node of an expression. Operands are the indices of earlier nodes.
#[derive(Debug, Clone, PartialEq, Eq, Hash)]
pub enum Lang {
    I32Add([Id; 2]),
    I64Add([Id; 2]),
    I32Sub([Id; 2]),
    I64Sub([Id; 2]),
    I32Mul([Id; 2]),
    I64Mul([Id; 2]),
    I32And([Id; 2]),
    I64And([Id; 2]),
    I32Or([Id; 2]),
    I64Or([Id; 2]),
    I32Xor([Id; 2]),
    I64Xor([Id; 2]),
    I32Shl([Id; 2]),
    I64Shl([Id; 2]),
    I32ShrU([Id; 2]),
    I64ShrU([Id; 2]),
    I32DivU([Id; 2]),
    I64DivU([Id; 2]),
    I32DivS([Id; 2]),
    I64DivS([Id; 2]),
    I32ShrS([Id; 2]),
    I64ShrS([Id; 2]),
    I32RotR([Id; 2]),
    I64RotR([Id; 2]),
    I32RotL([Id; 2]),
    I64RotL([Id; 2]),
    I32RemS([Id; 2]),
    I64RemS([Id; 2]),
    I32RemU([Id; 2]),
    I64RemU([Id; 2]),
    F32Add([Id; 2]),
    F64Add([Id; 2]),
    F32Sub([Id; 2]),
    F64Sub([Id; 2]),
    F32Mul([Id; 2]),
    F64Mul([Id; 2]),
    F32Div([Id; 2]),
    F64Div([Id; 2]),
    F32Min([Id; 2]),
    F64Min([Id; 2]),
    F32Max([Id; 2]),
    F64Max([Id; 2]),
    F32Copysign([Id; 2]),
    F64Copysign([Id; 2]),
    F32Abs([Id; 1]),
    F64Abs([Id; 1]),
    F32Neg([Id; 1]),
    F64Neg([Id; 1]),
    F32Sqrt([Id; 1]),
    F64Sqrt([Id; 1]),
    F32Ceil([Id; 1]),
    F64Ceil([Id; 1]),
    F32Floor([Id; 1]),
    F64Floor([Id; 1]),
    F32Trunc([Id; 1]),
    F64trunc([Id; 1]),
    F32Nearest([Id; 1]),
    F64Nearest([Id; 1]),
    F32Eq([Id; 2]),
    F64Eq([Id; 2]),
    F32Ne([Id; 2]),
    F64Ne([Id; 2]),
    F32Lt([Id; 2]),
    F64Lt([Id; 2]),
    F32Gt([Id; 2]),
    F64Gt([Id; 2]),
    F32Le([Id; 2]),
    F64Le([Id; 2]),
    F32Ge([Id; 2]),
    F64Ge([Id; 2]),
    I32Eqz([Id; 1]),
    I64Eqz([Id; 1]),
    I32Eq([Id; 2]),
    I64Eq([Id; 2]),
    I32Ne([Id; 2]),
    I64Ne([Id; 2]),
    I32LtS([Id; 2]),
    I64LtS([Id; 2]),
    I32LtU([Id; 2]),
    I64LtU([Id; 2]),
    I32GtS([Id; 2]),
    I64GtS([Id; 2]),
    I32GtU([Id; 2]),
    I64GtU([Id; 2]),
    I32LeS([Id; 2]),
    I64LeS([Id; 2]),
    I32LeU([Id; 2]),
    I64LeU([Id; 2]),
    I32GeS([Id; 2]),
    I64GeS([Id; 2]),
    I32GeU([Id; 2]),
    I64GeU([Id; 2]),
    I32Popcnt([Id; 1]),
    I64Popcnt([Id; 1]),
    I32Clz([Id; 1]),
    I32Ctz([Id; 1]),
    I64Ctz([Id; 1]),
    I64Clz([Id; 1]),
    Select([Id; 3]),
    LocalTee([Id; 2]),
    LocalSet([Id; 2]),
    LocalGet([Id; 1]),
    GlobalSet([Id; 2]),
    GlobalGet([Id; 1]),
    Wrap([Id; 1]),
    I32Extend8S([Id; 1]),
    I64Extend8S([Id; 1]),
    I32Extend16S([Id; 1]),
    I64Extend16S([Id; 1]),
    I64Extend32S([Id; 1]),
    I64ExtendI32S([Id; 1]),
    I64ExtendI32U([Id; 1]),
    I32TruncF32S([Id; 1]),
    I32TruncF32U([Id; 1]),
    I32TruncF64S([Id; 1]),
    I32TruncF64U([Id; 1]),
    I64TruncF32S([Id; 1]),
    I64TruncF32U([Id; 1]),
    I64TruncF64S([Id; 1]),
    I64TruncF64U([Id; 1]),
    F32ConvertI32S([Id; 1]),
    F32ConvertI32U([Id; 1]),
    F32ConvertI64S([Id; 1]),
    F32ConvertI64U([Id; 1]),
    F32DemoteF64([Id; 1]),
    F64ConvertI32S([Id; 1]),
    F64ConvertI32U([Id; 1]),
    F64ConvertI64S([Id; 1]),
    F64ConvertI64U([Id; 1]),
    F64PromoteF32([Id; 1]),
    I32ReinterpretF32([Id; 1]),
    I64ReinterpretF64([Id; 1]),
    F32ReinterpretI32([Id; 1]),
    F64ReinterpretI64([Id; 1]),
    I32TruncSatF32S([Id; 1]),
    I32TruncSatF32U([Id; 1]),
    I32TruncSatF64S([Id; 1]),
    I32TruncSatF64U([Id; 1]),
    I64TruncSatF32S([Id; 1]),
    I64TruncSatF32U([Id; 1]),
    I64TruncSatF64S([Id; 1]),
    I64TruncSatF64U([Id; 1]),
    Call(Vec<Id>),
    Drop([Id; 1]),
    I32Load([Id; 4]),
    I64Load([Id; 4]),
    F32Load([Id; 4]),
    F64Load([Id; 4]),
    I32Load8S([Id; 4]),
    I32Load8U([Id; 4]),
    I32Load16S([Id; 4]),
    I32Load16U([Id; 4]),
    I64Load8S([Id; 4]),
    I64Load8U([Id; 4]),
    I64Load16S([Id; 4]),
    I64Load16U([Id; 4]),
    I64Load32S([Id; 4]),
    I64Load32U([Id; 4]),
    I32Store([Id; 5]),
    I64Store([Id; 5]),
    F32Store([Id; 5]),
    F64Store([Id; 5]),
    I32Store8([Id; 5]),
    I32Store16([Id; 5]),
    I64Store8([Id; 5]),
    I64Store16([Id; 5]),
    I64Store32([Id; 5]),
    MemorySize([Id; 1]),
    MemoryGrow([Id; 1]),
    RandI32,
    RandI64,
    Undef,
    UnfoldI32(Id),
    UnfoldI64(Id),
    Const(i64),
    I32(i32),
    I64(i64),
    F32(u32),
    F64(u64),
    Arg(u64),
}

/// The operand indices of a node, in order.
pub open spec fn operands(l: Lang) -> Seq<Id> {
    match l {
        Lang::I32Add(ops)
        | Lang::I64Add(ops)
        | Lang::I32Sub(ops)
        | Lang::I64Sub(ops)
        | Lang::I32Mul(ops)
        | Lang::I64Mul(ops)
        | Lang::I32And(ops)
        | Lang::I64And(ops)
        | Lang::I32Or(ops)
        | Lang::I64Or(ops)
        | Lang::I32Xor(ops)
        | Lang::I64Xor(ops)
        | Lang::I32Shl(ops)
        | Lang::I64Shl(ops)
        | Lang::I32ShrU(ops)
        | Lang::I64ShrU(ops)
        | Lang::I32DivU(ops)
        | Lang::I64DivU(ops)
        | Lang::I32DivS(ops)
        | Lang::I64DivS(ops)
        | Lang::I32ShrS(ops)
        | Lang::I64ShrS(ops)
        | Lang::I32RotR(ops)
        | Lang::I64RotR(ops)
        | Lang::I32RotL(ops)
        | Lang::I64RotL(ops)
        | Lang::I32RemS(ops)
        | Lang::I64RemS(ops)
        | Lang::I32RemU(ops)
        | Lang::I64RemU(ops)
        | Lang::F32Add(ops)
        | Lang::F64Add(ops)
        | Lang::F32Sub(ops)
        | Lang::F64Sub(ops)
        | Lang::F32Mul(ops)
        | Lang::F64Mul(ops)
        | Lang::F32Div(ops)
        | Lang::F64Div(ops)
        | Lang::F32Min(ops)
        | Lang::F64Min(ops)
        | Lang::F32Max(ops)
        | Lang::F64Max(ops)
        | Lang::F32Copysign(ops)
        | Lang::F64Copysign(ops)
        | Lang::F32Eq(ops)
        | Lang::F64Eq(ops)
        | Lang::F32Ne(ops)
        | Lang::F64Ne(ops)
        | Lang::F32Lt(ops)
        | Lang::F64Lt(ops)
        | Lang::F32Gt(ops)
        | Lang::F64Gt(ops)
        | Lang::F32Le(ops)
        | Lang::F64Le(ops)
        | Lang::F32Ge(ops)
        | Lang::F64Ge(ops)
        | Lang::I32Eq(ops)
        | Lang::I64Eq(ops)
        | Lang::I32Ne(ops)
        | Lang::I64Ne(ops)
        | Lang::I32LtS(ops)
        | Lang::I64LtS(ops)
        | Lang::I32LtU(ops)
        | Lang::I64LtU(ops)
        | Lang::I32GtS(ops)
        | Lang::I64GtS(ops)
        | Lang::I32GtU(ops)
        | Lang::I64GtU(ops)
        | Lang::I32LeS(ops)
        | Lang::I64LeS(ops)
        | Lang::I32LeU(ops)
        | Lang::I64LeU(ops)
        | Lang::I32GeS(ops)
        | Lang::I64GeS(ops)
        | Lang::I32GeU(ops)
        | Lang::I64GeU(ops)
        | Lang::LocalTee(ops)
        | Lang::LocalSet(ops)
        | Lang::GlobalSet(ops) => seq![ops[0], ops[1]],
        Lang::F32Abs(ops)
        | Lang::F64Abs(ops)
        | Lang::F32Neg(ops)
        | Lang::F64Neg(ops)
        | Lang::F32Sqrt(ops)
        | Lang::F64Sqrt(ops)
        | Lang::F32Ceil(ops)
        | Lang::F64Ceil(ops)
        | Lang::F32Floor(ops)
        | Lang::F64Floor(ops)
        | Lang::F32Trunc(ops)
        | Lang::F64trunc(ops)
        | Lang::F32Nearest(ops)
        | Lang::F64Nearest(ops)
        | Lang::I32Eqz(ops)
        | Lang::I64Eqz(ops)
        | Lang::I32Popcnt(ops)
        | Lang::I64Popcnt(ops)
        | Lang::I32Clz(ops)
        | Lang::I32Ctz(ops)
        | Lang::I64Ctz(ops)
        | Lang::I64Clz(ops)
        | Lang::LocalGet(ops)
        | Lang::GlobalGet(ops)
        | Lang::Wrap(ops)
        | Lang::I32Extend8S(ops)
        | Lang::I64Extend8S(ops)
        | Lang::I32Extend16S(ops)
        | Lang::I64Extend16S(ops)
        | Lang::I64Extend32S(ops)
        | Lang::I64ExtendI32S(ops)
        | Lang::I64ExtendI32U(ops)
        | Lang::I32TruncF32S(ops)
        | Lang::I32TruncF32U(ops)
        | Lang::I32TruncF64S(ops)
        | Lang::I32TruncF64U(ops)
        | Lang::I64TruncF32S(ops)
        | Lang::I64TruncF32U(ops)
        | Lang::I64TruncF64S(ops)
        | Lang::I64TruncF64U(ops)
        | Lang::F32ConvertI32S(ops)
        | Lang::F32ConvertI32U(ops)
        | Lang::F32ConvertI64S(ops)
        | Lang::F32ConvertI64U(ops)
        | Lang::F32DemoteF64(ops)
        | Lang::F64ConvertI32S(ops)
        | Lang::F64ConvertI32U(ops)
        | Lang::F64ConvertI64S(ops)
        | Lang::F64ConvertI64U(ops)
        | Lang::F64PromoteF32(ops)
        | Lang::I32ReinterpretF32(ops)
        | Lang::I64ReinterpretF64(ops)
        | Lang::F32ReinterpretI32(ops)
        | Lang::F64ReinterpretI64(ops)
        | Lang::I32TruncSatF32S(ops)
        | Lang::I32TruncSatF32U(ops)
        | Lang::I32TruncSatF64S(ops)
        | Lang::I32TruncSatF64U(ops)
        | Lang::I64TruncSatF32S(ops)
        | Lang::I64TruncSatF32U(ops)
        | Lang::I64TruncSatF64S(ops)
        | Lang::I64TruncSatF64U(ops)
        | Lang::Drop(ops)
        | Lang::MemorySize(ops)
        | Lang::MemoryGrow(ops) => seq![ops[0]],
        Lang::Select(ops) => seq![ops[0], ops[1], ops[2]],
        Lang::Call(ops) => ops@,
        Lang::I32Load(ops)
        | Lang::I64Load(ops)
        | Lang::F32Load(ops)
        | Lang::F64Load(ops)
        | Lang::I32Load8S(ops)
        | Lang::I32Load8U(ops)
        | Lang::I32Load16S(ops)
        | Lang::I32Load16U(ops)
        | Lang::I64Load8S(ops)
        | Lang::I64Load8U(ops)
        | Lang::I64Load16S(ops)
        | Lang::I64Load16U(ops)
        | Lang::I64Load32S(ops)
        | Lang::I64Load32U(ops) => seq![ops[0], ops[1], ops[2], ops[3]],
        Lang::I32Store(ops)
        | Lang::I64Store(ops)
        | Lang::F32Store(ops)
        | Lang::F64Store(ops)
        | Lang::I32Store8(ops)
        | Lang::I32Store16(ops)
        | Lang::I64Store8(ops)
        | Lang::I64Store16(ops)
        | Lang::I64Store32(ops) => seq![ops[0], ops[1], ops[2], ops[3], ops[4]],
        Lang::UnfoldI32(op)
        | Lang::UnfoldI64(op) => seq![op],
        _ => Seq::empty(),
    }
}

/// An expression is well formed when each node's operands are earlier nodes.
pub open spec fn well_formed_expr(nodes: Seq<Lang>) -> bool {
    forall|i: int, j: int|
        0 <= i < nodes.len() && 0 <= j < operands(#[trigger] nodes[i]).len() ==> #[trigger] operands(
            nodes[i],
        )[j] < i
}

impl Default for Lang {
    /// The default node is `Undef`, an operand of unknown value.
    fn default() -> (l: Self)
        ensures
            l == Lang::Undef,
    {
        Lang::Undef
    }
}


fn array_ids1(ops: &[Id; 1]) -> (r: Vec<Id>)
    ensures
        r@ == seq![ops[0]],
{
    vec![ops[0]]
}

fn array_ids2(ops: &[Id; 2]) -> (r: Vec<Id>)
    ensures
        r@ == seq![ops[0], ops[1]],
{
    vec![ops[0], ops[1]]
}

fn array_ids3(ops: &[Id; 3]) -> (r: Vec<Id>)
    ensures
        r@ == seq![ops[0], ops[1], ops[2]],
{
    vec![ops[0], ops[1], ops[2]]
}

fn array_ids4(ops: &[Id; 4]) -> (r: Vec<Id>)
    ensures
        r@ == seq![ops[0], ops[1], ops[2], ops[3]],
{
    vec![ops[0], ops[1], ops[2], ops[3]]
}

fn array_ids5(ops: &[Id; 5]) -> (r: Vec<Id>)
    ensures
        r@ == seq![ops[0], ops[1], ops[2], ops[3], ops[4]],
{
    vec![ops[0], ops[1], ops[2], ops[3], ops[4]]
}

/// The operand indices of `l`, in order.
fn operand_ids(l: &Lang) -> (r: Vec<Id>)
    ensures
        r@ == operands(*l),
{
    match l {
        Lang::I32Add(ops) => array_ids2(ops),
        Lang::I64Add(ops) => array_ids2(ops),
        Lang::I32Sub(ops) => array_ids2(ops),
        Lang::I64Sub(ops) => array_ids2(ops),
        Lang::I32Mul(ops) => array_ids2(ops),
        Lang::I64Mul(ops) => array_ids2(ops),
        Lang::I32And(ops) => array_ids2(ops),
        Lang::I64And(ops) => array_ids2(ops),
        Lang::I32Or(ops) => array_ids2(ops),
        Lang::I64Or(ops) => array_ids2(ops),
        Lang::I32Xor(ops) => array_ids2(ops),
        Lang::I64Xor(ops) => array_ids2(ops),
        Lang::I32Shl(ops) => array_ids2(ops),
        Lang::I64Shl(ops) => array_ids2(ops),
        Lang::I32ShrU(ops) => array_ids2(ops),
        Lang::I64ShrU(ops) => array_ids2(ops),
        Lang::I32DivU(ops) => array_ids2(ops),
        Lang::I64DivU(ops) => array_ids2(ops),
        Lang::I32DivS(ops) => array_ids2(ops),
        Lang::I64DivS(ops) => array_ids2(ops),
        Lang::I32ShrS(ops) => array_ids2(ops),
        Lang::I64ShrS(ops) => array_ids2(ops),
        Lang::I32RotR(ops) => array_ids2(ops),
        Lang::I64RotR(ops) => array_ids2(ops),
        Lang::I32RotL(ops) => array_ids2(ops),
        Lang::I64RotL(ops) => array_ids2(ops),
        Lang::I32RemS(ops) => array_ids2(ops),
        Lang::I64RemS(ops) => array_ids2(ops),
        Lang::I32RemU(ops) => array_ids2(ops),
        Lang::I64RemU(ops) => array_ids2(ops),
        Lang::F32Add(ops) => array_ids2(ops),
        Lang::F64Add(ops) => array_ids2(ops),
        Lang::F32Sub(ops) => array_ids2(ops),
        Lang::F64Sub(ops) => array_ids2(ops),
        Lang::F32Mul(ops) => array_ids2(ops),
        Lang::F64Mul(ops) => array_ids2(ops),
        Lang::F32Div(ops) => array_ids2(ops),
        Lang::F64Div(ops) => array_ids2(ops),
        Lang::F32Min(ops) => array_ids2(ops),
        Lang::F64Min(ops) => array_ids2(ops),
        Lang::F32Max(ops) => array_ids2(ops),
        Lang::F64Max(ops) => array_ids2(ops),
        Lang::F32Copysign(ops) => array_ids2(ops),
        Lang::F64Copysign(ops) => array_ids2(ops),
        Lang::F32Eq(ops) => array_ids2(ops),
        Lang::F64Eq(ops) => array_ids2(ops),
        Lang::F32Ne(ops) => array_ids2(ops),
        Lang::F64Ne(ops) => array_ids2(ops),
        Lang::F32Lt(ops) => array_ids2(ops),
        Lang::F64Lt(ops) => array_ids2(ops),
        Lang::F32Gt(ops) => array_ids2(ops),
        Lang::F64Gt(ops) => array_ids2(ops),
        Lang::F32Le(ops) => array_ids2(ops),
        Lang::F64Le(ops) => array_ids2(ops),
        Lang::F32Ge(ops) => array_ids2(ops),
        Lang::F64Ge(ops) => array_ids2(ops),
        Lang::I32Eq(ops) => array_ids2(ops),
        Lang::I64Eq(ops) => array_ids2(ops),
        Lang::I32Ne(ops) => array_ids2(ops),
        Lang::I64Ne(ops) => array_ids2(ops),
        Lang::I32LtS(ops) => array_ids2(ops),
        Lang::I64LtS(ops) => array_ids2(ops),
        Lang::I32LtU(ops) => array_ids2(ops),
        Lang::I64LtU(ops) => array_ids2(ops),
        Lang::I32GtS(ops) => array_ids2(ops),
        Lang::I64GtS(ops) => array_ids2(ops),
        Lang::I32GtU(ops) => array_ids2(ops),
        Lang::I64GtU(ops) => array_ids2(ops),
        Lang::I32LeS(ops) => array_ids2(ops),
        Lang::I64LeS(ops) => array_ids2(ops),
        Lang::I32LeU(ops) => array_ids2(ops),
        Lang::I64LeU(ops) => array_ids2(ops),
        Lang::I32GeS(ops) => array_ids2(ops),
        Lang::I64GeS(ops) => array_ids2(ops),
        Lang::I32GeU(ops) => array_ids2(ops),
        Lang::I64GeU(ops) => array_ids2(ops),
        Lang::LocalTee(ops) => array_ids2(ops),
        Lang::LocalSet(ops) => array_ids2(ops),
        Lang::GlobalSet(ops) => array_ids2(ops),
        Lang::F32Abs(ops) => array_ids1(ops),
        Lang::F64Abs(ops) => array_ids1(ops),
        Lang::F32Neg(ops) => array_ids1(ops),
        Lang::F64Neg(ops) => array_ids1(ops),
        Lang::F32Sqrt(ops) => array_ids1(ops),
        Lang::F64Sqrt(ops) => array_ids1(ops),
        Lang::F32Ceil(ops) => array_ids1(ops),
        Lang::F64Ceil(ops) => array_ids1(ops),
        Lang::F32Floor(ops) => array_ids1(ops),
        Lang::F64Floor(ops) => array_ids1(ops),
        Lang::F32Trunc(ops) => array_ids1(ops),
        Lang::F64trunc(ops) => array_ids1(ops),
        Lang::F32Nearest(ops) => array_ids1(ops),
        Lang::F64Nearest(ops) => array_ids1(ops),
        Lang::I32Eqz(ops) => array_ids1(ops),
        Lang::I64Eqz(ops) => array_ids1(ops),
        Lang::I32Popcnt(ops) => array_ids1(ops),
        Lang::I64Popcnt(ops) => array_ids1(ops),
        Lang::I32Clz(ops) => array_ids1(ops),
        Lang::I32Ctz(ops) => array_ids1(ops),
        Lang::I64Ctz(ops) => array_ids1(ops),
        Lang::I64Clz(ops) => array_ids1(ops),
        Lang::LocalGet(ops) => array_ids1(ops),
        Lang::GlobalGet(ops) => array_ids1(ops),
        Lang::Wrap(ops) => array_ids1(ops),
        Lang::I32Extend8S(ops) => array_ids1(ops),
        Lang::I64Extend8S(ops) => array_ids1(ops),
        Lang::I32Extend16S(ops) => array_ids1(ops),
        Lang::I64Extend16S(ops) => array_ids1(ops),
        Lang::I64Extend32S(ops) => array_ids1(ops),
        Lang::I64ExtendI32S(ops) => array_ids1(ops),
        Lang::I64ExtendI32U(ops) => array_ids1(ops),
        Lang::I32TruncF32S(ops) => array_ids1(ops),
        Lang::I32TruncF32U(ops) => array_ids1(ops),
        Lang::I32TruncF64S(ops) => array_ids1(ops),
        Lang::I32TruncF64U(ops) => array_ids1(ops),
        Lang::I64TruncF32S(ops) => array_ids1(ops),
        Lang::I64TruncF32U(ops) => array_ids1(ops),
        Lang::I64TruncF64S(ops) => array_ids1(ops),
        Lang::I64TruncF64U(ops) => array_ids1(ops),
        Lang::F32ConvertI32S(ops) => array_ids1(ops),
        Lang::F32ConvertI32U(ops) => array_ids1(ops),
        Lang::F32ConvertI64S(ops) => array_ids1(ops),
        Lang::F32ConvertI64U(ops) => array_ids1(ops),
        Lang::F32DemoteF64(ops) => array_ids1(ops),
        Lang::F64ConvertI32S(ops) => array_ids1(ops),
        Lang::F64ConvertI32U(ops) => array_ids1(ops),
        Lang::F64ConvertI64S(ops) => array_ids1(ops),
        Lang::F64ConvertI64U(ops) => array_ids1(ops),
        Lang::F64PromoteF32(ops) => array_ids1(ops),
        Lang::I32ReinterpretF32(ops) => array_ids1(ops),
        Lang::I64ReinterpretF64(ops) => array_ids1(ops),
        Lang::F32ReinterpretI32(ops) => array_ids1(ops),
        Lang::F64ReinterpretI64(ops) => array_ids1(ops),
        Lang::I32TruncSatF32S(ops) => array_ids1(ops),
        Lang::I32TruncSatF32U(ops) => array_ids1(ops),
        Lang::I32TruncSatF64S(ops) => array_ids1(ops),
        Lang::I32TruncSatF64U(ops) => array_ids1(ops),
        Lang::I64TruncSatF32S(ops) => array_ids1(ops),
        Lang::I64TruncSatF32U(ops) => array_ids1(ops),
        Lang::I64TruncSatF64S(ops) => array_ids1(ops),
        Lang::I64TruncSatF64U(ops) => array_ids1(ops),
        Lang::Drop(ops) => array_ids1(ops),
        Lang::MemorySize(ops) => array_ids1(ops),
        Lang::MemoryGrow(ops) => array_ids1(ops),
        Lang::Select(ops) => array_ids3(ops),
        Lang::Call(ops) => {
            let r = ops.clone();
            assert(r@ =~= ops@);
            r
        },
        Lang::I32Load(ops) => array_ids4(ops),
        Lang::I64Load(ops) => array_ids4(ops),
        Lang::F32Load(ops) => array_ids4(ops),
        Lang::F64Load(ops) => array_ids4(ops),
        Lang::I32Load8S(ops) => array_ids4(ops),
        Lang::I32Load8U(ops) => array_ids4(ops),
        Lang::I32Load16S(ops) => array_ids4(ops),
        Lang::I32Load16U(ops) => array_ids4(ops),
        Lang::I64Load8S(ops) => array_ids4(ops),
        Lang::I64Load8U(ops) => array_ids4(ops),
        Lang::I64Load16S(ops) => array_ids4(ops),
        Lang::I64Load16U(ops) => array_ids4(ops),
        Lang::I64Load32S(ops) => array_ids4(ops),
        Lang::I64Load32U(ops) => array_ids4(ops),
        Lang::I32Store(ops) => array_ids5(ops),
        Lang::I64Store(ops) => array_ids5(ops),
        Lang::F32Store(ops) => array_ids5(ops),
        Lang::F64Store(ops) => array_ids5(ops),
        Lang::I32Store8(ops) => array_ids5(ops),
        Lang::I32Store16(ops) => array_ids5(ops),
        Lang::I64Store8(ops) => array_ids5(ops),
        Lang::I64Store16(ops) => array_ids5(ops),
        Lang::I64Store32(ops) => array_ids5(ops),
        Lang::UnfoldI32(op)
        | Lang::UnfoldI64(op) => {
            let r = vec![*op];
            assert(r@ =~= seq![*op]);
            r
        },
        _ => Vec::new(),
    }
}

/// Whether `nodes` is a well-formed expression: every node's operands are
/// earlier nodes.
pub fn is_well_formed(nodes: &[Lang]) -> (r: bool)
    ensures
        r == well_formed_expr(nodes@),
{
    let mut i: usize = 0;
    while i < nodes.len()
        invariant
            i <= nodes@.len(),
            forall|k: int, j: int|
                0 <= k < i && 0 <= j < operands(#[trigger] nodes@[k]).len() ==> #[trigger] operands(
                    nodes@[k],
                )[j] < k,
        decreases nodes@.len() - i,
    {
        let ids = operand_ids(&nodes[i]);
        let mut j: usize = 0;
        while j < ids.len()
            invariant
                i < nodes@.len(),
                ids@ == operands(nodes@[i as int]),
                j <= ids@.len(),
                forall|m: int| 0 <= m < j ==> #[trigger] ids@[m] < i,
            decreases ids@.len() - j,
        {
            if (ids[j] as usize) >= i {
                assert(!well_formed_expr(nodes@)) by {
                    assert(operands(nodes@[i as int])[j as int] >= i);
                }
                return false;
            }
            j = j + 1;
        }
        i = i + 1;
    }
    true
}

} // verus!
