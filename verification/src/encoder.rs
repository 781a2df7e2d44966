//! Encoding an expression of the peephole mutator back into Wasm instructions.
//!
//! The expression is walked from its root (the last node) depth first, with an
//! explicit worklist of enter/exit events and a stack of the types that the
//! parents expect of their operands. Encoding is split in two: planning, which
//! is deterministic and yields a sequence of [`Step`]s, and realizing, which
//! turns the steps into instructions and draws the random constants.

use vstd::prelude::*;

use rand::rngs::SmallRng;

use crate::analysis::PeepholeMutationAnalysis;
use crate::error::{EitherType, Error};
use crate::lang::{operands, well_formed_expr, Id, Lang};
use crate::rng::{random_i32, random_i64};
use crate::types::{PrimitiveTypeInfo, TypeInfo};

verus! {

/// The memory immediate of a load or store.
#[derive(Debug, Clone, Copy, PartialEq, Eq, Structural)]
pub struct MemArg {
    pub offset: u64,
    pub align: u32,
    pub memory_index: u32,
}

/// A Wasm instruction that the encoder emits. Float constants hold their bits.
#[derive(Debug, Clone, Copy, PartialEq, Eq, Structural)]
pub enum Instr {
    LocalGet(u32),
    GlobalGet(u32),
    LocalSet(u32),
    GlobalSet(u32),
    LocalTee(u32),
    Call(u32),
    I32Load(MemArg),
    I64Load(MemArg),
    I32Store(MemArg),
    I64Store(MemArg),
    I32Const(i32),
    I64Const(i64),
    F32Const(u32),
    F64Const(u64),
    I32WrapI64,
    Drop,
    I32Add,
    I64Add,
    I32Sub,
    I64Sub,
    I32Mul,
    I64Mul,
    I32And,
    I64And,
    I32Or,
    I64Or,
    I32Xor,
    I64Xor,
    I32Shl,
    I64Shl,
    I32ShrU,
    I64ShrU,
    I32DivU,
    I64DivU,
    I32DivS,
    I64DivS,
    I32ShrS,
    I64ShrS,
    I32Rotr,
    I64Rotr,
    I32Rotl,
    I64Rotl,
    I32RemS,
    I64RemS,
    I32RemU,
    I64RemU,
    I32Eqz,
    I64Eqz,
    I32Eq,
    I64Eq,
    I32Neq,
    I64Neq,
    I32LtS,
    I64LtS,
    I32LtU,
    I64LtU,
    I32GtS,
    I64GtS,
    I32GtU,
    I64GtU,
    I32LeS,
    I64LeS,
    I32LeU,
    I64LeU,
    I32GeS,
    I64GeS,
    I32GeU,
    I64GeU,
    I32Popcnt,
    I64Popcnt,
    F32Add,
    F64Add,
    F32Sub,
    F64Sub,
    F32Mul,
    F64Mul,
    F32Div,
    F64Div,
    F32Min,
    F64Min,
    F32Max,
    F64Max,
    F32Copysign,
    F64Copysign,
    F32Abs,
    F64Abs,
    F32Neg,
    F64Neg,
    F32Sqrt,
    F64Sqrt,
    F32Ceil,
    F64Ceil,
    F32Floor,
    F64Floor,
    F32Trunc,
    F64Trunc,
    F32Nearest,
    F64Nearest,
    F32Eq,
    F64Eq,
    F32Neq,
    F64Neq,
    F32Lt,
    F64Lt,
    F32Gt,
    F64Gt,
    F32Le,
    F64Le,
    F32Ge,
    F64Ge,
    I32Extend8S,
    I64Extend8S,
    I32Extend16S,
    I64Extend16S,
    I64Extend32S,
    I64ExtendI32S,
    I64ExtendI32U,
}

/// One step of an encoding: an instruction, the random constant of the rand
/// node at an index (one number per node, however often it is used), or the
/// unfolding of a constant into the sum of a random number and its complement.
#[derive(Debug, Clone, Copy, PartialEq, Eq, Structural)]
pub enum Step {
    Emit(Instr),
    RandI32(Id),
    RandI64(Id),
    UnfoldI32(i32),
    UnfoldI64(i64),
}

/// Whether a node is being entered or left in the traversal.
#[derive(Debug, Clone, Copy, PartialEq, Eq, Structural)]
pub enum TraversalEvent {
    Enter,
    Exit,
}

/// An entry of the traversal worklist.
#[derive(Debug, Clone, Copy, PartialEq, Eq, Structural)]
pub struct Context {
    /// Current visited node index in the tree traversing
    pub current_node: Id,
    /// In which state of the traversing of the current node the process is
    pub traversal_event: TraversalEvent,
}

/// How planning ended.
#[derive(Debug, Clone, PartialEq, Eq)]
pub enum PlanEnd {
    /// The whole expression was encoded.
    Done,
    /// Encoding stopped with an error.
    Failed(Error),
    /// Encoding stopped on a node it has no encoding for (`select`, `clz`,
    /// `ctz`, the conversions and truncations, the narrow and float loads and
    /// stores, `memory.size`, `memory.grow`), on a malformed node, or where
    /// an expected type is missing or unusable: the encoder does not accept
    /// this expression.
    Stuck,
}

/// The steps planned, in order, and how planning ended.
#[derive(Debug, Clone)]
pub struct EncodingPlan {
    pub steps: Vec<Step>,
    pub end: PlanEnd,
}

/// Why planning stopped with an error.
pub enum PlanFailure {
    /// The type analysis reported this error.
    Analysis(Error),
    /// An unfold node whose operand is not a constant of its width.
    CannotUnfold(Lang),
}

/// How planning ends, in the model.
pub enum PlanOutcome {
    Done,
    Failed(PlanFailure),
    Stuck,
}

/// The state of the traversal: pending events, expected types, steps so far.
pub struct PlanState {
    pub worklist: Seq<Context>,
    pub types: Seq<PrimitiveTypeInfo>,
    pub steps: Seq<Step>,
}

/// The outcome of leaving a node, in the model.
pub enum ExitOutcome {
    Stuck,
    Fail(PlanFailure),
    Next(Option<Step>, Seq<PrimitiveTypeInfo>),
}

/// The outcome of one traversal event, in the model.
pub enum StepOutcome {
    Stuck,
    Fail(PlanFailure),
    Next(PlanState),
}

/// The text that the derived `Debug` formats a node as.
pub uninterp spec fn debug_text(l: Lang) -> Seq<char>;

/// Formats `l` with `format!("{:?}", ..)`, by the derived `Debug` of [`Lang`].
/// The text is named [`debug_text`]; nothing more is stated of it.
#[verifier::external_body]
fn debug_string(l: &Lang) -> (s: String)
    ensures
        s@ == debug_text(*l),
{
    format!("{:?}", l)
}

/// The message about a node that cannot be unfolded: a fixed sentence, then
/// the `Debug` text of the node.
pub open spec fn unfold_message(child: Lang) -> Seq<char> {
    "The current eterm cannot be unfolded "@ + debug_text(child)
}

fn cannot_unfold_message(child: &Lang) -> (s: String)
    ensures
        s@ == unfold_message(*child),
{
    let mut s = String::from_str("The current eterm cannot be unfolded ");
    let d = debug_string(child);
    s.append(d.as_str());
    s
}

/// The event of entering node `id`.
pub open spec fn enter(id: Id) -> Context {
    Context { current_node: id, traversal_event: TraversalEvent::Enter }
}

/// The event of leaving node `id`.
pub open spec fn exit(id: Id) -> Context {
    Context { current_node: id, traversal_event: TraversalEvent::Exit }
}

/// The worklist entries that visit `cs` in order: pushed last-first, so that
/// `cs[0]` is entered first and each child is left before the next is entered.
pub open spec fn pairs(cs: Seq<Id>) -> Seq<Context>
    decreases cs.len(),
{
    if cs.len() == 0 {
        Seq::empty()
    } else {
        pairs(cs.drop_first()) + seq![exit(cs[0]), enter(cs[0])]
    }
}

/// The operands that entering `l` traverses, in visiting order.
pub open spec fn visit(l: Lang) -> Seq<Id> {
    match l {
        Lang::I64Add(ops)
        | Lang::I64Shl(ops)
        | Lang::I64ShrU(ops)
        | Lang::I64Sub(ops)
        | Lang::I64Mul(ops)
        | Lang::I64And(ops)
        | Lang::I64Or(ops)
        | Lang::I64Xor(ops)
        | Lang::I64ShrS(ops)
        | Lang::I64DivS(ops)
        | Lang::I64DivU(ops)
        | Lang::I64RotR(ops)
        | Lang::I64RotL(ops)
        | Lang::I64RemS(ops)
        | Lang::I64RemU(ops)
        | Lang::I32Add(ops)
        | Lang::I32Shl(ops)
        | Lang::I32ShrU(ops)
        | Lang::I32Sub(ops)
        | Lang::I32Mul(ops)
        | Lang::I32And(ops)
        | Lang::I32Or(ops)
        | Lang::I32Xor(ops)
        | Lang::I32ShrS(ops)
        | Lang::I32DivS(ops)
        | Lang::I32DivU(ops)
        | Lang::I32RotR(ops)
        | Lang::I32RotL(ops)
        | Lang::I32RemS(ops)
        | Lang::I32RemU(ops)
        | Lang::F32Eq(ops)
        | Lang::F32Max(ops)
        | Lang::F32Min(ops)
        | Lang::F32Div(ops)
        | Lang::F32Mul(ops)
        | Lang::F32Sub(ops)
        | Lang::F32Copysign(ops)
        | Lang::F32Ne(ops)
        | Lang::F32Lt(ops)
        | Lang::F32Gt(ops)
        | Lang::F32Le(ops)
        | Lang::F32Ge(ops)
        | Lang::F32Add(ops)
        | Lang::F64Eq(ops)
        | Lang::F64Ne(ops)
        | Lang::F64Lt(ops)
        | Lang::F64Gt(ops)
        | Lang::F64Le(ops)
        | Lang::F64Ge(ops)
        | Lang::F64Copysign(ops)
        | Lang::F64Max(ops)
        | Lang::F64Min(ops)
        | Lang::F64Div(ops)
        | Lang::F64Mul(ops)
        | Lang::F64Sub(ops)
        | Lang::F64Add(ops)
        | Lang::I32Eq(ops)
        | Lang::I32Ne(ops)
        | Lang::I32LtS(ops)
        | Lang::I32LtU(ops)
        | Lang::I32GtS(ops)
        | Lang::I32GtU(ops)
        | Lang::I32LeS(ops)
        | Lang::I32LeU(ops)
        | Lang::I32GeS(ops)
        | Lang::I32GeU(ops)
        | Lang::I64Eq(ops)
        | Lang::I64Ne(ops)
        | Lang::I64LtS(ops)
        | Lang::I64LtU(ops)
        | Lang::I64GtS(ops)
        | Lang::I64GtU(ops)
        | Lang::I64LeS(ops)
        | Lang::I64LeU(ops)
        | Lang::I64GeS(ops)
        | Lang::I64GeU(ops) => seq![ops[0], ops[1]],
        Lang::F32Trunc(ops)
        | Lang::F32Floor(ops)
        | Lang::F32Ceil(ops)
        | Lang::F32Sqrt(ops)
        | Lang::F32Neg(ops)
        | Lang::F32Nearest(ops)
        | Lang::F32Abs(ops)
        | Lang::F64Nearest(ops)
        | Lang::F64trunc(ops)
        | Lang::F64Floor(ops)
        | Lang::F64Ceil(ops)
        | Lang::F64Sqrt(ops)
        | Lang::F64Neg(ops)
        | Lang::F64Abs(ops)
        | Lang::I32Popcnt(ops)
        | Lang::I32Eqz(ops)
        | Lang::I64Popcnt(ops)
        | Lang::I64Eqz(ops)
        | Lang::I32Extend8S(ops)
        | Lang::I32Extend16S(ops)
        | Lang::I64Extend32S(ops)
        | Lang::I64Extend16S(ops)
        | Lang::I64Extend8S(ops)
        | Lang::I64ExtendI32S(ops)
        | Lang::I64ExtendI32U(ops)
        | Lang::Wrap(ops)
        | Lang::Drop(ops) => seq![ops[0]],
        Lang::I32Load(ops)
        | Lang::I64Load(ops) => seq![ops[0]],
        Lang::I32Store(ops)
        | Lang::I64Store(ops) => seq![ops[1], ops[0]],
        Lang::LocalTee(ops) | Lang::LocalSet(ops) | Lang::GlobalSet(ops) => seq![ops[1]],
        Lang::Call(ops) => if ops@.len() > 0 {
            ops@.drop_first()
        } else {
            Seq::empty()
        },
        _ => Seq::empty(),
    }
}

/// The types that entering `l` pushes, where they do not depend on the module.
pub open spec fn fixed_enter_types(l: Lang) -> Seq<PrimitiveTypeInfo> {
    match l {
        Lang::I64Add(_)
        | Lang::I64Shl(_)
        | Lang::I64ShrU(_)
        | Lang::I64Sub(_)
        | Lang::I64Mul(_)
        | Lang::I64And(_)
        | Lang::I64Or(_)
        | Lang::I64Xor(_)
        | Lang::I64ShrS(_)
        | Lang::I64DivS(_)
        | Lang::I64DivU(_)
        | Lang::I64RotR(_)
        | Lang::I64RotL(_)
        | Lang::I64RemS(_)
        | Lang::I64RemU(_)
        | Lang::I64Eq(_)
        | Lang::I64Ne(_)
        | Lang::I64LtS(_)
        | Lang::I64LtU(_)
        | Lang::I64GtS(_)
        | Lang::I64GtU(_)
        | Lang::I64LeS(_)
        | Lang::I64LeU(_)
        | Lang::I64GeS(_)
        | Lang::I64GeU(_) => seq![PrimitiveTypeInfo::I64, PrimitiveTypeInfo::I64],
        Lang::I32Add(_)
        | Lang::I32Shl(_)
        | Lang::I32ShrU(_)
        | Lang::I32Sub(_)
        | Lang::I32Mul(_)
        | Lang::I32And(_)
        | Lang::I32Or(_)
        | Lang::I32Xor(_)
        | Lang::I32ShrS(_)
        | Lang::I32DivS(_)
        | Lang::I32DivU(_)
        | Lang::I32RotR(_)
        | Lang::I32RotL(_)
        | Lang::I32RemS(_)
        | Lang::I32RemU(_)
        | Lang::I32Eq(_)
        | Lang::I32Ne(_)
        | Lang::I32LtS(_)
        | Lang::I32LtU(_)
        | Lang::I32GtS(_)
        | Lang::I32GtU(_)
        | Lang::I32LeS(_)
        | Lang::I32LeU(_)
        | Lang::I32GeS(_)
        | Lang::I32GeU(_)
        | Lang::I32Store(_) => seq![PrimitiveTypeInfo::I32, PrimitiveTypeInfo::I32],
        Lang::F32Eq(_)
        | Lang::F32Max(_)
        | Lang::F32Min(_)
        | Lang::F32Div(_)
        | Lang::F32Mul(_)
        | Lang::F32Sub(_)
        | Lang::F32Copysign(_)
        | Lang::F32Ne(_)
        | Lang::F32Lt(_)
        | Lang::F32Gt(_)
        | Lang::F32Le(_)
        | Lang::F32Ge(_)
        | Lang::F32Add(_) => seq![PrimitiveTypeInfo::F32, PrimitiveTypeInfo::F32],
        Lang::F64Eq(_)
        | Lang::F64Ne(_)
        | Lang::F64Lt(_)
        | Lang::F64Gt(_)
        | Lang::F64Le(_)
        | Lang::F64Ge(_)
        | Lang::F64Copysign(_)
        | Lang::F64Max(_)
        | Lang::F64Min(_)
        | Lang::F64Div(_)
        | Lang::F64Mul(_)
        | Lang::F64Sub(_)
        | Lang::F64Add(_) => seq![PrimitiveTypeInfo::F64, PrimitiveTypeInfo::F64],
        Lang::F32Trunc(_)
        | Lang::F32Floor(_)
        | Lang::F32Ceil(_)
        | Lang::F32Sqrt(_)
        | Lang::F32Neg(_)
        | Lang::F32Nearest(_)
        | Lang::F32Abs(_) => seq![PrimitiveTypeInfo::F32],
        Lang::F64Nearest(_)
        | Lang::F64trunc(_)
        | Lang::F64Floor(_)
        | Lang::F64Ceil(_)
        | Lang::F64Sqrt(_)
        | Lang::F64Neg(_)
        | Lang::F64Abs(_) => seq![PrimitiveTypeInfo::F64],
        Lang::I32Popcnt(_)
        | Lang::I32Eqz(_)
        | Lang::I32Extend8S(_)
        | Lang::I32Extend16S(_)
        | Lang::I64ExtendI32S(_)
        | Lang::I64ExtendI32U(_)
        | Lang::I32Load(_)
        | Lang::I64Load(_) => seq![PrimitiveTypeInfo::I32],
        Lang::I64Popcnt(_)
        | Lang::I64Eqz(_)
        | Lang::I64Extend32S(_)
        | Lang::I64Extend16S(_)
        | Lang::I64Extend8S(_)
        | Lang::Wrap(_)
        | Lang::Drop(_) => seq![PrimitiveTypeInfo::I64],
        Lang::I64Store(_) => seq![PrimitiveTypeInfo::I64, PrimitiveTypeInfo::I32],
        _ => Seq::empty(),
    }
}

/// The instruction for the node kinds whose encoding is a fixed opcode.
pub open spec fn simple_instr(l: Lang) -> Option<Instr> {
    match l {
        Lang::Wrap(_) => Some(Instr::I32WrapI64),
        Lang::Drop(_) => Some(Instr::Drop),
        Lang::I32Add(_) => Some(Instr::I32Add),
        Lang::I64Add(_) => Some(Instr::I64Add),
        Lang::I32Sub(_) => Some(Instr::I32Sub),
        Lang::I64Sub(_) => Some(Instr::I64Sub),
        Lang::I32Mul(_) => Some(Instr::I32Mul),
        Lang::I64Mul(_) => Some(Instr::I64Mul),
        Lang::I32And(_) => Some(Instr::I32And),
        Lang::I64And(_) => Some(Instr::I64And),
        Lang::I32Or(_) => Some(Instr::I32Or),
        Lang::I64Or(_) => Some(Instr::I64Or),
        Lang::I32Xor(_) => Some(Instr::I32Xor),
        Lang::I64Xor(_) => Some(Instr::I64Xor),
        Lang::I32Shl(_) => Some(Instr::I32Shl),
        Lang::I64Shl(_) => Some(Instr::I64Shl),
        Lang::I32ShrU(_) => Some(Instr::I32ShrU),
        Lang::I64ShrU(_) => Some(Instr::I64ShrU),
        Lang::I32DivU(_) => Some(Instr::I32DivU),
        Lang::I64DivU(_) => Some(Instr::I64DivU),
        Lang::I32DivS(_) => Some(Instr::I32DivS),
        Lang::I64DivS(_) => Some(Instr::I64DivS),
        Lang::I32ShrS(_) => Some(Instr::I32ShrS),
        Lang::I64ShrS(_) => Some(Instr::I64ShrS),
        Lang::I32RotR(_) => Some(Instr::I32Rotr),
        Lang::I64RotR(_) => Some(Instr::I64Rotr),
        Lang::I32RotL(_) => Some(Instr::I32Rotl),
        Lang::I64RotL(_) => Some(Instr::I64Rotl),
        Lang::I32RemS(_) => Some(Instr::I32RemS),
        Lang::I64RemS(_) => Some(Instr::I64RemS),
        Lang::I32RemU(_) => Some(Instr::I32RemU),
        Lang::I64RemU(_) => Some(Instr::I64RemU),
        Lang::I32Eqz(_) => Some(Instr::I32Eqz),
        Lang::I64Eqz(_) => Some(Instr::I64Eqz),
        Lang::I32Eq(_) => Some(Instr::I32Eq),
        Lang::I64Eq(_) => Some(Instr::I64Eq),
        Lang::I32Ne(_) => Some(Instr::I32Neq),
        Lang::I64Ne(_) => Some(Instr::I64Neq),
        Lang::I32LtS(_) => Some(Instr::I32LtS),
        Lang::I64LtS(_) => Some(Instr::I64LtS),
        Lang::I32LtU(_) => Some(Instr::I32LtU),
        Lang::I64LtU(_) => Some(Instr::I64LtU),
        Lang::I32GtS(_) => Some(Instr::I32GtS),
        Lang::I64GtS(_) => Some(Instr::I64GtS),
        Lang::I32GtU(_) => Some(Instr::I32GtU),
        Lang::I64GtU(_) => Some(Instr::I64GtU),
        Lang::I32LeS(_) => Some(Instr::I32LeS),
        Lang::I64LeS(_) => Some(Instr::I64LeS),
        Lang::I32LeU(_) => Some(Instr::I32LeU),
        Lang::I64LeU(_) => Some(Instr::I64LeU),
        Lang::I32GeS(_) => Some(Instr::I32GeS),
        Lang::I64GeS(_) => Some(Instr::I64GeS),
        Lang::I32GeU(_) => Some(Instr::I32GeU),
        Lang::I64GeU(_) => Some(Instr::I64GeU),
        Lang::I32Popcnt(_) => Some(Instr::I32Popcnt),
        Lang::I64Popcnt(_) => Some(Instr::I64Popcnt),
        Lang::F32Add(_) => Some(Instr::F32Add),
        Lang::F64Add(_) => Some(Instr::F64Add),
        Lang::F32Sub(_) => Some(Instr::F32Sub),
        Lang::F64Sub(_) => Some(Instr::F64Sub),
        Lang::F32Mul(_) => Some(Instr::F32Mul),
        Lang::F64Mul(_) => Some(Instr::F64Mul),
        Lang::F32Div(_) => Some(Instr::F32Div),
        Lang::F64Div(_) => Some(Instr::F64Div),
        Lang::F32Min(_) => Some(Instr::F32Min),
        Lang::F64Min(_) => Some(Instr::F64Min),
        Lang::F32Max(_) => Some(Instr::F32Max),
        Lang::F64Max(_) => Some(Instr::F64Max),
        Lang::F32Copysign(_) => Some(Instr::F32Copysign),
        Lang::F64Copysign(_) => Some(Instr::F64Copysign),
        Lang::F32Abs(_) => Some(Instr::F32Abs),
        Lang::F64Abs(_) => Some(Instr::F64Abs),
        Lang::F32Neg(_) => Some(Instr::F32Neg),
        Lang::F64Neg(_) => Some(Instr::F64Neg),
        Lang::F32Sqrt(_) => Some(Instr::F32Sqrt),
        Lang::F64Sqrt(_) => Some(Instr::F64Sqrt),
        Lang::F32Ceil(_) => Some(Instr::F32Ceil),
        Lang::F64Ceil(_) => Some(Instr::F64Ceil),
        Lang::F32Floor(_) => Some(Instr::F32Floor),
        Lang::F64Floor(_) => Some(Instr::F64Floor),
        Lang::F32Trunc(_) => Some(Instr::F32Trunc),
        Lang::F64trunc(_) => Some(Instr::F64Trunc),
        Lang::F32Nearest(_) => Some(Instr::F32Nearest),
        Lang::F64Nearest(_) => Some(Instr::F64Nearest),
        Lang::F32Eq(_) => Some(Instr::F32Eq),
        Lang::F64Eq(_) => Some(Instr::F64Eq),
        Lang::F32Ne(_) => Some(Instr::F32Neq),
        Lang::F64Ne(_) => Some(Instr::F64Neq),
        Lang::F32Lt(_) => Some(Instr::F32Lt),
        Lang::F64Lt(_) => Some(Instr::F64Lt),
        Lang::F32Gt(_) => Some(Instr::F32Gt),
        Lang::F64Gt(_) => Some(Instr::F64Gt),
        Lang::F32Le(_) => Some(Instr::F32Le),
        Lang::F64Le(_) => Some(Instr::F64Le),
        Lang::F32Ge(_) => Some(Instr::F32Ge),
        Lang::F64Ge(_) => Some(Instr::F64Ge),
        Lang::I32Extend8S(_) => Some(Instr::I32Extend8S),
        Lang::I64Extend8S(_) => Some(Instr::I64Extend8S),
        Lang::I32Extend16S(_) => Some(Instr::I32Extend16S),
        Lang::I64Extend16S(_) => Some(Instr::I64Extend16S),
        Lang::I64Extend32S(_) => Some(Instr::I64Extend32S),
        Lang::I64ExtendI32S(_) => Some(Instr::I64ExtendI32S),
        Lang::I64ExtendI32U(_) => Some(Instr::I64ExtendI32U),
        _ => None,
    }
}

/// The value of an immediate operand of a load or store.
pub open spec fn immediate(l: Lang) -> Option<u64> {
    match l {
        Lang::Arg(val) => Some(val),
        Lang::Const(val) => Some(val as u64),
        _ => None,
    }
}

/// The memory immediate that the operands at `o`, `a` and `m` give.
pub open spec fn spec_memarg(nodes: Seq<Lang>, o: Id, a: Id, m: Id) -> Option<MemArg> {
    if o < nodes.len() && a < nodes.len() && m < nodes.len() {
        match (immediate(nodes[o as int]), immediate(nodes[a as int]), immediate(nodes[m as int])) {
            (Some(off), Some(al), Some(mi)) => Some(
                MemArg { offset: off, align: al as u32, memory_index: mi as u32 },
            ),
            _ => None,
        }
    } else {
        None
    }
}

/// Leaving a node that names a local or global: its first operand must be an
/// `Arg` holding the index.
pub open spec fn index_exit(nodes: Seq<Lang>, id: Id, make: spec_fn(u32) -> Instr, rest: Seq<
    PrimitiveTypeInfo,
>) -> ExitOutcome {
    match arg_index(nodes, id) {
        Some(v) => ExitOutcome::Next(Some(Step::Emit(make(v))), rest),
        None => ExitOutcome::Stuck,
    }
}

/// The index that the `Arg` node at `id` holds, cut to 32 bits.
pub open spec fn arg_index(nodes: Seq<Lang>, id: Id) -> Option<u32> {
    if id < nodes.len() {
        match nodes[id as int] {
            Lang::Arg(val) => Some(val as u32),
            _ => None,
        }
    } else {
        None
    }
}

/// Leaving node `l` (at index `id`), with `types` the expected types: pops the expected type of
/// `l` (and, for an `Arg`, one more) and gives the step to emit.
pub open spec fn exit_step(nodes: Seq<Lang>, id: Id, l: Lang, types: Seq<PrimitiveTypeInfo>) -> ExitOutcome {
    let top = if types.len() > 0 {
        Some(types.last())
    } else {
        None::<PrimitiveTypeInfo>
    };
    let rest = if types.len() > 0 {
        types.drop_last()
    } else {
        types
    };
    match l {
        Lang::LocalGet(ops) => index_exit(nodes, ops[0], |v: u32| Instr::LocalGet(v), rest),
        Lang::GlobalGet(ops) => index_exit(nodes, ops[0], |v: u32| Instr::GlobalGet(v), rest),
        Lang::LocalSet(ops) => index_exit(nodes, ops[0], |v: u32| Instr::LocalSet(v), rest),
        Lang::GlobalSet(ops) => index_exit(nodes, ops[0], |v: u32| Instr::GlobalSet(v), rest),
        Lang::LocalTee(ops) => index_exit(nodes, ops[0], |v: u32| Instr::LocalTee(v), rest),
        Lang::Call(ops) => if ops@.len() > 0 {
            index_exit(nodes, ops@[0], |v: u32| Instr::Call(v), rest)
        } else {
            ExitOutcome::Stuck
        },
        Lang::I32Load(ops) => match spec_memarg(nodes, ops[1], ops[2], ops[3]) {
            Some(m) => ExitOutcome::Next(Some(Step::Emit(Instr::I32Load(m))), rest),
            None => ExitOutcome::Stuck,
        },
        Lang::I64Load(ops) => match spec_memarg(nodes, ops[1], ops[2], ops[3]) {
            Some(m) => ExitOutcome::Next(Some(Step::Emit(Instr::I64Load(m))), rest),
            None => ExitOutcome::Stuck,
        },
        Lang::I32Store(ops) => match spec_memarg(nodes, ops[2], ops[3], ops[4]) {
            Some(m) => ExitOutcome::Next(Some(Step::Emit(Instr::I32Store(m))), rest),
            None => ExitOutcome::Stuck,
        },
        Lang::I64Store(ops) => match spec_memarg(nodes, ops[2], ops[3], ops[4]) {
            Some(m) => ExitOutcome::Next(Some(Step::Emit(Instr::I64Store(m))), rest),
            None => ExitOutcome::Stuck,
        },
        Lang::RandI32 => ExitOutcome::Next(Some(Step::RandI32(id)), rest),
        Lang::RandI64 => ExitOutcome::Next(Some(Step::RandI64(id)), rest),
        Lang::Undef => ExitOutcome::Next(None, rest),
        Lang::UnfoldI32(v) => if v < nodes.len() {
            match nodes[v as int] {
                Lang::I32(x) => ExitOutcome::Next(Some(Step::UnfoldI32(x)), rest),
                _ => ExitOutcome::Fail(PlanFailure::CannotUnfold(nodes[v as int])),
            }
        } else {
            ExitOutcome::Stuck
        },
        Lang::UnfoldI64(v) => if v < nodes.len() {
            match nodes[v as int] {
                Lang::I64(x) => ExitOutcome::Next(Some(Step::UnfoldI64(x)), rest),
                _ => ExitOutcome::Fail(PlanFailure::CannotUnfold(nodes[v as int])),
            }
        } else {
            ExitOutcome::Stuck
        },
        Lang::I32(v) => ExitOutcome::Next(Some(Step::Emit(Instr::I32Const(v))), rest),
        Lang::I64(v) => ExitOutcome::Next(Some(Step::Emit(Instr::I64Const(v))), rest),
        Lang::F32(v) => ExitOutcome::Next(Some(Step::Emit(Instr::F32Const(v))), rest),
        Lang::F64(v) => ExitOutcome::Next(Some(Step::Emit(Instr::F64Const(v))), rest),
        Lang::Arg(val) => if rest.len() > 0 {
            match rest.last() {
                PrimitiveTypeInfo::I32 => ExitOutcome::Next(
                    Some(Step::Emit(Instr::I32Const(val as i32))),
                    rest.drop_last(),
                ),
                PrimitiveTypeInfo::I64 => ExitOutcome::Next(
                    Some(Step::Emit(Instr::I64Const(val as i64))),
                    rest.drop_last(),
                ),
                _ => ExitOutcome::Stuck,
            }
        } else {
            ExitOutcome::Stuck
        },
        Lang::Const(v) => match top {
            Some(PrimitiveTypeInfo::I32) => ExitOutcome::Next(
                Some(Step::Emit(Instr::I32Const(v as i32))),
                rest,
            ),
            Some(PrimitiveTypeInfo::I64) => ExitOutcome::Next(
                Some(Step::Emit(Instr::I64Const(v))),
                rest,
            ),
            Some(PrimitiveTypeInfo::F32) => ExitOutcome::Next(
                Some(Step::Emit(Instr::F32Const(v as u32))),
                rest,
            ),
            Some(PrimitiveTypeInfo::F64) => ExitOutcome::Next(
                Some(Step::Emit(Instr::F64Const(v as u64))),
                rest,
            ),
            _ => ExitOutcome::Stuck,
        },
        _ => match simple_instr(l) {
            Some(i) => ExitOutcome::Next(Some(Step::Emit(i)), rest),
            None => ExitOutcome::Stuck,
        },
    }
}

/// The steps an optional step stands for.
pub open spec fn opt_steps(o: Option<Step>) -> Seq<Step> {
    match o {
        Some(s) => seq![s],
        None => Seq::empty(),
    }
}

/// The traversal weight of node `i`: one for entering it, plus the weights of
/// the events it pushes. Operands at or after `i` are not counted (a well-formed
/// expression has none).
pub open spec fn node_weight(nodes: Seq<Lang>, i: int) -> nat
    decreases i, 1nat, 0nat,
{
    if 0 <= i < nodes.len() {
        1 + bounded_weight(nodes, pairs(visit(nodes[i])), i)
    } else {
        1
    }
}

/// The weight of the events `cs`, counting entered nodes below `bound` only.
pub open spec fn bounded_weight(nodes: Seq<Lang>, cs: Seq<Context>, bound: int) -> nat
    decreases bound, 0nat, cs.len(),
{
    if cs.len() == 0 {
        0
    } else {
        let c = cs.last();
        bounded_weight(nodes, cs.drop_last(), bound) + match c.traversal_event {
            TraversalEvent::Exit => 1nat,
            TraversalEvent::Enter => if 0 <= c.current_node < bound {
                node_weight(nodes, c.current_node as int)
            } else {
                1nat
            },
        }
    }
}

/// The weight of one worklist event.
pub open spec fn event_weight(nodes: Seq<Lang>, c: Context) -> nat {
    match c.traversal_event {
        TraversalEvent::Exit => 1,
        TraversalEvent::Enter => node_weight(nodes, c.current_node as int),
    }
}

/// The weight of a worklist: it drops by one with every event processed.
pub open spec fn worklist_weight(nodes: Seq<Lang>, wl: Seq<Context>) -> nat
    decreases wl.len(),
{
    if wl.len() == 0 {
        0
    } else {
        worklist_weight(nodes, wl.drop_last()) + event_weight(nodes, wl.last())
    }
}

/// The weight of a concatenation is the sum of the weights.
pub proof fn lemma_worklist_weight_append(nodes: Seq<Lang>, a: Seq<Context>, b: Seq<Context>)
    ensures
        worklist_weight(nodes, a + b) == worklist_weight(nodes, a) + worklist_weight(nodes, b),
    decreases b.len(),
{
    if b.len() > 0 {
        lemma_worklist_weight_append(nodes, a, b.drop_last());
        assert((a + b).drop_last() =~= a + b.drop_last());
    } else {
        assert(a + b =~= a);
    }
}

/// Where every event is below `bound`, the bounded weight is the weight.
pub proof fn lemma_bounded_weight(nodes: Seq<Lang>, cs: Seq<Context>, bound: int)
    requires
        forall|k: int| 0 <= k < cs.len() ==> 0 <= #[trigger] cs[k].current_node < bound,
    ensures
        bounded_weight(nodes, cs, bound) == worklist_weight(nodes, cs),
    decreases cs.len(),
{
    if cs.len() > 0 {
        assert(cs.last() == cs[cs.len() - 1]);
        lemma_bounded_weight(nodes, cs.drop_last(), bound);
    }
}

/// The events that visit `cs` name only nodes of `cs`.
pub proof fn lemma_pairs_below(cs: Seq<Id>, bound: int)
    requires
        forall|k: int| 0 <= k < cs.len() ==> #[trigger] cs[k] < bound,
    ensures
        forall|k: int| 0 <= k < pairs(cs).len() ==> #[trigger] pairs(cs)[k].current_node < bound,
    decreases cs.len(),
{
    if cs.len() > 0 {
        let t = cs.drop_first();
        assert forall|k: int| 0 <= k < t.len() implies #[trigger] t[k] < bound by {
            assert(t[k] == cs[k + 1]);
        }
        lemma_pairs_below(t, bound);
        let p = pairs(cs);
        assert forall|k: int| 0 <= k < p.len() implies #[trigger] p[k].current_node < bound by {
            if k < pairs(t).len() {
                assert(p[k] == pairs(t)[k]);
            } else {
                assert(cs[0] < bound);
            }
        }
    }
}

/// In a well-formed expression, the operands that a node visits come before it.
pub proof fn lemma_visit_below(nodes: Seq<Lang>, i: int)
    requires
        well_formed_expr(nodes),
        0 <= i < nodes.len(),
    ensures
        forall|k: int| 0 <= k < visit(nodes[i]).len() ==> #[trigger] visit(nodes[i])[k] < i,
{
    let l = nodes[i];
    let ops = operands(l);
    assert forall|k: int| 0 <= k < visit(l).len() implies #[trigger] visit(l)[k] < i by {
        assert(forall|j: int| 0 <= j < ops.len() ==> #[trigger] ops[j] < i);
        match l {
            Lang::Call(v) => {
                assert(visit(l)[k] == ops[k + 1]);
            },
            Lang::I32Store(a) | Lang::I64Store(a) => {
                assert(ops[0] < i && ops[1] < i);
            },
            Lang::LocalTee(a) | Lang::LocalSet(a) | Lang::GlobalSet(a) => {
                assert(ops[1] < i);
            },
            _ => {
                assert(ops.len() > 0 ==> ops[0] < i);
                assert(ops.len() > 1 ==> ops[1] < i);
            },
        }
    }
}

/// Entering node `i` of a well-formed expression pushes events that weigh one
/// less than entering it.
pub proof fn lemma_enter_weight(nodes: Seq<Lang>, i: int)
    requires
        well_formed_expr(nodes),
        0 <= i < nodes.len(),
    ensures
        node_weight(nodes, i) == 1 + worklist_weight(nodes, pairs(visit(nodes[i]))),
{
    lemma_visit_below(nodes, i);
    lemma_pairs_below(visit(nodes[i]), i);
    lemma_bounded_weight(nodes, pairs(visit(nodes[i])), i);
}

impl PeepholeMutationAnalysis {
    /// The types that entering `l` pushes: fixed by the opcode, or the type of
    /// the stored value for the nodes that set a variable, or the parameters of
    /// the callee (last first) for a call. `None` where the encoder does not
    /// accept the node.
    pub open spec fn enter_types(&self, nodes: Seq<Lang>, l: Lang) -> Option<
        Result<Seq<PrimitiveTypeInfo>, Error>,
    > {
        match l {
            Lang::LocalTee(ops) | Lang::LocalSet(ops) | Lang::GlobalSet(ops) => if ops[1]
                < nodes.len() {
                match self.spec_returning_tpe(nodes[ops[1] as int], nodes) {
                    Some(Ok(t)) => Some(Ok(seq![t])),
                    Some(Err(e)) => Some(Err(e)),
                    None => None,
                }
            } else {
                None
            },
            Lang::Call(ops) => match Self::spec_call_target(nodes, ops@) {
                Some(f) => match self.spec_functype(f as usize as int) {
                    Some(TypeInfo::Func(ty)) => if ty.params@.len() >= ops@.len() - 1 {
                        Some(Ok(ty.params@.take(ops@.len() - 1).reverse()))
                    } else {
                        None
                    },
                    None => None,
                },
                None => None,
            },
            _ => Some(Ok(fixed_enter_types(l))),
        }
    }

    /// Processes the last event of the worklist.
    pub open spec fn plan_step(&self, nodes: Seq<Lang>, s: PlanState) -> StepOutcome {
        let c = s.worklist.last();
        let wl = s.worklist.drop_last();
        if c.current_node < nodes.len() {
            let l = nodes[c.current_node as int];
            match c.traversal_event {
                TraversalEvent::Enter => match self.enter_types(nodes, l) {
                    Some(Ok(ts)) => StepOutcome::Next(
                        PlanState { worklist: wl + pairs(visit(l)), types: s.types + ts, steps: s.steps },
                    ),
                    Some(Err(e)) => StepOutcome::Fail(PlanFailure::Analysis(e)),
                    None => StepOutcome::Stuck,
                },
                TraversalEvent::Exit => match exit_step(nodes, c.current_node, l, s.types) {
                    ExitOutcome::Next(o, ts) => StepOutcome::Next(
                        PlanState { worklist: wl, types: ts, steps: s.steps + opt_steps(o) },
                    ),
                    ExitOutcome::Fail(f) => StepOutcome::Fail(f),
                    ExitOutcome::Stuck => StepOutcome::Stuck,
                },
            }
        } else {
            StepOutcome::Stuck
        }
    }

    /// Runs the traversal from state `s` to its end: the steps planned and how
    /// it ended.
    pub open spec fn plan_run(&self, nodes: Seq<Lang>, s: PlanState) -> (Seq<Step>, PlanOutcome)
        decreases worklist_weight(nodes, s.worklist),
        when well_formed_expr(nodes)
    {
        if s.worklist.len() == 0 {
            (s.steps, PlanOutcome::Done)
        } else {
            match self.plan_step(nodes, s) {
                StepOutcome::Next(s2) => {
                    proof {
                        lemma_plan_step_decreases(self, nodes, s);
                    }
                    self.plan_run(nodes, s2)
                },
                StepOutcome::Fail(f) => (s.steps, PlanOutcome::Failed(f)),
                StepOutcome::Stuck => (s.steps, PlanOutcome::Stuck),
            }
        }
    }

    /// The plan for encoding `nodes` from its root, the last node, whose
    /// expected type is its own type.
    pub open spec fn spec_plan(&self, nodes: Seq<Lang>) -> (Seq<Step>, PlanOutcome) {
        if nodes.len() == 0 {
            (Seq::empty(), PlanOutcome::Stuck)
        } else {
            let root = (nodes.len() - 1) as Id;
            match self.spec_returning_tpe(nodes[root as int], nodes) {
                Some(Ok(t)) => self.plan_run(
                    nodes,
                    PlanState {
                        worklist: seq![exit(root), enter(root)],
                        types: seq![t],
                        steps: Seq::empty(),
                    },
                ),
                Some(Err(e)) => (Seq::empty(), PlanOutcome::Failed(PlanFailure::Analysis(e))),
                None => (Seq::empty(), PlanOutcome::Stuck),
            }
        }
    }
}

/// Each processed event lowers the worklist weight.
pub proof fn lemma_plan_step_decreases(a: &PeepholeMutationAnalysis, nodes: Seq<Lang>, s: PlanState)
    requires
        well_formed_expr(nodes),
        s.worklist.len() > 0,
    ensures
        a.plan_step(nodes, s) matches StepOutcome::Next(s2) ==> worklist_weight(nodes, s2.worklist)
            < worklist_weight(nodes, s.worklist),
{
    let c = s.worklist.last();
    let wl = s.worklist.drop_last();
    if c.current_node < nodes.len() {
        let l = nodes[c.current_node as int];
        if c.traversal_event == TraversalEvent::Enter {
            lemma_enter_weight(nodes, c.current_node as int);
            lemma_worklist_weight_append(nodes, wl, pairs(visit(l)));
        }
    }
}

} // verus!

verus! {

fn enter_ctx(id: Id) -> (c: Context)
    ensures
        c == enter(id),
{
    Context { current_node: id, traversal_event: TraversalEvent::Enter }
}

fn exit_ctx(id: Id) -> (c: Context)
    ensures
        c == exit(id),
{
    Context { current_node: id, traversal_event: TraversalEvent::Exit }
}

/// The worklist entries that visit `cs` in order.
fn pairs_of(cs: &Vec<Id>) -> (r: Vec<Context>)
    ensures
        r@ == pairs(cs@),
{
    let n = cs.len();
    let mut r: Vec<Context> = Vec::new();
    let mut k: usize = n;
    assert(cs@.subrange(n as int, n as int) =~= Seq::<Id>::empty());
    while k > 0
        invariant
            n == cs.len(),
            k <= n,
            r@ == pairs(cs@.subrange(k as int, n as int)),
        decreases k,
    {
        let ghost prev = cs@.subrange(k as int, n as int);
        let ghost next = cs@.subrange(k - 1, n as int);
        assert(next.drop_first() =~= prev);
        assert(next[0] == cs@[k - 1]);
        r.push(exit_ctx(cs[k - 1]));
        r.push(enter_ctx(cs[k - 1]));
        k = k - 1;
        assert(r@ =~= pairs(next));
    }
    assert(cs@.subrange(0, n as int) =~= cs@);
    r
}

fn visit_of(l: &Lang) -> (r: Vec<Id>)
    ensures
        r@ == visit(*l),
{
    match l {
        Lang::I64Add(ops)
        | Lang::I64Shl(ops)
        | Lang::I64ShrU(ops)
        | Lang::I64Sub(ops)
        | Lang::I64Mul(ops)
        | Lang::I64And(ops)
        | Lang::I64Or(ops)
        | Lang::I64Xor(ops)
        | Lang::I64ShrS(ops)
        | Lang::I64DivS(ops)
        | Lang::I64DivU(ops)
        | Lang::I64RotR(ops)
        | Lang::I64RotL(ops)
        | Lang::I64RemS(ops)
        | Lang::I64RemU(ops)
        | Lang::I32Add(ops)
        | Lang::I32Shl(ops)
        | Lang::I32ShrU(ops)
        | Lang::I32Sub(ops)
        | Lang::I32Mul(ops)
        | Lang::I32And(ops)
        | Lang::I32Or(ops)
        | Lang::I32Xor(ops)
        | Lang::I32ShrS(ops)
        | Lang::I32DivS(ops)
        | Lang::I32DivU(ops)
        | Lang::I32RotR(ops)
        | Lang::I32RotL(ops)
        | Lang::I32RemS(ops)
        | Lang::I32RemU(ops)
        | Lang::F32Eq(ops)
        | Lang::F32Max(ops)
        | Lang::F32Min(ops)
        | Lang::F32Div(ops)
        | Lang::F32Mul(ops)
        | Lang::F32Sub(ops)
        | Lang::F32Copysign(ops)
        | Lang::F32Ne(ops)
        | Lang::F32Lt(ops)
        | Lang::F32Gt(ops)
        | Lang::F32Le(ops)
        | Lang::F32Ge(ops)
        | Lang::F32Add(ops)
        | Lang::F64Eq(ops)
        | Lang::F64Ne(ops)
        | Lang::F64Lt(ops)
        | Lang::F64Gt(ops)
        | Lang::F64Le(ops)
        | Lang::F64Ge(ops)
        | Lang::F64Copysign(ops)
        | Lang::F64Max(ops)
        | Lang::F64Min(ops)
        | Lang::F64Div(ops)
        | Lang::F64Mul(ops)
        | Lang::F64Sub(ops)
        | Lang::F64Add(ops)
        | Lang::I32Eq(ops)
        | Lang::I32Ne(ops)
        | Lang::I32LtS(ops)
        | Lang::I32LtU(ops)
        | Lang::I32GtS(ops)
        | Lang::I32GtU(ops)
        | Lang::I32LeS(ops)
        | Lang::I32LeU(ops)
        | Lang::I32GeS(ops)
        | Lang::I32GeU(ops)
        | Lang::I64Eq(ops)
        | Lang::I64Ne(ops)
        | Lang::I64LtS(ops)
        | Lang::I64LtU(ops)
        | Lang::I64GtS(ops)
        | Lang::I64GtU(ops)
        | Lang::I64LeS(ops)
        | Lang::I64LeU(ops)
        | Lang::I64GeS(ops)
        | Lang::I64GeU(ops) => vec![ops[0], ops[1]],
        Lang::F32Trunc(ops)
        | Lang::F32Floor(ops)
        | Lang::F32Ceil(ops)
        | Lang::F32Sqrt(ops)
        | Lang::F32Neg(ops)
        | Lang::F32Nearest(ops)
        | Lang::F32Abs(ops)
        | Lang::F64Nearest(ops)
        | Lang::F64trunc(ops)
        | Lang::F64Floor(ops)
        | Lang::F64Ceil(ops)
        | Lang::F64Sqrt(ops)
        | Lang::F64Neg(ops)
        | Lang::F64Abs(ops)
        | Lang::I32Popcnt(ops)
        | Lang::I32Eqz(ops)
        | Lang::I64Popcnt(ops)
        | Lang::I64Eqz(ops)
        | Lang::I32Extend8S(ops)
        | Lang::I32Extend16S(ops)
        | Lang::I64Extend32S(ops)
        | Lang::I64Extend16S(ops)
        | Lang::I64Extend8S(ops)
        | Lang::I64ExtendI32S(ops)
        | Lang::I64ExtendI32U(ops)
        | Lang::Wrap(ops)
        | Lang::Drop(ops) => vec![ops[0]],
        Lang::I32Load(ops)
        | Lang::I64Load(ops) => vec![ops[0]],
        Lang::I32Store(ops)
        | Lang::I64Store(ops) => vec![ops[1], ops[0]],
        Lang::LocalTee(ops) | Lang::LocalSet(ops) | Lang::GlobalSet(ops) => vec![ops[1]],
        Lang::Call(ops) => {
            let mut r: Vec<Id> = Vec::new();
            let n = ops.len();
            if n > 0 {
                let mut k: usize = 1;
                while k < n
                    invariant
                        n == ops@.len(),
                        1 <= k <= n,
                        r@ == ops@.subrange(1, k as int),
                    decreases n - k,
                {
                    r.push(ops[k]);
                    k = k + 1;
                    assert(r@ =~= ops@.subrange(1, k as int));
                }
                assert(r@ =~= ops@.drop_first());
            }
            r
        },
        _ => Vec::new(),
    }
}

fn fixed_enter_types_of(l: &Lang) -> (r: Vec<PrimitiveTypeInfo>)
    ensures
        r@ == fixed_enter_types(*l),
{
    match l {
        Lang::I64Add(_)
        | Lang::I64Shl(_)
        | Lang::I64ShrU(_)
        | Lang::I64Sub(_)
        | Lang::I64Mul(_)
        | Lang::I64And(_)
        | Lang::I64Or(_)
        | Lang::I64Xor(_)
        | Lang::I64ShrS(_)
        | Lang::I64DivS(_)
        | Lang::I64DivU(_)
        | Lang::I64RotR(_)
        | Lang::I64RotL(_)
        | Lang::I64RemS(_)
        | Lang::I64RemU(_)
        | Lang::I64Eq(_)
        | Lang::I64Ne(_)
        | Lang::I64LtS(_)
        | Lang::I64LtU(_)
        | Lang::I64GtS(_)
        | Lang::I64GtU(_)
        | Lang::I64LeS(_)
        | Lang::I64LeU(_)
        | Lang::I64GeS(_)
        | Lang::I64GeU(_) => vec![PrimitiveTypeInfo::I64, PrimitiveTypeInfo::I64],
        Lang::I32Add(_)
        | Lang::I32Shl(_)
        | Lang::I32ShrU(_)
        | Lang::I32Sub(_)
        | Lang::I32Mul(_)
        | Lang::I32And(_)
        | Lang::I32Or(_)
        | Lang::I32Xor(_)
        | Lang::I32ShrS(_)
        | Lang::I32DivS(_)
        | Lang::I32DivU(_)
        | Lang::I32RotR(_)
        | Lang::I32RotL(_)
        | Lang::I32RemS(_)
        | Lang::I32RemU(_)
        | Lang::I32Eq(_)
        | Lang::I32Ne(_)
        | Lang::I32LtS(_)
        | Lang::I32LtU(_)
        | Lang::I32GtS(_)
        | Lang::I32GtU(_)
        | Lang::I32LeS(_)
        | Lang::I32LeU(_)
        | Lang::I32GeS(_)
        | Lang::I32GeU(_)
        | Lang::I32Store(_) => vec![PrimitiveTypeInfo::I32, PrimitiveTypeInfo::I32],
        Lang::F32Eq(_)
        | Lang::F32Max(_)
        | Lang::F32Min(_)
        | Lang::F32Div(_)
        | Lang::F32Mul(_)
        | Lang::F32Sub(_)
        | Lang::F32Copysign(_)
        | Lang::F32Ne(_)
        | Lang::F32Lt(_)
        | Lang::F32Gt(_)
        | Lang::F32Le(_)
        | Lang::F32Ge(_)
        | Lang::F32Add(_) => vec![PrimitiveTypeInfo::F32, PrimitiveTypeInfo::F32],
        Lang::F64Eq(_)
        | Lang::F64Ne(_)
        | Lang::F64Lt(_)
        | Lang::F64Gt(_)
        | Lang::F64Le(_)
        | Lang::F64Ge(_)
        | Lang::F64Copysign(_)
        | Lang::F64Max(_)
        | Lang::F64Min(_)
        | Lang::F64Div(_)
        | Lang::F64Mul(_)
        | Lang::F64Sub(_)
        | Lang::F64Add(_) => vec![PrimitiveTypeInfo::F64, PrimitiveTypeInfo::F64],
        Lang::F32Trunc(_)
        | Lang::F32Floor(_)
        | Lang::F32Ceil(_)
        | Lang::F32Sqrt(_)
        | Lang::F32Neg(_)
        | Lang::F32Nearest(_)
        | Lang::F32Abs(_) => vec![PrimitiveTypeInfo::F32],
        Lang::F64Nearest(_)
        | Lang::F64trunc(_)
        | Lang::F64Floor(_)
        | Lang::F64Ceil(_)
        | Lang::F64Sqrt(_)
        | Lang::F64Neg(_)
        | Lang::F64Abs(_) => vec![PrimitiveTypeInfo::F64],
        Lang::I32Popcnt(_)
        | Lang::I32Eqz(_)
        | Lang::I32Extend8S(_)
        | Lang::I32Extend16S(_)
        | Lang::I64ExtendI32S(_)
        | Lang::I64ExtendI32U(_)
        | Lang::I32Load(_)
        | Lang::I64Load(_) => vec![PrimitiveTypeInfo::I32],
        Lang::I64Popcnt(_)
        | Lang::I64Eqz(_)
        | Lang::I64Extend32S(_)
        | Lang::I64Extend16S(_)
        | Lang::I64Extend8S(_)
        | Lang::Wrap(_)
        | Lang::Drop(_) => vec![PrimitiveTypeInfo::I64],
        Lang::I64Store(_) => vec![PrimitiveTypeInfo::I64, PrimitiveTypeInfo::I32],
        _ => Vec::new(),
    }
}

fn simple_instr_of(l: &Lang) -> (r: Option<Instr>)
    ensures
        r == simple_instr(*l),
{
    match l {
        Lang::Wrap(_) => Some(Instr::I32WrapI64),
        Lang::Drop(_) => Some(Instr::Drop),
        Lang::I32Add(_) => Some(Instr::I32Add),
        Lang::I64Add(_) => Some(Instr::I64Add),
        Lang::I32Sub(_) => Some(Instr::I32Sub),
        Lang::I64Sub(_) => Some(Instr::I64Sub),
        Lang::I32Mul(_) => Some(Instr::I32Mul),
        Lang::I64Mul(_) => Some(Instr::I64Mul),
        Lang::I32And(_) => Some(Instr::I32And),
        Lang::I64And(_) => Some(Instr::I64And),
        Lang::I32Or(_) => Some(Instr::I32Or),
        Lang::I64Or(_) => Some(Instr::I64Or),
        Lang::I32Xor(_) => Some(Instr::I32Xor),
        Lang::I64Xor(_) => Some(Instr::I64Xor),
        Lang::I32Shl(_) => Some(Instr::I32Shl),
        Lang::I64Shl(_) => Some(Instr::I64Shl),
        Lang::I32ShrU(_) => Some(Instr::I32ShrU),
        Lang::I64ShrU(_) => Some(Instr::I64ShrU),
        Lang::I32DivU(_) => Some(Instr::I32DivU),
        Lang::I64DivU(_) => Some(Instr::I64DivU),
        Lang::I32DivS(_) => Some(Instr::I32DivS),
        Lang::I64DivS(_) => Some(Instr::I64DivS),
        Lang::I32ShrS(_) => Some(Instr::I32ShrS),
        Lang::I64ShrS(_) => Some(Instr::I64ShrS),
        Lang::I32RotR(_) => Some(Instr::I32Rotr),
        Lang::I64RotR(_) => Some(Instr::I64Rotr),
        Lang::I32RotL(_) => Some(Instr::I32Rotl),
        Lang::I64RotL(_) => Some(Instr::I64Rotl),
        Lang::I32RemS(_) => Some(Instr::I32RemS),
        Lang::I64RemS(_) => Some(Instr::I64RemS),
        Lang::I32RemU(_) => Some(Instr::I32RemU),
        Lang::I64RemU(_) => Some(Instr::I64RemU),
        Lang::I32Eqz(_) => Some(Instr::I32Eqz),
        Lang::I64Eqz(_) => Some(Instr::I64Eqz),
        Lang::I32Eq(_) => Some(Instr::I32Eq),
        Lang::I64Eq(_) => Some(Instr::I64Eq),
        Lang::I32Ne(_) => Some(Instr::I32Neq),
        Lang::I64Ne(_) => Some(Instr::I64Neq),
        Lang::I32LtS(_) => Some(Instr::I32LtS),
        Lang::I64LtS(_) => Some(Instr::I64LtS),
        Lang::I32LtU(_) => Some(Instr::I32LtU),
        Lang::I64LtU(_) => Some(Instr::I64LtU),
        Lang::I32GtS(_) => Some(Instr::I32GtS),
        Lang::I64GtS(_) => Some(Instr::I64GtS),
        Lang::I32GtU(_) => Some(Instr::I32GtU),
        Lang::I64GtU(_) => Some(Instr::I64GtU),
        Lang::I32LeS(_) => Some(Instr::I32LeS),
        Lang::I64LeS(_) => Some(Instr::I64LeS),
        Lang::I32LeU(_) => Some(Instr::I32LeU),
        Lang::I64LeU(_) => Some(Instr::I64LeU),
        Lang::I32GeS(_) => Some(Instr::I32GeS),
        Lang::I64GeS(_) => Some(Instr::I64GeS),
        Lang::I32GeU(_) => Some(Instr::I32GeU),
        Lang::I64GeU(_) => Some(Instr::I64GeU),
        Lang::I32Popcnt(_) => Some(Instr::I32Popcnt),
        Lang::I64Popcnt(_) => Some(Instr::I64Popcnt),
        Lang::F32Add(_) => Some(Instr::F32Add),
        Lang::F64Add(_) => Some(Instr::F64Add),
        Lang::F32Sub(_) => Some(Instr::F32Sub),
        Lang::F64Sub(_) => Some(Instr::F64Sub),
        Lang::F32Mul(_) => Some(Instr::F32Mul),
        Lang::F64Mul(_) => Some(Instr::F64Mul),
        Lang::F32Div(_) => Some(Instr::F32Div),
        Lang::F64Div(_) => Some(Instr::F64Div),
        Lang::F32Min(_) => Some(Instr::F32Min),
        Lang::F64Min(_) => Some(Instr::F64Min),
        Lang::F32Max(_) => Some(Instr::F32Max),
        Lang::F64Max(_) => Some(Instr::F64Max),
        Lang::F32Copysign(_) => Some(Instr::F32Copysign),
        Lang::F64Copysign(_) => Some(Instr::F64Copysign),
        Lang::F32Abs(_) => Some(Instr::F32Abs),
        Lang::F64Abs(_) => Some(Instr::F64Abs),
        Lang::F32Neg(_) => Some(Instr::F32Neg),
        Lang::F64Neg(_) => Some(Instr::F64Neg),
        Lang::F32Sqrt(_) => Some(Instr::F32Sqrt),
        Lang::F64Sqrt(_) => Some(Instr::F64Sqrt),
        Lang::F32Ceil(_) => Some(Instr::F32Ceil),
        Lang::F64Ceil(_) => Some(Instr::F64Ceil),
        Lang::F32Floor(_) => Some(Instr::F32Floor),
        Lang::F64Floor(_) => Some(Instr::F64Floor),
        Lang::F32Trunc(_) => Some(Instr::F32Trunc),
        Lang::F64trunc(_) => Some(Instr::F64Trunc),
        Lang::F32Nearest(_) => Some(Instr::F32Nearest),
        Lang::F64Nearest(_) => Some(Instr::F64Nearest),
        Lang::F32Eq(_) => Some(Instr::F32Eq),
        Lang::F64Eq(_) => Some(Instr::F64Eq),
        Lang::F32Ne(_) => Some(Instr::F32Neq),
        Lang::F64Ne(_) => Some(Instr::F64Neq),
        Lang::F32Lt(_) => Some(Instr::F32Lt),
        Lang::F64Lt(_) => Some(Instr::F64Lt),
        Lang::F32Gt(_) => Some(Instr::F32Gt),
        Lang::F64Gt(_) => Some(Instr::F64Gt),
        Lang::F32Le(_) => Some(Instr::F32Le),
        Lang::F64Le(_) => Some(Instr::F64Le),
        Lang::F32Ge(_) => Some(Instr::F32Ge),
        Lang::F64Ge(_) => Some(Instr::F64Ge),
        Lang::I32Extend8S(_) => Some(Instr::I32Extend8S),
        Lang::I64Extend8S(_) => Some(Instr::I64Extend8S),
        Lang::I32Extend16S(_) => Some(Instr::I32Extend16S),
        Lang::I64Extend16S(_) => Some(Instr::I64Extend16S),
        Lang::I64Extend32S(_) => Some(Instr::I64Extend32S),
        Lang::I64ExtendI32S(_) => Some(Instr::I64ExtendI32S),
        Lang::I64ExtendI32U(_) => Some(Instr::I64ExtendI32U),
        _ => None,
    }
}

fn immediate_of(l: &Lang) -> (r: Option<u64>)
    ensures
        r == immediate(*l),
{
    match l {
        Lang::Arg(val) => Some(*val),
        Lang::Const(val) => Some(*val as u64),
        _ => None,
    }
}

fn memarg_of(nodes: &[Lang], o: Id, a: Id, m: Id) -> (r: Option<MemArg>)
    ensures
        r == spec_memarg(nodes@, o, a, m),
{
    if (o as usize) < nodes.len() && (a as usize) < nodes.len() && (m as usize) < nodes.len() {
        let off = immediate_of(&nodes[o as usize]);
        let al = immediate_of(&nodes[a as usize]);
        let mi = immediate_of(&nodes[m as usize]);
        match (off, al, mi) {
            (Some(off), Some(al), Some(mi)) => Some(
                MemArg { offset: off, align: al as u32, memory_index: mi as u32 },
            ),
            _ => None,
        }
    } else {
        None
    }
}

fn arg_index_of(nodes: &[Lang], id: Id) -> (r: Option<u32>)
    ensures
        r == arg_index(nodes@, id),
{
    if (id as usize) < nodes.len() {
        match &nodes[id as usize] {
            Lang::Arg(val) => Some(*val as u32),
            _ => None,
        }
    } else {
        None
    }
}

/// The outcome of leaving a node.
enum ExitResult {
    Stuck,
    Fail(Error),
    Next(Option<Step>),
}

/// Whether an error of the encoder is the one that a planning failure names.
pub open spec fn failure_matches(e: Error, f: PlanFailure) -> bool {
    match f {
        PlanFailure::Analysis(e2) => e == e2,
        PlanFailure::CannotUnfold(child) => match e {
            Error::UnsupportedType(EitherType::EggError(s)) => s@ == unfold_message(child),
            _ => false,
        },
    }
}

/// Whether the end of an exec plan is the one the model gives.
pub open spec fn end_matches(e: PlanEnd, o: PlanOutcome) -> bool {
    match (e, o) {
        (PlanEnd::Done, PlanOutcome::Done) => true,
        (PlanEnd::Stuck, PlanOutcome::Stuck) => true,
        (PlanEnd::Failed(err), PlanOutcome::Failed(f)) => failure_matches(err, f),
        _ => false,
    }
}

fn unfold_failure(child: &Lang) -> (e: Error)
    ensures
        failure_matches(e, PlanFailure::CannotUnfold(*child)),
{
    Error::UnsupportedType(EitherType::EggError(cannot_unfold_message(child)))
}

fn emit_or_stuck(i: Option<Instr>) -> (r: ExitResult)
    ensures
        r == match i {
            Some(i) => ExitResult::Next(Some(Step::Emit(i))),
            None => ExitResult::Stuck,
        },
{
    match i {
        Some(i) => ExitResult::Next(Some(Step::Emit(i))),
        None => ExitResult::Stuck,
    }
}

/// Leaves node `l`: pops its expected type from `types` and gives its step.
fn exit_of(nodes: &[Lang], id: Id, l: &Lang, types: &mut Vec<PrimitiveTypeInfo>) -> (r: ExitResult)
    ensures
        match (r, exit_step(nodes@, id, *l, old(types)@)) {
            (ExitResult::Stuck, ExitOutcome::Stuck) => true,
            (ExitResult::Fail(e), ExitOutcome::Fail(f)) => failure_matches(e, f),
            (ExitResult::Next(o), ExitOutcome::Next(o2, ts)) => o == o2 && final(types)@ == ts,
            _ => false,
        },
{
    let top = types.pop();
    match l {
        Lang::LocalGet(ops) => match arg_index_of(nodes, ops[0]) {
            Some(v) => ExitResult::Next(Some(Step::Emit(Instr::LocalGet(v)))),
            None => ExitResult::Stuck,
        },
        Lang::GlobalGet(ops) => match arg_index_of(nodes, ops[0]) {
            Some(v) => ExitResult::Next(Some(Step::Emit(Instr::GlobalGet(v)))),
            None => ExitResult::Stuck,
        },
        Lang::LocalSet(ops) => match arg_index_of(nodes, ops[0]) {
            Some(v) => ExitResult::Next(Some(Step::Emit(Instr::LocalSet(v)))),
            None => ExitResult::Stuck,
        },
        Lang::GlobalSet(ops) => match arg_index_of(nodes, ops[0]) {
            Some(v) => ExitResult::Next(Some(Step::Emit(Instr::GlobalSet(v)))),
            None => ExitResult::Stuck,
        },
        Lang::LocalTee(ops) => match arg_index_of(nodes, ops[0]) {
            Some(v) => ExitResult::Next(Some(Step::Emit(Instr::LocalTee(v)))),
            None => ExitResult::Stuck,
        },
        Lang::Call(ops) => {
            if ops.len() > 0 {
                match arg_index_of(nodes, ops[0]) {
                    Some(v) => ExitResult::Next(Some(Step::Emit(Instr::Call(v)))),
                    None => ExitResult::Stuck,
                }
            } else {
                ExitResult::Stuck
            }
        },
        Lang::I32Load(ops) => match memarg_of(nodes, ops[1], ops[2], ops[3]) {
            Some(m) => ExitResult::Next(Some(Step::Emit(Instr::I32Load(m)))),
            None => ExitResult::Stuck,
        },
        Lang::I64Load(ops) => match memarg_of(nodes, ops[1], ops[2], ops[3]) {
            Some(m) => ExitResult::Next(Some(Step::Emit(Instr::I64Load(m)))),
            None => ExitResult::Stuck,
        },
        Lang::I32Store(ops) => match memarg_of(nodes, ops[2], ops[3], ops[4]) {
            Some(m) => ExitResult::Next(Some(Step::Emit(Instr::I32Store(m)))),
            None => ExitResult::Stuck,
        },
        Lang::I64Store(ops) => match memarg_of(nodes, ops[2], ops[3], ops[4]) {
            Some(m) => ExitResult::Next(Some(Step::Emit(Instr::I64Store(m)))),
            None => ExitResult::Stuck,
        },
        Lang::RandI32 => ExitResult::Next(Some(Step::RandI32(id))),
        Lang::RandI64 => ExitResult::Next(Some(Step::RandI64(id))),
        Lang::Undef => ExitResult::Next(None),
        Lang::UnfoldI32(v) => {
            if (*v as usize) < nodes.len() {
                let child = &nodes[*v as usize];
                match child {
                    Lang::I32(x) => ExitResult::Next(Some(Step::UnfoldI32(*x))),
                    _ => ExitResult::Fail(unfold_failure(child)),
                }
            } else {
                ExitResult::Stuck
            }
        },
        Lang::UnfoldI64(v) => {
            if (*v as usize) < nodes.len() {
                let child = &nodes[*v as usize];
                match child {
                    Lang::I64(x) => ExitResult::Next(Some(Step::UnfoldI64(*x))),
                    _ => ExitResult::Fail(unfold_failure(child)),
                }
            } else {
                ExitResult::Stuck
            }
        },
        Lang::I32(v) => ExitResult::Next(Some(Step::Emit(Instr::I32Const(*v)))),
        Lang::I64(v) => ExitResult::Next(Some(Step::Emit(Instr::I64Const(*v)))),
        Lang::F32(v) => ExitResult::Next(Some(Step::Emit(Instr::F32Const(*v)))),
        Lang::F64(v) => ExitResult::Next(Some(Step::Emit(Instr::F64Const(*v)))),
        Lang::Arg(val) => {
            let t = types.pop();
            match t {
                Some(PrimitiveTypeInfo::I32) => ExitResult::Next(
                    Some(Step::Emit(Instr::I32Const(*val as i32))),
                ),
                Some(PrimitiveTypeInfo::I64) => ExitResult::Next(
                    Some(Step::Emit(Instr::I64Const(*val as i64))),
                ),
                _ => ExitResult::Stuck,
            }
        },
        Lang::Const(v) => match top {
            Some(PrimitiveTypeInfo::I32) => ExitResult::Next(
                Some(Step::Emit(Instr::I32Const(*v as i32))),
            ),
            Some(PrimitiveTypeInfo::I64) => ExitResult::Next(Some(Step::Emit(Instr::I64Const(*v)))),
            Some(PrimitiveTypeInfo::F32) => ExitResult::Next(
                Some(Step::Emit(Instr::F32Const(*v as u32))),
            ),
            Some(PrimitiveTypeInfo::F64) => ExitResult::Next(
                Some(Step::Emit(Instr::F64Const(*v as u64))),
            ),
            _ => ExitResult::Stuck,
        },
        _ => emit_or_stuck(simple_instr_of(l)),
    }
}

} // verus!

verus! {

/// Whether an exec result of [`PeepholeMutationAnalysis::enter_types`] is the model's.
pub open spec fn enter_types_match(
    r: Option<Result<Vec<PrimitiveTypeInfo>, Error>>,
    s: Option<Result<Seq<PrimitiveTypeInfo>, Error>>,
) -> bool {
    match (r, s) {
        (None, None) => true,
        (Some(Ok(v)), Some(Ok(t))) => v@ == t,
        (Some(Err(e)), Some(Err(e2))) => e == e2,
        _ => false,
    }
}

/// The first `k` parameters, last first.
fn reversed_prefix(params: &Vec<PrimitiveTypeInfo>, k: usize) -> (r: Vec<PrimitiveTypeInfo>)
    requires
        k <= params@.len(),
    ensures
        r@ == params@.take(k as int).reverse(),
{
    let mut r: Vec<PrimitiveTypeInfo> = Vec::new();
    let mut j: usize = 0;
    while j < k
        invariant
            k <= params@.len(),
            j <= k,
            r@ == Seq::new(j as nat, |x: int| params@[k - 1 - x]),
        decreases k - j,
    {
        r.push(params[k - 1 - j]);
        j = j + 1;
        assert(r@ =~= Seq::new(j as nat, |x: int| params@[k - 1 - x]));
    }
    assert(r@ =~= params@.take(k as int).reverse());
    r
}

impl PeepholeMutationAnalysis {
    fn enter_types_of(&self, nodes: &[Lang], l: &Lang) -> (r: Option<
        Result<Vec<PrimitiveTypeInfo>, Error>,
    >)
        ensures
            enter_types_match(r, self.enter_types(nodes@, *l)),
    {
        match l {
            Lang::LocalTee(ops) | Lang::LocalSet(ops) | Lang::GlobalSet(ops) => {
                if (ops[1] as usize) < nodes.len() {
                    match self.returning_tpe_checked(&nodes[ops[1] as usize], nodes) {
                        Some(Ok(t)) => {
                            let v = vec![t];
                            assert(v@ =~= seq![t]);
                            Some(Ok(v))
                        },
                        Some(Err(e)) => Some(Err(e)),
                        None => None,
                    }
                } else {
                    None
                }
            },
            Lang::Call(ops) => {
                match Self::call_target(nodes, ops) {
                    Some(f) => {
                        match self.functype_checked(f as usize) {
                            Some(TypeInfo::Func(ty)) => {
                                let k = ops.len() - 1;
                                if ty.params.len() >= k {
                                    let v = reversed_prefix(&ty.params, k);
                                    assert(v@ == ty.params@.take(ops@.len() - 1).reverse());
                                    Some(Ok(v))
                                } else {
                                    None
                                }
                            },
                            None => None,
                        }
                    },
                    None => None,
                }
            },
            _ => {
                let v = fixed_enter_types_of(l);
                assert(v@ == fixed_enter_types(*l));
                Some(Ok(v))
            },
        }
    }

    /// Plans the encoding of `nodes` from its root, the last node: the steps
    /// to emit, in order, and how planning ended, as [`Self::spec_plan`] states.
    pub fn plan_encoding(&self, nodes: &[Lang]) -> (p: EncodingPlan)
        requires
            well_formed_expr(nodes@),
        ensures
            p.steps@ == self.spec_plan(nodes@).0,
            end_matches(p.end, self.spec_plan(nodes@).1),
    {
        if nodes.len() == 0 {
            return EncodingPlan { steps: Vec::new(), end: PlanEnd::Stuck };
        }
        // The last node is the root.
        let root = (nodes.len() - 1) as Id;
        let first = match self.returning_tpe_checked(&nodes[root as usize], nodes) {
            Some(Ok(t)) => t,
            Some(Err(e)) => {
                return EncodingPlan { steps: Vec::new(), end: PlanEnd::Failed(e) };
            },
            None => {
                return EncodingPlan { steps: Vec::new(), end: PlanEnd::Stuck };
            },
        };
        let mut type_stack: Vec<PrimitiveTypeInfo> = vec![first];
        let mut worklist: Vec<Context> = vec![exit_ctx(root), enter_ctx(root)];
        let mut steps: Vec<Step> = Vec::new();
        let ghost init = PlanState {
            worklist: seq![exit(root), enter(root)],
            types: seq![first],
            steps: Seq::empty(),
        };
        assert(worklist@ =~= init.worklist);
        assert(type_stack@ =~= init.types);
        while worklist.len() > 0
            invariant
                well_formed_expr(nodes@),
                self.plan_run(
                    nodes@,
                    PlanState { worklist: worklist@, types: type_stack@, steps: steps@ },
                ) == self.spec_plan(nodes@),
            decreases worklist_weight(nodes@, worklist@),
        {
            let ghost cur = PlanState { worklist: worklist@, types: type_stack@, steps: steps@ };
            proof {
                lemma_plan_step_decreases(self, nodes@, cur);
            }
            let context = worklist.pop().unwrap();
            let id = context.current_node as usize;
            if id >= nodes.len() {
                return EncodingPlan { steps, end: PlanEnd::Stuck };
            }
            let rootlang = &nodes[id];
            match context.traversal_event {
                TraversalEvent::Enter => {
                    match self.enter_types_of(nodes, rootlang) {
                        Some(Ok(ts)) => {
                            let ghost pushed = ts@;
                            let mut ts = ts;
                            type_stack.append(&mut ts);
                            let mut children = pairs_of(&visit_of(rootlang));
                            worklist.append(&mut children);
                            assert(worklist@ =~= cur.worklist.drop_last() + pairs(visit(*rootlang)));
                            assert(type_stack@ =~= cur.types + pushed);
                        },
                        Some(Err(e)) => {
                            return EncodingPlan { steps, end: PlanEnd::Failed(e) };
                        },
                        None => {
                            return EncodingPlan { steps, end: PlanEnd::Stuck };
                        },
                    }
                },
                TraversalEvent::Exit => {
                    match exit_of(nodes, context.current_node, rootlang, &mut type_stack) {
                        ExitResult::Next(o) => {
                            match o {
                                Some(s) => steps.push(s),
                                None => {},
                            }
                            assert(steps@ =~= cur.steps + opt_steps(o));
                        },
                        ExitResult::Fail(e) => {
                            return EncodingPlan { steps, end: PlanEnd::Failed(e) };
                        },
                        ExitResult::Stuck => {
                            return EncodingPlan { steps, end: PlanEnd::Stuck };
                        },
                    }
                },
            }
            let ghost next = PlanState { worklist: worklist@, types: type_stack@, steps: steps@ };
            assert(self.plan_step(nodes@, cur) == StepOutcome::Next(next));
        }
        EncodingPlan { steps, end: PlanEnd::Done }
    }
}

} // verus!

verus! {

/// How many instructions a step stands for.
pub open spec fn step_len(s: Step) -> nat {
    match s {
        Step::UnfoldI32(_) | Step::UnfoldI64(_) => 3,
        _ => 1,
    }
}

/// Whether `chunk` is an instruction sequence that step `s` may yield: the
/// instruction itself, a constant of the step's width for a random number, or
/// `r`, `v - r` (wrapping) and an add for the unfolding of `v`.
pub open spec fn step_realized(s: Step, chunk: Seq<Instr>) -> bool {
    match s {
        Step::Emit(i) => chunk == seq![i],
        Step::RandI32(_) => chunk.len() == 1 && chunk[0] is I32Const,
        Step::RandI64(_) => chunk.len() == 1 && chunk[0] is I64Const,
        Step::UnfoldI32(v) => chunk == unfolding_i32(v, chunk[0]->I32Const_0),
        Step::UnfoldI64(v) => chunk == unfolding_i64(v, chunk[0]->I64Const_0),
    }
}

/// The unfolding of `v` with the random part `r`: `r`, `v - r` (wrapping), add.
pub open spec fn unfolding_i32(v: i32, r: i32) -> Seq<Instr> {
    seq![Instr::I32Const(r), Instr::I32Const(v.wrapping_sub(r)), Instr::I32Add]
}

/// The unfolding of `v` with the random part `r`: `r`, `v - r` (wrapping), add.
pub open spec fn unfolding_i64(v: i64, r: i64) -> Seq<Instr> {
    seq![Instr::I64Const(r), Instr::I64Const(v.wrapping_sub(r)), Instr::I64Add]
}

/// Whether a step stands for the random constant of a rand node.
pub open spec fn is_rand(s: Step) -> bool {
    s is RandI32 || s is RandI64
}

/// Whether realizing a step may draw a random number.
pub open spec fn is_random(s: Step) -> bool {
    !(s is Emit)
}

/// Whether some step of `steps` may draw a random number.
pub open spec fn draws_random(steps: Seq<Step>) -> bool {
    exists|k: int| 0 <= k < steps.len() && is_random(#[trigger] steps[k])
}

/// Where the instructions of step `k` start.
pub open spec fn step_offset(steps: Seq<Step>, k: int) -> int
    decreases k,
{
    if k <= 0 {
        0
    } else {
        step_offset(steps, k - 1) + step_len(steps[k - 1])
    }
}

/// The instructions of step `k`.
pub open spec fn chunk_of(steps: Seq<Step>, instrs: Seq<Instr>, k: int) -> Seq<Instr> {
    instrs.subrange(step_offset(steps, k), step_offset(steps, k + 1))
}

/// Whether `instrs` is a realization of `steps`: each step in turn yields its
/// chunk of instructions, and every step of one rand node yields one and the
/// same constant.
pub open spec fn realizes(steps: Seq<Step>, instrs: Seq<Instr>) -> bool {
    &&& instrs.len() == step_offset(steps, steps.len() as int)
    &&& forall|k: int|
        0 <= k < steps.len() ==> step_realized(steps[k], #[trigger] chunk_of(steps, instrs, k))
    &&& forall|k1: int, k2: int|
        0 <= k1 < steps.len() && 0 <= k2 < steps.len() && is_rand(#[trigger] steps[k1])
            && steps[k1] == #[trigger] steps[k2] ==> instrs[step_offset(steps, k1)]
            == instrs[step_offset(steps, k2)]
}

proof fn lemma_step_offset_monotonic(steps: Seq<Step>, j: int, k: int)
    requires
        0 <= j <= k,
    ensures
        step_offset(steps, j) <= step_offset(steps, k),
    decreases k - j,
{
    if j < k {
        lemma_step_offset_monotonic(steps, j, k - 1);
    }
}

proof fn lemma_step_offset_nonnegative(steps: Seq<Step>, k: int)
    ensures
        step_offset(steps, k) >= 0,
    decreases k,
{
    if k > 0 {
        lemma_step_offset_nonnegative(steps, k - 1);
    }
}

/// The chunk of a step stays the same when instructions are appended after it.
proof fn lemma_chunk_stable(steps: Seq<Step>, a: Seq<Instr>, b: Seq<Instr>, j: int)
    requires
        0 <= j,
        a.len() <= b.len(),
        b.subrange(0, a.len() as int) == a,
        step_offset(steps, j + 1) <= a.len(),
    ensures
        chunk_of(steps, b, j) == chunk_of(steps, a, j),
{
    lemma_step_offset_nonnegative(steps, j);
    lemma_step_offset_monotonic(steps, j, j + 1);
    assert forall|x: int| 0 <= x < a.len() implies b[x] == a[x] by {
        assert(b.subrange(0, a.len() as int)[x] == b[x]);
    }
    assert(chunk_of(steps, b, j) =~= chunk_of(steps, a, j));
}

/// Appends `r`, `value - r` (wrapping) and `i32.add`: a sum whose value is
/// `value`, whatever `r`.
pub fn push_unfolding_i32(value: i32, r: i32, out: &mut Vec<Instr>)
    ensures
        final(out)@ == old(out)@ + unfolding_i32(value, r),
{
    out.push(Instr::I32Const(r));
    out.push(Instr::I32Const(value.wrapping_sub(r)));
    // add the complement
    out.push(Instr::I32Add);
    assert(out@ =~= old(out)@ + unfolding_i32(value, r));
}

/// Appends `r`, `value - r` (wrapping) and `i64.add`: a sum whose value is
/// `value`, whatever `r`.
pub fn push_unfolding_i64(value: i64, r: i64, out: &mut Vec<Instr>)
    ensures
        final(out)@ == old(out)@ + unfolding_i64(value, r),
{
    out.push(Instr::I64Const(r));
    out.push(Instr::I64Const(value.wrapping_sub(r)));
    // add the complement
    out.push(Instr::I64Add);
    assert(out@ =~= old(out)@ + unfolding_i64(value, r));
}

/// Appends `r`, `value - r` (wrapping) and `i32.add` for a random `r`: a sum
/// whose value is `value`.
pub fn unfold_i32(value: i32, rnd: &mut SmallRng, out: &mut Vec<Instr>)
    ensures
        final(out)@.len() == old(out)@.len() + 3,
        final(out)@.subrange(0, old(out)@.len() as int) == old(out)@,
        step_realized(
            Step::UnfoldI32(value),
            final(out)@.subrange(old(out)@.len() as int, final(out)@.len() as int),
        ),
{
    let randomc: i32 = random_i32(rnd);
    push_unfolding_i32(value, randomc, out);
    let ghost n = old(out)@.len();
    assert(out@.subrange(0, n as int) =~= old(out)@);
    assert(out@.subrange(n as int, out@.len() as int) =~= unfolding_i32(value, randomc));
}

/// Appends `r`, `value - r` (wrapping) and `i64.add` for a random `r`: a sum
/// whose value is `value`.
pub fn unfold_i64(value: i64, rnd: &mut SmallRng, out: &mut Vec<Instr>)
    ensures
        final(out)@.len() == old(out)@.len() + 3,
        final(out)@.subrange(0, old(out)@.len() as int) == old(out)@,
        step_realized(
            Step::UnfoldI64(value),
            final(out)@.subrange(old(out)@.len() as int, final(out)@.len() as int),
        ),
{
    let randomc: i64 = random_i64(rnd);
    push_unfolding_i64(value, randomc, out);
    let ghost n = old(out)@.len();
    assert(out@.subrange(0, n as int) =~= old(out)@);
    assert(out@.subrange(n as int, out@.len() as int) =~= unfolding_i64(value, randomc));
}

/// The constant drawn for a rand step, where one was: the last entry for it.
pub open spec fn drawn_for(drawn: Seq<(Step, Instr)>, s: Step) -> Option<Instr>
    decreases drawn.len(),
{
    if drawn.len() == 0 {
        None
    } else if drawn.last().0 == s {
        Some(drawn.last().1)
    } else {
        drawn_for(drawn.drop_last(), s)
    }
}

/// Whether `i` is a constant of the width of the rand step `s`.
pub open spec fn fits_rand(s: Step, i: Instr) -> bool {
    match s {
        Step::RandI32(_) => i is I32Const,
        Step::RandI64(_) => i is I64Const,
        _ => true,
    }
}

/// Whether every constant in `drawn` has the width of its rand step.
pub open spec fn entries_fit(drawn: Seq<(Step, Instr)>) -> bool {
    forall|k: int| 0 <= k < drawn.len() ==> fits_rand(#[trigger] drawn[k].0, drawn[k].1)
}

proof fn lemma_drawn_for_fits(drawn: Seq<(Step, Instr)>, t: Step)
    requires
        entries_fit(drawn),
    ensures
        drawn_for(drawn, t) is Some ==> fits_rand(t, drawn_for(drawn, t).unwrap()),
    decreases drawn.len(),
{
    if drawn.len() > 0 {
        let k = drawn.len() - 1;
        assert(fits_rand(drawn[k].0, drawn[k].1));
        if drawn.last().0 != t {
            assert(entries_fit(drawn.drop_last())) by {
                assert forall|j: int| 0 <= j < drawn.drop_last().len() implies fits_rand(
                    #[trigger] drawn.drop_last()[j].0,
                    drawn.drop_last()[j].1,
                ) by {
                    assert(drawn.drop_last()[j] == drawn[j]);
                    assert(fits_rand(drawn[j].0, drawn[j].1));
                }
            }
            lemma_drawn_for_fits(drawn.drop_last(), t);
        }
    }
}

fn find_drawn(drawn: &Vec<(Step, Instr)>, s: Step) -> (r: Option<Instr>)
    ensures
        r == drawn_for(drawn@, s),
{
    let mut i: usize = drawn.len();
    assert(drawn@.take(i as int) =~= drawn@);
    while i > 0
        invariant
            i <= drawn@.len(),
            drawn_for(drawn@, s) == drawn_for(drawn@.take(i as int), s),
        decreases i,
    {
        assert(drawn@.take(i as int).drop_last() =~= drawn@.take(i - 1));
        if drawn[i - 1].0 == s {
            return Some(drawn[i - 1].1);
        }
        i = i - 1;
    }
    None
}

/// Appends the instructions of one step: a rand step whose node already has
/// a constant in `drawn` reuses it, any other random step draws.
fn realize_step(s: Step, rnd: &mut SmallRng, out: &mut Vec<Instr>, drawn: &mut Vec<(Step, Instr)>)
    requires
        entries_fit(old(drawn)@),
    ensures
        final(out)@.len() == old(out)@.len() + step_len(s),
        final(out)@.subrange(0, old(out)@.len() as int) == old(out)@,
        step_realized(s, final(out)@.subrange(old(out)@.len() as int, final(out)@.len() as int)),
        is_rand(s) ==> drawn_for(final(drawn)@, s) == Some(final(out)@[old(out)@.len() as int]),
        forall|t: Step|
            #[trigger] drawn_for(old(drawn)@, t) is Some ==> drawn_for(final(drawn)@, t)
                == drawn_for(old(drawn)@, t),
        entries_fit(final(drawn)@),
        !is_random(s) ==> *final(rnd) == *old(rnd),
{
    let ghost n = old(out)@.len();
    match s {
        Step::Emit(i) => {
            out.push(i);
        },
        Step::RandI32(_) | Step::RandI64(_) => {
            let i = match find_drawn(drawn, s) {
                Some(i) => {
                    proof {
                        lemma_drawn_for_fits(drawn@, s);
                    }
                    i
                },
                None => {
                    let i = match s {
                        Step::RandI32(_) => Instr::I32Const(random_i32(rnd)),
                        _ => Instr::I64Const(random_i64(rnd)),
                    };
                    assert(fits_rand(s, i));
                    let ghost before = drawn@;
                    drawn.push((s, i));
                    assert(drawn@.drop_last() =~= before);
                    assert forall|k: int| 0 <= k < drawn@.len() implies fits_rand(
                        #[trigger] drawn@[k].0,
                        drawn@[k].1,
                    ) by {
                        if k < before.len() {
                            assert(drawn@[k] == before[k]);
                            assert(fits_rand(before[k].0, before[k].1));
                        }
                    }
                    assert forall|t: Step| #[trigger] drawn_for(before, t) is Some implies drawn_for(drawn@, t)
                        == drawn_for(before, t) by {
                        assert(t != s);
                    }
                    i
                },
            };
            out.push(i);
        },
        Step::UnfoldI32(v) => {
            unfold_i32(v, rnd, out);
        },
        Step::UnfoldI64(v) => {
            unfold_i64(v, rnd, out);
        },
    }
    assert(out@.subrange(0, n as int) =~= old(out)@);
    let ghost chunk = out@.subrange(n as int, out@.len() as int);
    match s {
        Step::Emit(i) => {
            assert(chunk =~= seq![i]);
        },
        Step::RandI32(_) | Step::RandI64(_) => {
            assert(chunk[0] == out@[n as int]);
        },
        _ => {},
    }
}

/// Appends a realization of `steps` to `out`, step by step; draws nothing
/// where no step may draw.
fn realize_plan(steps: &Vec<Step>, rnd: &mut SmallRng, out: &mut Vec<Instr>)
    ensures
        final(out)@.len() >= old(out)@.len(),
        final(out)@.subrange(0, old(out)@.len() as int) == old(out)@,
        realizes(steps@, final(out)@.subrange(old(out)@.len() as int, final(out)@.len() as int)),
        !draws_random(steps@) ==> *final(rnd) == *old(rnd),
{
    let ghost base = old(out)@;
    let ghost rnd0 = *rnd;
    let mut drawn: Vec<(Step, Instr)> = Vec::new();
    let mut k: usize = 0;
    assert(out@.subrange(0, base.len() as int) =~= base);
    while k < steps.len()
        invariant
            k <= steps@.len(),
            out@.len() == base.len() + step_offset(steps@, k as int),
            out@.subrange(0, base.len() as int) == base,
            forall|j: int|
                0 <= j < k ==> step_realized(
                    steps@[j],
                    #[trigger] chunk_of(steps@, out@.subrange(base.len() as int, out@.len() as int), j),
                ),
            forall|j: int|
                0 <= j < k && is_rand(#[trigger] steps@[j]) ==> drawn_for(drawn@, steps@[j]) == Some(
                    out@[base.len() + step_offset(steps@, j)],
                ),
            entries_fit(drawn@),
            (forall|j: int| 0 <= j < k ==> !is_random(#[trigger] steps@[j])) ==> *rnd == rnd0,
        decreases steps@.len() - k,
    {
        let ghost prev = out@;
        let ghost prev_rnd = *rnd;
        proof {
            lemma_step_offset_nonnegative(steps@, k as int);
        }
        realize_step(steps[k], rnd, out, &mut drawn);
        proof {
            let mine_prev = prev.subrange(base.len() as int, prev.len() as int);
            let mine = out@.subrange(base.len() as int, out@.len() as int);
            assert forall|x: int| 0 <= x < prev.len() implies out@[x] == prev[x] by {
                assert(out@.subrange(0, prev.len() as int)[x] == out@[x]);
            }
            assert(mine.subrange(0, mine_prev.len() as int) =~= mine_prev);
            assert(out@.subrange(0, base.len() as int) =~= base);
            assert forall|j: int| 0 <= j < k + 1 implies step_realized(
                steps@[j],
                #[trigger] chunk_of(steps@, mine, j),
            ) by {
                if j < k {
                    lemma_step_offset_monotonic(steps@, j + 1, k as int);
                    lemma_chunk_stable(steps@, mine_prev, mine, j);
                } else {
                    assert(chunk_of(steps@, mine, j) =~= out@.subrange(
                        prev.len() as int,
                        out@.len() as int,
                    ));
                }
            }
            assert forall|j: int|
                0 <= j < k + 1 && is_rand(#[trigger] steps@[j]) implies drawn_for(
                drawn@,
                steps@[j],
            ) == Some(out@[base.len() + step_offset(steps@, j)]) by {
                lemma_step_offset_nonnegative(steps@, j);
                if j < k {
                    lemma_step_offset_monotonic(steps@, j + 1, k as int);
                    lemma_step_offset_monotonic(steps@, j, j + 1);
                }
            }
            if !is_random(steps@[k as int]) {
                assert(*rnd == prev_rnd);
            }
        }
        k = k + 1;
    }
    proof {
        lemma_step_offset_nonnegative(steps@, steps@.len() as int);
        let mine = out@.subrange(base.len() as int, out@.len() as int);
        assert forall|k1: int, k2: int|
            0 <= k1 < steps@.len() && 0 <= k2 < steps@.len() && is_rand(#[trigger] steps@[k1])
                && steps@[k1] == #[trigger] steps@[k2] implies mine[step_offset(steps@, k1)]
            == mine[step_offset(steps@, k2)] by {
            lemma_step_offset_nonnegative(steps@, k1);
            lemma_step_offset_nonnegative(steps@, k2);
            lemma_step_offset_monotonic(steps@, k1 + 1, steps@.len() as int);
            lemma_step_offset_monotonic(steps@, k2 + 1, steps@.len() as int);
            lemma_step_offset_monotonic(steps@, k1, k1 + 1);
            lemma_step_offset_monotonic(steps@, k2, k2 + 1);
            assert(drawn_for(drawn@, steps@[k1]) == Some(out@[base.len() + step_offset(steps@, k1)]));
            assert(drawn_for(drawn@, steps@[k2]) == Some(out@[base.len() + step_offset(steps@, k2)]));
        }
        if !draws_random(steps@) {
            assert forall|j: int| 0 <= j < steps@.len() implies !is_random(#[trigger] steps@[j]) by {}
        }
    }
}

/// Encodes the expression `nodes` (its root is the last node) as Wasm
/// instructions appended to `newfunc`: the steps of the plan, in order; each
/// rand node draws one number, which every use of it shares, and each
/// unfolding draws its own. Where no step may draw, the generator is left as
/// it was. Where planning fails, the steps planned before
/// the failure are still appended and the error is returned.
pub fn expr2wasm(
    analysis: &PeepholeMutationAnalysis,
    rnd: &mut SmallRng,
    nodes: &[Lang],
    newfunc: &mut Vec<Instr>,
) -> (r: Result<(), Error>)
    requires
        well_formed_expr(nodes@),
        !(analysis.spec_plan(nodes@).1 is Stuck),
    ensures
        final(newfunc)@.len() >= old(newfunc)@.len(),
        final(newfunc)@.subrange(0, old(newfunc)@.len() as int) == old(newfunc)@,
        realizes(
            analysis.spec_plan(nodes@).0,
            final(newfunc)@.subrange(old(newfunc)@.len() as int, final(newfunc)@.len() as int),
        ),
        !draws_random(analysis.spec_plan(nodes@).0) ==> *final(rnd) == *old(rnd),
        match analysis.spec_plan(nodes@).1 {
            PlanOutcome::Done => r is Ok,
            PlanOutcome::Failed(f) => r matches Err(e) && failure_matches(e, f),
            PlanOutcome::Stuck => false,
        },
{
    let plan = analysis.plan_encoding(nodes);
    realize_plan(&plan.steps, rnd, newfunc);
    match plan.end {
        PlanEnd::Done => Ok(()),
        PlanEnd::Failed(e) => Err(e),
        PlanEnd::Stuck => {
            // The precondition rules this case out.
            proof {
                assert(false);
            }
            Err(Error::NoMutationsApplicable)
        },
    }
}

} // verus!

verus! {

/// Unfolding preserves the value: the two constants that the unfolding of an
/// `i32` constant `v` emits add up to `v` (wrapping), whatever the random part.
pub proof fn lemma_unfolded_i32_sums_to_value(v: i32, chunk: Seq<Instr>)
    requires
        step_realized(Step::UnfoldI32(v), chunk),
    ensures
        chunk[0] matches Instr::I32Const(r) && chunk[1] matches Instr::I32Const(c)
            && r.wrapping_add(c) == v,
{
}

/// Unfolding preserves the value: the two constants that the unfolding of an
/// `i64` constant `v` emits add up to `v` (wrapping), whatever the random part.
pub proof fn lemma_unfolded_i64_sums_to_value(v: i64, chunk: Seq<Instr>)
    requires
        step_realized(Step::UnfoldI64(v), chunk),
    ensures
        chunk[0] matches Instr::I64Const(r) && chunk[1] matches Instr::I64Const(c)
            && r.wrapping_add(c) == v,
{
}

} // verus!

verus! {

/// An event at the bottom of the worklist is processed last: when the run
/// ends well and the bottom event leaves a node with a fixed opcode, that
/// opcode is the last step.
pub proof fn lemma_bottom_exit_is_last(
    a: &PeepholeMutationAnalysis,
    nodes: Seq<Lang>,
    s: PlanState,
    r: Id,
    i: Instr,
)
    requires
        well_formed_expr(nodes),
        s.worklist.len() >= 1,
        s.worklist[0] == exit(r),
        r < nodes.len(),
        simple_instr(nodes[r as int]) == Some(i),
    ensures
        a.plan_run(nodes, s).1 is Done ==> {
            let steps = a.plan_run(nodes, s).0;
            steps.len() > 0 && steps.last() == Step::Emit(i)
        },
    decreases worklist_weight(nodes, s.worklist),
{
    lemma_plan_step_decreases(a, nodes, s);
    if s.worklist.len() == 1 {
        assert(s.worklist.last() == exit(r));
        assert(s.worklist.drop_last() =~= Seq::<Context>::empty());
        if let StepOutcome::Next(s2) = a.plan_step(nodes, s) {
            assert(s2.steps == s.steps + opt_steps(Some(Step::Emit(i))));
        }
    } else {
        if let StepOutcome::Next(s2) = a.plan_step(nodes, s) {
            assert(s2.worklist[0] == s.worklist[0]);
            lemma_bottom_exit_is_last(a, nodes, s2, r, i);
        }
    }
}

/// The root is encoded last: when encoding a well-formed expression succeeds
/// and its root (the last node) has a fixed opcode, the plan ends with that
/// opcode.
pub proof fn lemma_root_encoded_last(a: &PeepholeMutationAnalysis, nodes: Seq<Lang>)
    requires
        well_formed_expr(nodes),
        nodes.len() > 0,
        simple_instr(nodes.last()) is Some,
        nodes.len() - 1 <= u32::MAX,
    ensures
        a.spec_plan(nodes).1 is Done ==> {
            let steps = a.spec_plan(nodes).0;
            steps.len() > 0 && steps.last() == Step::Emit(simple_instr(nodes.last()).unwrap())
        },
{
    let root = (nodes.len() - 1) as Id;
    if let Some(Ok(t)) = a.spec_returning_tpe(nodes[root as int], nodes) {
        let s = PlanState {
            worklist: seq![exit(root), enter(root)],
            types: seq![t],
            steps: Seq::empty(),
        };
        lemma_bottom_exit_is_last(a, nodes, s, root, simple_instr(nodes.last()).unwrap());
    }
}

} // verus!

verus! {

/// The encoding of a subexpression in the model: the steps it yields and the
/// expected types left over, or the steps yielded before it stopped.
pub enum Encoding {
    Encoded(Seq<Step>, Seq<PrimitiveTypeInfo>),
    Failed(Seq<Step>, PlanFailure),
    Stuck(Seq<Step>),
}

/// `steps` followed by the encoding `e`.
pub open spec fn after_steps(steps: Seq<Step>, e: Encoding) -> Encoding {
    match e {
        Encoding::Encoded(s, t) => Encoding::Encoded(steps + s, t),
        Encoding::Failed(s, f) => Encoding::Failed(steps + s, f),
        Encoding::Stuck(s) => Encoding::Stuck(steps + s),
    }
}

/// The plan that an encoding yields when nothing follows it.
pub open spec fn finished(e: Encoding) -> (Seq<Step>, PlanOutcome) {
    match e {
        Encoding::Encoded(s, _) => (s, PlanOutcome::Done),
        Encoding::Failed(s, f) => (s, PlanOutcome::Failed(f)),
        Encoding::Stuck(s) => (s, PlanOutcome::Stuck),
    }
}

impl PeepholeMutationAnalysis {
    /// The encoding of node `i` when `types` are the expected types: the
    /// encodings of its operands in visiting order, then its own step. Entering
    /// the node pushes the types it expects of its operands; each operand, and
    /// then the node itself, pops what it consumes.
    pub open spec fn encode_node(&self, nodes: Seq<Lang>, i: Id, types: Seq<PrimitiveTypeInfo>) -> Encoding
        decreases i, 1nat, 0nat,
    {
        if i < nodes.len() {
            let l = nodes[i as int];
            match self.enter_types(nodes, l) {
                Some(Ok(ts)) => match self.encode_operands(nodes, visit(l), types + ts, i) {
                    Encoding::Encoded(e, t) => match exit_step(nodes, i, l, t) {
                        ExitOutcome::Next(o, t2) => Encoding::Encoded(e + opt_steps(o), t2),
                        ExitOutcome::Fail(f) => Encoding::Failed(e, f),
                        ExitOutcome::Stuck => Encoding::Stuck(e),
                    },
                    other => other,
                },
                Some(Err(err)) => Encoding::Failed(Seq::empty(), PlanFailure::Analysis(err)),
                None => Encoding::Stuck(Seq::empty()),
            }
        } else {
            Encoding::Stuck(Seq::empty())
        }
    }

    /// The encodings of the operands `cs` one after another, each starting from
    /// the types the one before left; operands at or after `bound` are not
    /// followed (a well-formed expression has none).
    pub open spec fn encode_operands(
        &self,
        nodes: Seq<Lang>,
        cs: Seq<Id>,
        types: Seq<PrimitiveTypeInfo>,
        bound: Id,
    ) -> Encoding
        decreases bound, 0nat, cs.len(),
    {
        if cs.len() == 0 {
            Encoding::Encoded(Seq::empty(), types)
        } else if cs[0] < bound {
            match self.encode_node(nodes, cs[0], types) {
                Encoding::Encoded(e, t) => after_steps(
                    e,
                    self.encode_operands(nodes, cs.drop_first(), t, bound),
                ),
                other => other,
            }
        } else {
            Encoding::Stuck(Seq::empty())
        }
    }

    /// The traversal from the worklist `wl`, after the steps `steps` and an
    /// encoding `e` of what was on top of it.
    pub open spec fn resume(&self, nodes: Seq<Lang>, wl: Seq<Context>, steps: Seq<Step>, e: Encoding) -> (
        Seq<Step>,
        PlanOutcome,
    ) {
        match e {
            Encoding::Encoded(s, t) => self.plan_run(
                nodes,
                PlanState { worklist: wl, types: t, steps: steps + s },
            ),
            Encoding::Failed(s, f) => (steps + s, PlanOutcome::Failed(f)),
            Encoding::Stuck(s) => (steps + s, PlanOutcome::Stuck),
        }
    }
}

proof fn lemma_resume_after(
    a: &PeepholeMutationAnalysis,
    nodes: Seq<Lang>,
    wl: Seq<Context>,
    steps: Seq<Step>,
    e1: Seq<Step>,
    rest: Encoding,
)
    ensures
        a.resume(nodes, wl, steps + e1, rest) == a.resume(nodes, wl, steps, after_steps(e1, rest)),
{
    match rest {
        Encoding::Encoded(s, t) => {
            assert(steps + e1 + s =~= steps + (e1 + s));
        },
        Encoding::Failed(s, f) => {
            assert(steps + e1 + s =~= steps + (e1 + s));
        },
        Encoding::Stuck(s) => {
            assert(steps + e1 + s =~= steps + (e1 + s));
        },
    }
}

/// Traversing node `i` from the top of the worklist yields its encoding, and
/// the traversal then goes on below it.
proof fn lemma_run_node(
    a: &PeepholeMutationAnalysis,
    nodes: Seq<Lang>,
    i: Id,
    wl: Seq<Context>,
    types: Seq<PrimitiveTypeInfo>,
    steps: Seq<Step>,
)
    requires
        well_formed_expr(nodes),
        i < nodes.len(),
    ensures
        a.plan_run(
            nodes,
            PlanState { worklist: wl + seq![exit(i), enter(i)], types: types, steps: steps },
        ) == a.resume(nodes, wl, steps, a.encode_node(nodes, i, types)),
    decreases i, 1nat, 0nat,
{
    let s0 = PlanState { worklist: wl + seq![exit(i), enter(i)], types: types, steps: steps };
    let l = nodes[i as int];
    assert(s0.worklist.last() == enter(i));
    assert(s0.worklist.drop_last() =~= wl + seq![exit(i)]);
    lemma_plan_step_decreases(a, nodes, s0);
    match a.enter_types(nodes, l) {
        Some(Ok(ts)) => {
            let w1 = wl + seq![exit(i)];
            lemma_visit_below(nodes, i as int);
            lemma_run_operands(a, nodes, visit(l), i, w1, types + ts, steps);
            match a.encode_operands(nodes, visit(l), types + ts, i) {
                Encoding::Encoded(e, t) => {
                    let s2 = PlanState { worklist: w1, types: t, steps: steps + e };
                    assert(s2.worklist.last() == exit(i));
                    assert(s2.worklist.drop_last() =~= wl);
                    lemma_plan_step_decreases(a, nodes, s2);
                    match exit_step(nodes, i, l, t) {
                        ExitOutcome::Next(o, t2) => {
                            assert(steps + e + opt_steps(o) =~= steps + (e + opt_steps(o)));
                        },
                        _ => {},
                    }
                },
                _ => {},
            }
        },
        _ => {
            assert(steps + Seq::<Step>::empty() =~= steps);
        },
    }
}

/// Traversing the operands `cs` from the top of the worklist yields their
/// encodings one after another, and the traversal then goes on below them.
proof fn lemma_run_operands(
    a: &PeepholeMutationAnalysis,
    nodes: Seq<Lang>,
    cs: Seq<Id>,
    bound: Id,
    wl: Seq<Context>,
    types: Seq<PrimitiveTypeInfo>,
    steps: Seq<Step>,
)
    requires
        well_formed_expr(nodes),
        bound <= nodes.len(),
        forall|k: int| 0 <= k < cs.len() ==> #[trigger] cs[k] < bound,
    ensures
        a.plan_run(nodes, PlanState { worklist: wl + pairs(cs), types: types, steps: steps })
            == a.resume(nodes, wl, steps, a.encode_operands(nodes, cs, types, bound)),
    decreases bound, 0nat, cs.len(),
{
    if cs.len() == 0 {
        assert(wl + pairs(cs) =~= wl);
        assert(steps + Seq::<Step>::empty() =~= steps);
    } else {
        let c0 = cs[0];
        let tail = cs.drop_first();
        assert(c0 < bound);
        assert forall|k: int| 0 <= k < tail.len() implies #[trigger] tail[k] < bound by {
            assert(tail[k] == cs[k + 1]);
        }
        let w1 = wl + pairs(tail);
        assert(wl + pairs(cs) =~= w1 + seq![exit(c0), enter(c0)]);
        lemma_run_node(a, nodes, c0, w1, types, steps);
        match a.encode_node(nodes, c0, types) {
            Encoding::Encoded(e, t) => {
                lemma_run_operands(a, nodes, tail, bound, wl, t, steps + e);
                lemma_resume_after(a, nodes, wl, steps, e, a.encode_operands(nodes, tail, t, bound));
            },
            _ => {},
        }
    }
}

/// The plan is the recursive encoding: for a well-formed expression whose
/// root (the last node) has a type, the plan is the encoding of the root with
/// that type expected, where each node is encoded as its operands in order
/// followed by its own step.
pub proof fn lemma_plan_is_recursive_encoding(
    a: &PeepholeMutationAnalysis,
    nodes: Seq<Lang>,
    t: PrimitiveTypeInfo,
)
    requires
        well_formed_expr(nodes),
        nodes.len() > 0,
        nodes.len() - 1 <= u32::MAX,
        a.spec_returning_tpe(nodes.last(), nodes) == Some(Ok::<PrimitiveTypeInfo, Error>(t)),
    ensures
        a.spec_plan(nodes) == finished(a.encode_node(nodes, (nodes.len() - 1) as Id, seq![t])),
{
    let root = (nodes.len() - 1) as Id;
    assert(nodes[root as int] == nodes.last());
    let w: Seq<Context> = Seq::empty();
    assert(w + seq![exit(root), enter(root)] =~= seq![exit(root), enter(root)]);
    lemma_run_node(a, nodes, root, w, seq![t], Seq::empty());
    match a.encode_node(nodes, root, seq![t]) {
        Encoding::Encoded(e, t2) => {
            assert(Seq::<Step>::empty() + e =~= e);
        },
        Encoding::Failed(e, f) => {
            assert(Seq::<Step>::empty() + e =~= e);
        },
        Encoding::Stuck(e) => {
            assert(Seq::<Step>::empty() + e =~= e);
        },
    }
}


/// Whether a node draws a random number when encoded: a rand node or an
/// unfolding.
pub open spec fn is_random_node(l: Lang) -> bool {
    l is RandI32 || l is RandI64 || l is UnfoldI32 || l is UnfoldI64
}

/// The steps of an encoding, however it ended.
pub open spec fn encoding_steps(e: Encoding) -> Seq<Step> {
    match e {
        Encoding::Encoded(s, _) => s,
        Encoding::Failed(s, _) => s,
        Encoding::Stuck(s) => s,
    }
}

proof fn lemma_draws_random_concat(x: Seq<Step>, y: Seq<Step>)
    requires
        !draws_random(x),
        !draws_random(y),
    ensures
        !draws_random(x + y),
{
    assert forall|k: int| 0 <= k < (x + y).len() implies !is_random(#[trigger] (x + y)[k]) by {
        if k < x.len() {
            assert((x + y)[k] == x[k]);
            assert(!is_random(x[k]));
        } else {
            assert((x + y)[k] == y[k - x.len()]);
            assert(!is_random(y[k - x.len()]));
        }
    }
}

proof fn lemma_encode_node_draws_nothing(
    a: &PeepholeMutationAnalysis,
    nodes: Seq<Lang>,
    i: Id,
    types: Seq<PrimitiveTypeInfo>,
)
    requires
        forall|k: int| 0 <= k < nodes.len() ==> !is_random_node(#[trigger] nodes[k]),
    ensures
        !draws_random(encoding_steps(a.encode_node(nodes, i, types))),
    decreases i, 1nat, 0nat,
{
    if i < nodes.len() {
        let l = nodes[i as int];
        assert(!is_random_node(l));
        match a.enter_types(nodes, l) {
            Some(Ok(ts)) => {
                lemma_encode_operands_draws_nothing(a, nodes, visit(l), types + ts, i);
                match a.encode_operands(nodes, visit(l), types + ts, i) {
                    Encoding::Encoded(e, t) => {
                        match exit_step(nodes, i, l, t) {
                            ExitOutcome::Next(o, t2) => {
                                assert(!draws_random(opt_steps(o)));
                                lemma_draws_random_concat(e, opt_steps(o));
                            },
                            _ => {},
                        }
                    },
                    _ => {},
                }
            },
            _ => {},
        }
    }
}

proof fn lemma_encode_operands_draws_nothing(
    a: &PeepholeMutationAnalysis,
    nodes: Seq<Lang>,
    cs: Seq<Id>,
    types: Seq<PrimitiveTypeInfo>,
    bound: Id,
)
    requires
        forall|k: int| 0 <= k < nodes.len() ==> !is_random_node(#[trigger] nodes[k]),
    ensures
        !draws_random(encoding_steps(a.encode_operands(nodes, cs, types, bound))),
    decreases bound, 0nat, cs.len(),
{
    if cs.len() > 0 && cs[0] < bound {
        lemma_encode_node_draws_nothing(a, nodes, cs[0], types);
        match a.encode_node(nodes, cs[0], types) {
            Encoding::Encoded(e, t) => {
                lemma_encode_operands_draws_nothing(a, nodes, cs.drop_first(), t, bound);
                let rest = a.encode_operands(nodes, cs.drop_first(), t, bound);
                lemma_draws_random_concat(e, encoding_steps(rest));
            },
            _ => {},
        }
    }
}

/// An expression without rand or unfold nodes is planned without a step that
/// draws, so that encoding it leaves the generator as it was.
pub proof fn lemma_no_random_node_draws_nothing(a: &PeepholeMutationAnalysis, nodes: Seq<Lang>)
    requires
        well_formed_expr(nodes),
        nodes.len() - 1 <= u32::MAX,
        forall|k: int| 0 <= k < nodes.len() ==> !is_random_node(#[trigger] nodes[k]),
    ensures
        !draws_random(a.spec_plan(nodes).0),
{
    if nodes.len() > 0 {
        if let Some(Ok(t)) = a.spec_returning_tpe(nodes.last(), nodes) {
            let root = (nodes.len() - 1) as Id;
            assert(nodes[root as int] == nodes.last());
            lemma_plan_is_recursive_encoding(a, nodes, t);
            lemma_encode_node_draws_nothing(a, nodes, root, seq![t]);
        }
    }
}

} // verus!
