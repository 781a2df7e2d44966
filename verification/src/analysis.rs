//! Type inference over expressions of the peephole mutator, and the per-class
//! data that the e-graph keeps.

use vstd::prelude::*;

use crate::error::Error;
use crate::lang::{Id, Lang};
use crate::types::{PrimitiveTypeInfo, TypeInfo};

verus! {

/// The type that a node kind produces whatever its operands are, or `None`
/// for the kinds whose type depends on the module or on the operands
/// (`local.get`, `local.tee`, `global.get`, `call`, `select`).
pub open spec fn fixed_tpe(l: Lang) -> Option<PrimitiveTypeInfo> {
    match l {
        Lang::I32Add(_)
        | Lang::I32Sub(_)
        | Lang::I32Mul(_)
        | Lang::I32And(_)
        | Lang::I32Or(_)
        | Lang::I32Xor(_)
        | Lang::I32Shl(_)
        | Lang::I32ShrU(_)
        | Lang::I32DivU(_)
        | Lang::I32DivS(_)
        | Lang::I32ShrS(_)
        | Lang::I32RotR(_)
        | Lang::I32RotL(_)
        | Lang::I32RemS(_)
        | Lang::I32RemU(_)
        | Lang::F32Eq(_)
        | Lang::F64Eq(_)
        | Lang::F32Ne(_)
        | Lang::F64Ne(_)
        | Lang::F32Lt(_)
        | Lang::F64Lt(_)
        | Lang::F32Gt(_)
        | Lang::F64Gt(_)
        | Lang::F32Le(_)
        | Lang::F64Le(_)
        | Lang::F32Ge(_)
        | Lang::F64Ge(_)
        | Lang::I32Eqz(_)
        | Lang::I64Eqz(_)
        | Lang::I32Eq(_)
        | Lang::I64Eq(_)
        | Lang::I32Ne(_)
        | Lang::I64Ne(_)
        | Lang::I32LtS(_)
        | Lang::I64LtS(_)
        | Lang::I32LtU(_)
        | Lang::I64LtU(_)
        | Lang::I32GtS(_)
        | Lang::I64GtS(_)
        | Lang::I32GtU(_)
        | Lang::I64GtU(_)
        | Lang::I32LeS(_)
        | Lang::I64LeS(_)
        | Lang::I32LeU(_)
        | Lang::I64LeU(_)
        | Lang::I32GeS(_)
        | Lang::I64GeS(_)
        | Lang::I32GeU(_)
        | Lang::I64GeU(_)
        | Lang::I32Popcnt(_)
        | Lang::I32Clz(_)
        | Lang::I32Ctz(_)
        | Lang::Wrap(_)
        | Lang::I32Extend8S(_)
        | Lang::I32Extend16S(_)
        | Lang::I32TruncF32S(_)
        | Lang::I32TruncF32U(_)
        | Lang::I32TruncF64S(_)
        | Lang::I32TruncF64U(_)
        | Lang::I32ReinterpretF32(_)
        | Lang::I32TruncSatF32S(_)
        | Lang::I32TruncSatF32U(_)
        | Lang::I32TruncSatF64S(_)
        | Lang::I32TruncSatF64U(_)
        | Lang::I32Load(_)
        | Lang::I32Load8S(_)
        | Lang::I32Load8U(_)
        | Lang::I32Load16S(_)
        | Lang::I32Load16U(_)
        | Lang::MemorySize(_)
        | Lang::MemoryGrow(_)
        | Lang::RandI32
        | Lang::UnfoldI32(_)
        | Lang::I32(_)
        | Lang::Arg(_) => Some(PrimitiveTypeInfo::I32),
        Lang::I64Add(_)
        | Lang::I64Sub(_)
        | Lang::I64Mul(_)
        | Lang::I64And(_)
        | Lang::I64Or(_)
        | Lang::I64Xor(_)
        | Lang::I64Shl(_)
        | Lang::I64ShrU(_)
        | Lang::I64DivU(_)
        | Lang::I64DivS(_)
        | Lang::I64ShrS(_)
        | Lang::I64RotR(_)
        | Lang::I64RotL(_)
        | Lang::I64RemS(_)
        | Lang::I64RemU(_)
        | Lang::I64Popcnt(_)
        | Lang::I64Ctz(_)
        | Lang::I64Clz(_)
        | Lang::I64Extend8S(_)
        | Lang::I64Extend16S(_)
        | Lang::I64Extend32S(_)
        | Lang::I64ExtendI32S(_)
        | Lang::I64ExtendI32U(_)
        | Lang::I64TruncF32S(_)
        | Lang::I64TruncF32U(_)
        | Lang::I64TruncF64S(_)
        | Lang::I64TruncF64U(_)
        | Lang::I64ReinterpretF64(_)
        | Lang::I64TruncSatF32S(_)
        | Lang::I64TruncSatF32U(_)
        | Lang::I64TruncSatF64S(_)
        | Lang::I64TruncSatF64U(_)
        | Lang::I64Load(_)
        | Lang::I64Load8S(_)
        | Lang::I64Load8U(_)
        | Lang::I64Load16S(_)
        | Lang::I64Load16U(_)
        | Lang::I64Load32S(_)
        | Lang::I64Load32U(_)
        | Lang::RandI64
        | Lang::UnfoldI64(_)
        | Lang::Const(_)
        | Lang::I64(_) => Some(PrimitiveTypeInfo::I64),
        Lang::F32Add(_)
        | Lang::F32Sub(_)
        | Lang::F32Mul(_)
        | Lang::F32Div(_)
        | Lang::F32Min(_)
        | Lang::F32Max(_)
        | Lang::F32Copysign(_)
        | Lang::F32Abs(_)
        | Lang::F32Neg(_)
        | Lang::F32Sqrt(_)
        | Lang::F32Ceil(_)
        | Lang::F32Floor(_)
        | Lang::F32Trunc(_)
        | Lang::F32Nearest(_)
        | Lang::F32ConvertI32S(_)
        | Lang::F32ConvertI32U(_)
        | Lang::F32ConvertI64S(_)
        | Lang::F32ConvertI64U(_)
        | Lang::F32DemoteF64(_)
        | Lang::F32ReinterpretI32(_)
        | Lang::F32Load(_)
        | Lang::F32(_) => Some(PrimitiveTypeInfo::F32),
        Lang::F64Add(_)
        | Lang::F64Sub(_)
        | Lang::F64Mul(_)
        | Lang::F64Div(_)
        | Lang::F64Min(_)
        | Lang::F64Max(_)
        | Lang::F64Copysign(_)
        | Lang::F64Abs(_)
        | Lang::F64Neg(_)
        | Lang::F64Sqrt(_)
        | Lang::F64Ceil(_)
        | Lang::F64Floor(_)
        | Lang::F64trunc(_)
        | Lang::F64Nearest(_)
        | Lang::F64ConvertI32S(_)
        | Lang::F64ConvertI32U(_)
        | Lang::F64ConvertI64S(_)
        | Lang::F64ConvertI64U(_)
        | Lang::F64PromoteF32(_)
        | Lang::F64ReinterpretI64(_)
        | Lang::F64Load(_)
        | Lang::F64(_) => Some(PrimitiveTypeInfo::F64),
        Lang::LocalSet(_)
        | Lang::GlobalSet(_)
        | Lang::Drop(_)
        | Lang::I32Store(_)
        | Lang::I64Store(_)
        | Lang::F32Store(_)
        | Lang::F64Store(_)
        | Lang::I32Store8(_)
        | Lang::I32Store16(_)
        | Lang::I64Store8(_)
        | Lang::I64Store16(_)
        | Lang::I64Store32(_)
        | Lang::Undef => Some(PrimitiveTypeInfo::Empty),
        _ => None,
    }
}

/// Exec form of [`fixed_tpe`].
fn fixed_tpe_of(l: &Lang) -> (r: Option<PrimitiveTypeInfo>)
    ensures
        r == fixed_tpe(*l),
{
    match l {
        Lang::I32Add(_)
        | Lang::I32Sub(_)
        | Lang::I32Mul(_)
        | Lang::I32And(_)
        | Lang::I32Or(_)
        | Lang::I32Xor(_)
        | Lang::I32Shl(_)
        | Lang::I32ShrU(_)
        | Lang::I32DivU(_)
        | Lang::I32DivS(_)
        | Lang::I32ShrS(_)
        | Lang::I32RotR(_)
        | Lang::I32RotL(_)
        | Lang::I32RemS(_)
        | Lang::I32RemU(_)
        | Lang::F32Eq(_)
        | Lang::F64Eq(_)
        | Lang::F32Ne(_)
        | Lang::F64Ne(_)
        | Lang::F32Lt(_)
        | Lang::F64Lt(_)
        | Lang::F32Gt(_)
        | Lang::F64Gt(_)
        | Lang::F32Le(_)
        | Lang::F64Le(_)
        | Lang::F32Ge(_)
        | Lang::F64Ge(_)
        | Lang::I32Eqz(_)
        | Lang::I64Eqz(_)
        | Lang::I32Eq(_)
        | Lang::I64Eq(_)
        | Lang::I32Ne(_)
        | Lang::I64Ne(_)
        | Lang::I32LtS(_)
        | Lang::I64LtS(_)
        | Lang::I32LtU(_)
        | Lang::I64LtU(_)
        | Lang::I32GtS(_)
        | Lang::I64GtS(_)
        | Lang::I32GtU(_)
        | Lang::I64GtU(_)
        | Lang::I32LeS(_)
        | Lang::I64LeS(_)
        | Lang::I32LeU(_)
        | Lang::I64LeU(_)
        | Lang::I32GeS(_)
        | Lang::I64GeS(_)
        | Lang::I32GeU(_)
        | Lang::I64GeU(_)
        | Lang::I32Popcnt(_)
        | Lang::I32Clz(_)
        | Lang::I32Ctz(_)
        | Lang::Wrap(_)
        | Lang::I32Extend8S(_)
        | Lang::I32Extend16S(_)
        | Lang::I32TruncF32S(_)
        | Lang::I32TruncF32U(_)
        | Lang::I32TruncF64S(_)
        | Lang::I32TruncF64U(_)
        | Lang::I32ReinterpretF32(_)
        | Lang::I32TruncSatF32S(_)
        | Lang::I32TruncSatF32U(_)
        | Lang::I32TruncSatF64S(_)
        | Lang::I32TruncSatF64U(_)
        | Lang::I32Load(_)
        | Lang::I32Load8S(_)
        | Lang::I32Load8U(_)
        | Lang::I32Load16S(_)
        | Lang::I32Load16U(_)
        | Lang::MemorySize(_)
        | Lang::MemoryGrow(_)
        | Lang::RandI32
        | Lang::UnfoldI32(_)
        | Lang::I32(_)
        | Lang::Arg(_) => Some(PrimitiveTypeInfo::I32),
        Lang::I64Add(_)
        | Lang::I64Sub(_)
        | Lang::I64Mul(_)
        | Lang::I64And(_)
        | Lang::I64Or(_)
        | Lang::I64Xor(_)
        | Lang::I64Shl(_)
        | Lang::I64ShrU(_)
        | Lang::I64DivU(_)
        | Lang::I64DivS(_)
        | Lang::I64ShrS(_)
        | Lang::I64RotR(_)
        | Lang::I64RotL(_)
        | Lang::I64RemS(_)
        | Lang::I64RemU(_)
        | Lang::I64Popcnt(_)
        | Lang::I64Ctz(_)
        | Lang::I64Clz(_)
        | Lang::I64Extend8S(_)
        | Lang::I64Extend16S(_)
        | Lang::I64Extend32S(_)
        | Lang::I64ExtendI32S(_)
        | Lang::I64ExtendI32U(_)
        | Lang::I64TruncF32S(_)
        | Lang::I64TruncF32U(_)
        | Lang::I64TruncF64S(_)
        | Lang::I64TruncF64U(_)
        | Lang::I64ReinterpretF64(_)
        | Lang::I64TruncSatF32S(_)
        | Lang::I64TruncSatF32U(_)
        | Lang::I64TruncSatF64S(_)
        | Lang::I64TruncSatF64U(_)
        | Lang::I64Load(_)
        | Lang::I64Load8S(_)
        | Lang::I64Load8U(_)
        | Lang::I64Load16S(_)
        | Lang::I64Load16U(_)
        | Lang::I64Load32S(_)
        | Lang::I64Load32U(_)
        | Lang::RandI64
        | Lang::UnfoldI64(_)
        | Lang::Const(_)
        | Lang::I64(_) => Some(PrimitiveTypeInfo::I64),
        Lang::F32Add(_)
        | Lang::F32Sub(_)
        | Lang::F32Mul(_)
        | Lang::F32Div(_)
        | Lang::F32Min(_)
        | Lang::F32Max(_)
        | Lang::F32Copysign(_)
        | Lang::F32Abs(_)
        | Lang::F32Neg(_)
        | Lang::F32Sqrt(_)
        | Lang::F32Ceil(_)
        | Lang::F32Floor(_)
        | Lang::F32Trunc(_)
        | Lang::F32Nearest(_)
        | Lang::F32ConvertI32S(_)
        | Lang::F32ConvertI32U(_)
        | Lang::F32ConvertI64S(_)
        | Lang::F32ConvertI64U(_)
        | Lang::F32DemoteF64(_)
        | Lang::F32ReinterpretI32(_)
        | Lang::F32Load(_)
        | Lang::F32(_) => Some(PrimitiveTypeInfo::F32),
        Lang::F64Add(_)
        | Lang::F64Sub(_)
        | Lang::F64Mul(_)
        | Lang::F64Div(_)
        | Lang::F64Min(_)
        | Lang::F64Max(_)
        | Lang::F64Copysign(_)
        | Lang::F64Abs(_)
        | Lang::F64Neg(_)
        | Lang::F64Sqrt(_)
        | Lang::F64Ceil(_)
        | Lang::F64Floor(_)
        | Lang::F64trunc(_)
        | Lang::F64Nearest(_)
        | Lang::F64ConvertI32S(_)
        | Lang::F64ConvertI32U(_)
        | Lang::F64ConvertI64S(_)
        | Lang::F64ConvertI64U(_)
        | Lang::F64PromoteF32(_)
        | Lang::F64ReinterpretI64(_)
        | Lang::F64Load(_)
        | Lang::F64(_) => Some(PrimitiveTypeInfo::F64),
        Lang::LocalSet(_)
        | Lang::GlobalSet(_)
        | Lang::Drop(_)
        | Lang::I32Store(_)
        | Lang::I64Store(_)
        | Lang::F32Store(_)
        | Lang::F64Store(_)
        | Lang::I32Store8(_)
        | Lang::I32Store16(_)
        | Lang::I64Store8(_)
        | Lang::I64Store16(_)
        | Lang::I64Store32(_)
        | Lang::Undef => Some(PrimitiveTypeInfo::Empty),
        _ => None,
    }
}

/// Type information of a module, and the nodes of the expression under
/// analysis in the order they were added.
pub struct PeepholeMutationAnalysis {
    /// Types of the globals
    global_types: Vec<PrimitiveTypeInfo>,
    /// Types of the locals of the function
    locals: Vec<PrimitiveTypeInfo>,
    /// The type section
    types_map: Vec<TypeInfo>,
    /// Function index to type index
    function_map: Vec<u32>,
    /// The nodes seen so far, in the order the e-graph was built
    nodes: Vec<Lang>,
}

/// The data of an e-class: the type of the value its nodes produce.
#[derive(Debug, Clone, Copy)]
pub struct ClassData {
    /// Type 't' of the operator 't'.op
    pub tpe: PrimitiveTypeInfo,
}

impl PartialEq for ClassData {
    fn eq(&self, other: &Self) -> (r: bool) {
        self.tpe == other.tpe
    }

    fn ne(&self, other: &Self) -> (r: bool) {
        !self.eq(other)
    }
}

impl vstd::std_specs::cmp::PartialEqSpecImpl for ClassData {
    open spec fn obeys_eq_spec() -> bool {
        true
    }

    open spec fn eq_spec(&self, other: &Self) -> bool {
        self.tpe == other.tpe
    }
}

/// Calls `egg::merge_if_different`, which compares `to` with `new` by `==`
/// and overwrites `to` with `new` where they differ. It returns whether they
/// differed; afterwards `to` holds `new` (where they were equal, `to` already
/// did, since `ClassData` compares its only field).
#[verifier::external_body]
fn merge_if_different(to: &mut Option<ClassData>, new: Option<ClassData>) -> (changed: bool)
    ensures
        changed == (*old(to) != new),
        *final(to) == new,
{
    egg::merge_if_different(to, new)
}

/// `to`, or `from` where `to` holds nothing.
pub open spec fn spec_or(to: Option<ClassData>, from: Option<ClassData>) -> Option<ClassData> {
    match to {
        Some(d) => Some(d),
        None => from,
    }
}

/// Merging keeps the data a class already has, takes the incoming data only
/// where the class has none, and merging the same data a second time changes
/// nothing.
pub proof fn lemma_merge_keeps_data(to: Option<ClassData>, from: Option<ClassData>)
    ensures
        to is Some ==> spec_or(to, from) == to,
        to is None ==> spec_or(to, from) == from,
        spec_or(spec_or(to, from), from) == spec_or(to, from),
{
}

impl PeepholeMutationAnalysis {
    pub closed spec fn spec_global_types(&self) -> Seq<PrimitiveTypeInfo> {
        self.global_types@
    }

    pub closed spec fn spec_locals(&self) -> Seq<PrimitiveTypeInfo> {
        self.locals@
    }

    pub closed spec fn spec_types_map(&self) -> Seq<TypeInfo> {
        self.types_map@
    }

    pub closed spec fn spec_function_map(&self) -> Seq<u32> {
        self.function_map@
    }

    pub closed spec fn spec_nodes(&self) -> Seq<Lang> {
        self.nodes@
    }

    /// `types[functions[idx]]`, where both lookups are in bounds.
    pub open spec fn spec_functype(&self, idx: int) -> Option<TypeInfo> {
        if 0 <= idx < self.spec_function_map().len() && self.spec_function_map()[idx]
            < self.spec_types_map().len() {
            Some(self.spec_types_map()[self.spec_function_map()[idx] as int])
        } else {
            None
        }
    }

    /// The type of the local or global that the node at `id` names:
    /// `None` where the lookup fails.
    pub open spec fn spec_indexed_type(
        table: Seq<PrimitiveTypeInfo>,
        expr: Seq<Lang>,
        id: Id,
    ) -> Option<Result<PrimitiveTypeInfo, Error>> {
        if id < expr.len() {
            match expr[id as int] {
                Lang::Arg(v) => if (v as usize) < table.len() {
                    Some(Ok(table[(v as usize) as int]))
                } else {
                    None
                },
                _ => None,
            }
        } else {
            None
        }
    }

    /// The index of the function that the first operand of a call names.
    pub open spec fn spec_call_target(expr: Seq<Lang>, ops: Seq<Id>) -> Option<u32> {
        if ops.len() > 0 && ops[0] < expr.len() {
            match expr[ops[0] as int] {
                Lang::Arg(val) => Some(val as u32),
                Lang::Const(val) => Some(val as u32),
                _ => None,
            }
        } else {
            None
        }
    }

    /// The type that a call produces: nothing, its single result, or an
    /// error where the callee returns several values.
    pub open spec fn spec_call_type(&self, expr: Seq<Lang>, ops: Seq<Id>) -> Option<
        Result<PrimitiveTypeInfo, Error>,
    > {
        match Self::spec_call_target(expr, ops) {
            Some(f) => match self.spec_functype(f as usize as int) {
                Some(TypeInfo::Func(ty)) => if ty.returns@.len() == 0 {
                    Some(Ok(PrimitiveTypeInfo::Empty))
                } else if ty.returns@.len() > 1 {
                    Some(Err(Error::NoMutationsApplicable))
                } else {
                    Some(Ok(ty.returns@[0]))
                },
                None => None,
            },
            None => None,
        }
    }

    /// The type that node `l` produces within `expr`: `Some(Ok(t))`, `Some(Err(e))`
    /// where the analysis reports an error, and `None` on the inputs that it
    /// does not accept (a malformed operand, an index out of range, or `select`).
    pub open spec fn spec_returning_tpe(&self, l: Lang, expr: Seq<Lang>) -> Option<
        Result<PrimitiveTypeInfo, Error>,
    > {
        match l {
            Lang::LocalTee(ops) => Self::spec_indexed_type(self.spec_locals(), expr, ops[0]),
            Lang::LocalGet(ops) => Self::spec_indexed_type(self.spec_locals(), expr, ops[0]),
            Lang::GlobalGet(ops) => Self::spec_indexed_type(self.spec_global_types(), expr, ops[0]),
            Lang::Call(ops) => self.spec_call_type(expr, ops@),
            Lang::Select(_) => None,
            _ => Some(Ok(fixed_tpe(l).unwrap())),
        }
    }

    /// Returns a new analysis for a module with the given globals, locals,
    /// type section and function-to-type map, with no nodes yet.
    pub fn new(
        global_types: Vec<PrimitiveTypeInfo>,
        locals: Vec<PrimitiveTypeInfo>,
        types_map: Vec<TypeInfo>,
        function_map: Vec<u32>,
    ) -> (r: Self)
        ensures
            r.spec_global_types() == global_types@,
            r.spec_locals() == locals@,
            r.spec_types_map() == types_map@,
            r.spec_function_map() == function_map@,
            r.spec_nodes() == Seq::<Lang>::empty(),
    {
        PeepholeMutationAnalysis { global_types, locals, types_map, function_map, nodes: Vec::new() }
    }

    /// The nodes added so far.
    pub fn nodes(&self) -> (r: &Vec<Lang>)
        ensures
            r@ == self.spec_nodes(),
    {
        &self.nodes
    }

    fn indexed_type(table: &Vec<PrimitiveTypeInfo>, expr: &[Lang], id: Id) -> (r: Option<
        Result<PrimitiveTypeInfo, Error>,
    >)
        ensures
            r == Self::spec_indexed_type(table@, expr@, id),
    {
        if (id as usize) < expr.len() {
            match &expr[id as usize] {
                Lang::Arg(v) => {
                    let k = *v as usize;
                    if k < table.len() {
                        Some(Ok(table[k]))
                    } else {
                        None
                    }
                },
                _ => None,
            }
        } else {
            None
        }
    }

    pub(crate) fn call_target(expr: &[Lang], ops: &Vec<Id>) -> (r: Option<u32>)
        ensures
            r == Self::spec_call_target(expr@, ops@),
    {
        if ops.len() > 0 && (ops[0] as usize) < expr.len() {
            match &expr[ops[0] as usize] {
                Lang::Arg(val) => Some(*val as u32),
                Lang::Const(val) => Some(*val as u32),
                _ => None,
            }
        } else {
            None
        }
    }

    /// The type of `l` within `expr`, as [`Self::spec_returning_tpe`] states it;
    /// `None` on the inputs that the analysis does not accept.
    pub fn returning_tpe_checked(&self, l: &Lang, expr: &[Lang]) -> (r: Option<
        Result<PrimitiveTypeInfo, Error>,
    >)
        ensures
            r == self.spec_returning_tpe(*l, expr@),
    {
        match l {
            Lang::LocalTee(ops) => Self::indexed_type(&self.locals, expr, ops[0]),
            Lang::LocalGet(ops) => Self::indexed_type(&self.locals, expr, ops[0]),
            Lang::GlobalGet(ops) => Self::indexed_type(&self.global_types, expr, ops[0]),
            Lang::Call(ops) => {
                match Self::call_target(expr, ops) {
                    Some(f) => {
                        let idx = f as usize;
                        if idx < self.function_map.len() && (self.function_map[idx] as usize)
                            < self.types_map.len() {
                            match self.get_functype_idx(idx) {
                                TypeInfo::Func(ty) => {
                                    if ty.returns.len() == 0 {
                                        Some(Ok(PrimitiveTypeInfo::Empty))
                                    } else if ty.returns.len() > 1 {
                                        Some(Err(Error::NoMutationsApplicable))
                                    } else {
                                        Some(Ok(ty.returns[0]))
                                    }
                                },
                            }
                        } else {
                            None
                        }
                    },
                    None => None,
                }
            },
            Lang::Select(_) => None,
            _ => match fixed_tpe_of(l) {
                Some(t) => Some(Ok(t)),
                None => None,
            },
        }
    }

    /// Whether the module tables of `self` and `other` are the same.
    pub open spec fn same_tables(&self, other: &Self) -> bool {
        &&& self.spec_global_types() == other.spec_global_types()
        &&& self.spec_locals() == other.spec_locals()
        &&& self.spec_types_map() == other.spec_types_map()
        &&& self.spec_function_map() == other.spec_function_map()
    }

    /// The data that [`Self::make`] computes for node `l`: its type among the
    /// nodes seen so far followed by `l`; `None` where that type is not defined
    /// or is an error.
    pub open spec fn spec_make(&self, l: Lang) -> Option<ClassData> {
        match self.spec_returning_tpe(l, self.spec_nodes().push(l)) {
            Some(Ok(t)) => Some(ClassData { tpe: t }),
            _ => None,
        }
    }

    /// Records node `l` after the nodes seen so far and returns the class data
    /// of `l`, or `None` where its type cannot be computed.
    pub fn try_make(&mut self, l: Lang) -> (r: Option<ClassData>)
        ensures
            made(*old(self), l, *final(self)),
            r == old(self).spec_make(l),
    {
        self.nodes.push(l);
        let last = self.nodes.len() - 1;
        let r = self.returning_tpe_checked(&self.nodes[last], self.nodes.as_slice());
        match r {
            Some(Ok(t)) => Some(ClassData { tpe: t }),
            _ => None,
        }
    }

    /// Records node `l` after the nodes seen so far (the e-graph adds nodes in
    /// this order) and returns its class data, holding the type of `l`.
    pub fn make(&mut self, l: Lang) -> (r: Option<ClassData>)
        requires
            old(self).spec_make(l) is Some,
        ensures
            made(*old(self), l, *final(self)),
            r == old(self).spec_make(l),
    {
        self.try_make(l)
    }

    /// Merges the data of two classes: the data of `to` stays where there is
    /// any, else it becomes `from`. Returns whether `to` changed.
    pub fn merge(&self, to: &mut Option<ClassData>, from: Option<ClassData>) -> (changed: bool)
        ensures
            *final(to) == spec_or(*old(to), from),
            changed == (*final(to) != *old(to)),
    {
        let kept = match to {
            Some(d) => Some(*d),
            None => from,
        };
        merge_if_different(to, kept)
    }

    /// Gets the type of the value that node `l` produces within `expr`.
    pub fn get_returning_tpe(&self, l: &Lang, expr: &[Lang]) -> (r: Result<
        PrimitiveTypeInfo,
        Error,
    >)
        requires
            self.spec_returning_tpe(*l, expr@) is Some,
        ensures
            self.spec_returning_tpe(*l, expr@) == Some(r),
    {
        match self.returning_tpe_checked(l, expr) {
            Some(r) => r,
            None => {
                // The precondition rules this case out.
                proof {
                    assert(false);
                }
                Err(Error::NoMutationsApplicable)
            },
        }
    }

    /// `types[functions[idx]]`, or `None` where a lookup is out of bounds.
    pub fn functype_checked(&self, idx: usize) -> (r: Option<&TypeInfo>)
        ensures
            r matches Some(t) ==> self.spec_functype(idx as int) == Some(*t),
            r is None ==> self.spec_functype(idx as int) is None,
    {
        if idx < self.function_map.len() && (self.function_map[idx] as usize) < self.types_map.len() {
            Some(self.get_functype_idx(idx))
        } else {
            None
        }
    }

    /// Returns the function type based on the index of the function type
    /// `types[functions[idx]]`
    pub fn get_functype_idx(&self, idx: usize) -> (t: &TypeInfo)
        requires
            idx < self.spec_function_map().len(),
            self.spec_function_map()[idx as int] < self.spec_types_map().len(),
        ensures
            self.spec_functype(idx as int) == Some(*t),
    {
        let functpeindex = self.function_map[idx] as usize;
        &self.types_map[functpeindex]
    }
}


/// One call of [`PeepholeMutationAnalysis::make`] (or `try_make`) with node
/// `l` took the analysis from `before` to `after`, as its contract states.
pub open spec fn made(before: PeepholeMutationAnalysis, l: Lang, after: PeepholeMutationAnalysis) -> bool {
    after.spec_nodes() == before.spec_nodes().push(l) && after.same_tables(&before)
}

proof fn lemma_made_prefix(states: Seq<PeepholeMutationAnalysis>, ls: Seq<Lang>, n: int)
    requires
        states.len() == ls.len() + 1,
        states[0].spec_nodes() == Seq::<Lang>::empty(),
        forall|k: int| 0 < k <= ls.len() ==> made(states[k - 1], ls[k - 1], #[trigger] states[k]),
        0 <= n <= ls.len(),
    ensures
        states[n].spec_nodes() == ls.take(n),
    decreases n,
{
    if n == 0 {
        assert(ls.take(0) =~= Seq::<Lang>::empty());
    } else {
        lemma_made_prefix(states, ls, n - 1);
        assert(made(states[n - 1], ls[n - 1], states[n]));
        assert(ls.take(n - 1).push(ls[n - 1]) =~= ls.take(n));
    }
}

/// The nodes are recorded in the order in which the e-graph makes them: from
/// an analysis with no nodes (as [`PeepholeMutationAnalysis::new`] returns
/// it), calls of `make` with `ls[0]`, ..., `ls[n - 1]` in turn leave exactly
/// the nodes `ls`, one entry per call, in call order.
pub proof fn lemma_make_records_in_order(states: Seq<PeepholeMutationAnalysis>, ls: Seq<Lang>)
    requires
        states.len() == ls.len() + 1,
        states[0].spec_nodes() == Seq::<Lang>::empty(),
        forall|k: int| 0 < k <= ls.len() ==> made(states[k - 1], ls[k - 1], #[trigger] states[k]),
    ensures
        states.last().spec_nodes() == ls,
        forall|k: int| 0 <= k < states.len() ==> #[trigger] states[k].spec_nodes() == ls.take(k),
{
    assert forall|k: int| 0 <= k < states.len() implies #[trigger] states[k].spec_nodes() == ls.take(
        k,
    ) by {
        lemma_made_prefix(states, ls, k);
    }
    lemma_made_prefix(states, ls, ls.len() as int);
    assert(ls.take(ls.len() as int) =~= ls);
}

} // verus!
