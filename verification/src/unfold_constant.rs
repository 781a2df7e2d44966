//! The mutation that unfolds a constant `c` into `r + (c - r)` for a random `r`.

use vstd::prelude::*;

use rand::rngs::SmallRng;

use crate::encoder::{
    lemma_unfolded_i32_sums_to_value, lemma_unfolded_i64_sums_to_value, step_realized, unfold_i32,
    unfold_i64, Instr, Step,
};
use crate::error::{EitherType, Error};
use crate::locals::{read_locals, spec_read_locals, LocalsOutcome};
use crate::types::ValType;

verus! {

/// An operator of a function body, as far as this mutation reads it; `Other`
/// holds the description of any other operator.
#[derive(Debug, Clone, PartialEq, Eq)]
pub enum Operator {
    I32Const { value: i32 },
    I64Const { value: i64 },
    Other(String),
}

/// An operator of a function body and the offset where it starts.
pub type TupleType = (Operator, usize);

/// A range of bytes: `start..end`.
#[derive(Debug, Clone, Copy, PartialEq, Eq, Structural)]
pub struct Range {
    pub start: usize,
    pub end: usize,
}

/// The new body of a mutated function: the groups of locals `locals`, the
/// bytes `prefix`, then the instructions `instrs`, then the bytes `suffix`.
#[derive(Debug, Clone)]
pub struct MutatedBody {
    pub locals: Vec<(u32, ValType)>,
    pub prefix: Vec<u8>,
    pub instrs: Vec<Instr>,
    pub suffix: Vec<u8>,
}

/// The mutator.
#[derive(Debug, Clone, Copy)]
pub struct UnfoldConstant;

/// Whether `op` is an `i32.const` or an `i64.const`.
pub open spec fn spec_is_constant(op: Operator) -> bool {
    op is I32Const || op is I64Const
}

/// The step that unfolds the constant `op`; `None` for other operators.
pub open spec fn unfold_step(op: Operator) -> Option<Step> {
    match op {
        Operator::I32Const { value } => Some(Step::UnfoldI32(value)),
        Operator::I64Const { value } => Some(Step::UnfoldI64(value)),
        Operator::Other(_) => None,
    }
}

/// The offset where the body is cut again after the operator at `k`: the
/// offset of the next operator, or that of the last one where there is none
/// (0 for an empty body).
pub open spec fn resume_offset(operators: Seq<TupleType>, k: int) -> int {
    if k + 1 < operators.len() {
        operators[k + 1].1 as int
    } else if operators.len() > 0 {
        operators.last().1 as int
    } else {
        0
    }
}

/// An operator can be mutated exactly when unfolding it succeeds: the
/// operators that `can_mutate` accepts are those that have an unfolding step,
/// and every other operator is refused by `unfold`.
pub proof fn lemma_can_mutate_iff_unfolds(op: Operator)
    ensures
        spec_is_constant(op) <==> unfold_step(op) is Some,
        spec_is_constant(op) <==> !(op is Other),
{
}

/// Whether unfolding at `k` draws random numbers: there is an operator at
/// `k` and it is a constant.
pub open spec fn unfolds_at(operators: Seq<TupleType>, k: int) -> bool {
    k < operators.len() && spec_is_constant(operators[k].0)
}

/// The cuts that unfolding at `k` makes lie within the stream: the start of
/// the body up to the constant, and the resumption up to the end of the body.
pub open spec fn splice_bounds_ok(operators: Seq<TupleType>, k: int, range: Range, stream_len: int) -> bool {
    &&& 0 <= k < usize::MAX
    &&& k < operators.len() ==> range.start <= operators[k].1 <= stream_len
    &&& (k >= operators.len() || spec_is_constant(operators[k].0)) ==> resume_offset(operators, k)
        <= range.end <= stream_len
}

/// The code part of unfolding at `k`: for a constant, the bytes up to it,
/// its unfolding and the bytes from the next operator to the end of the body;
/// for another operator, its error; past the operators, the bytes from the
/// last operator to the end of the body.
pub open spec fn spliced(
    operators: Seq<TupleType>,
    k: int,
    range: Range,
    stream: Seq<u8>,
    r: Result<MutatedBody, Error>,
) -> bool {
    &&& k < operators.len() ==> {
        let (op, offset) = operators[k];
        &&& spec_is_constant(op) ==> (r matches Ok(body) && {
            &&& body.prefix@ == stream.subrange(range.start as int, offset as int)
            &&& unfold_step(op) matches Some(s) && step_realized(s, body.instrs@)
            &&& body.suffix@ == stream.subrange(resume_offset(operators, k), range.end as int)
        })
        &&& op matches Operator::Other(d) ==> r == Err::<MutatedBody, Error>(
            Error::UnsupportedType(EitherType::Operator(d)),
        )
    }
    &&& k >= operators.len() ==> (r matches Ok(body) && {
        &&& body.prefix@.len() == 0
        &&& body.instrs@.len() == 0
        &&& body.suffix@ == stream.subrange(resume_offset(operators, k), range.end as int)
    })
}

/// The result of the mutation, given how reading the locals went: their
/// error, or the locals read together with the code part.
pub open spec fn mutated(
    locals: LocalsOutcome,
    operators: Seq<TupleType>,
    k: int,
    range: Range,
    stream: Seq<u8>,
    r: Result<MutatedBody, Error>,
) -> bool {
    match locals {
        LocalsOutcome::Locals(ls) => spliced(operators, k, range, stream, r) && (r matches Ok(
            b,
        ) ==> b.locals@ == ls),
        LocalsOutcome::ParseError => r matches Err(Error::Parse { .. }),
        LocalsOutcome::Unsupported(c) => r == Err::<MutatedBody, Error>(
            Error::UnsupportedType(EitherType::ValueType(c)),
        ),
    }
}

/// Copies `stream[start..end]`.
fn copy_range(stream: &[u8], start: usize, end: usize) -> (r: Vec<u8>)
    requires
        start <= end <= stream@.len(),
    ensures
        r@ == stream@.subrange(start as int, end as int),
{
    let mut r: Vec<u8> = Vec::new();
    let mut i: usize = start;
    while i < end
        invariant
            start <= i <= end <= stream@.len(),
            r@ == stream@.subrange(start as int, i as int),
        decreases end - i,
    {
        r.push(stream[i]);
        i = i + 1;
        assert(r@ =~= stream@.subrange(start as int, i as int));
    }
    r
}

impl UnfoldConstant {
    /// Whether `op` is a constant that this mutation can unfold.
    pub fn is_constant(&self, op: &Operator) -> (r: bool)
        ensures
            r == spec_is_constant(*op),
    {
        match op {
            Operator::I32Const { .. } | Operator::I64Const { .. } => true,
            _ => false,
        }
    }

    /// Appends to `function` the unfolding of the constant `operator`:
    /// `r`, `value - r` (wrapping) and an add of the constant's width, for a
    /// random `r`. Any other operator is refused, and nothing is appended.
    pub fn unfold(&self, function: &mut Vec<Instr>, operator: Operator, rnd: &mut SmallRng) -> (r:
        Result<(), Error>)
        ensures
            spec_is_constant(operator) ==> {
                &&& r is Ok
                &&& final(function)@.len() == old(function)@.len() + 3
                &&& final(function)@.subrange(0, old(function)@.len() as int) == old(function)@
                &&& unfold_step(operator) matches Some(s) && step_realized(
                    s,
                    final(function)@.subrange(
                        old(function)@.len() as int,
                        final(function)@.len() as int,
                    ),
                )
            },
            operator matches Operator::Other(d) ==> {
                &&& r == Err::<(), Error>(Error::UnsupportedType(EitherType::Operator(d)))
                &&& final(function)@ == old(function)@
                &&& *final(rnd) == *old(rnd)
            },
    {
        match operator {
            Operator::I32Const { value } => {
                unfold_i32(value, rnd, function);
                Ok(())
            },
            Operator::I64Const { value } => {
                unfold_i64(value, rnd, function);
                Ok(())
            },
            Operator::Other(d) => Err(Error::UnsupportedType(EitherType::Operator(d))),
        }
    }

    /// Unfolds the constant at `operator_index` once: the bytes of the body up
    /// to that constant, the unfolding, and the bytes from the next operator
    /// to the end of the body. No locals are set.
    fn splice(
        &self,
        rnd: &mut SmallRng,
        operator_index: usize,
        operators: Vec<TupleType>,
        body_range: Range,
        function_stream: &[u8],
    ) -> (r: Result<MutatedBody, Error>)
        requires
            splice_bounds_ok(operators@, operator_index as int, body_range, function_stream@.len() as int),
        ensures
            spliced(operators@, operator_index as int, body_range, function_stream@, r),
            r matches Ok(b) ==> b.locals@.len() == 0,
            !unfolds_at(operators@, operator_index as int) ==> *final(rnd) == *old(rnd),
    {
        let n = operators.len();
        let mut prefix: Vec<u8> = Vec::new();
        let mut instrs: Vec<Instr> = Vec::new();
        let mut newoffset: usize = 0;
        let mut operators = operators;
        let ghost ops = operators@;
        // Lets unfold only once, if its needed the orchestrator would know if
        // this should be applied many times
        if operator_index < n {
            let offset = operators[operator_index].1;
            prefix = copy_range(function_stream, body_range.start, offset);
            // The operator is taken out of the list; the offsets stay.
            let (operator, _) = operators.remove(operator_index);
            self.unfold(&mut instrs, operator, rnd)?;
            assert(instrs@.subrange(0, 3) =~= instrs@);
            newoffset = if operator_index + 1 < n {
                operators[operator_index].1
            } else {
                offset
            };
        } else if n > 0 {
            newoffset = operators[n - 1].1;
        }
        // Copy last part of the function body
        let suffix = copy_range(function_stream, newoffset, body_range.end);
        Ok(MutatedBody { locals: Vec::new(), prefix, instrs, suffix })
    }

    /// Unfolds the constant at `operator_index` of the function body `body`
    /// (at offset `body_offset` of the binary) once: the new body has the
    /// locals of `body`, then the bytes of `function_stream` up to that
    /// constant, the unfolding, and the bytes from the next operator to the
    /// end of `body_range`. `None` on the inputs that the mutation does not
    /// accept: where the number of groups of locals cannot be read, or where
    /// the cuts fall outside the stream.
    pub fn try_mutate(
        &self,
        rnd: &mut SmallRng,
        operator_index: usize,
        operators: Vec<TupleType>,
        body: &[u8],
        body_offset: usize,
        body_range: Range,
        function_stream: &[u8],
    ) -> (r: Option<Result<MutatedBody, Error>>)
        requires
            body_offset + body@.len() <= usize::MAX,
        ensures
            r is None <==> match spec_read_locals(body@) {
                None => true,
                Some(LocalsOutcome::Locals(_)) => !splice_bounds_ok(
                    operators@,
                    operator_index as int,
                    body_range,
                    function_stream@.len() as int,
                ),
                Some(_) => false,
            },
            r matches Some(res) ==> spec_read_locals(body@) matches Some(o)
                && mutated(o, operators@, operator_index as int, body_range, function_stream@, res),
            !(spec_read_locals(body@) matches Some(LocalsOutcome::Locals(_))
                && unfolds_at(operators@, operator_index as int)) ==> *final(rnd) == *old(rnd),
    {
        let locals = match read_locals(body, body_offset) {
            None => {
                return None;
            },
            Some(Err(e)) => {
                return Some(Err(e));
            },
            Some(Ok(locals)) => locals,
        };
        let n = operators.len();
        if operator_index == usize::MAX {
            return None;
        }
        if operator_index < n {
            let offset = operators[operator_index].1;
            if !(body_range.start <= offset && offset <= function_stream.len()) {
                return None;
            }
        }
        if operator_index >= n || self.is_constant(&operators[operator_index].0) {
            let resume = if operator_index + 1 < n {
                operators[operator_index + 1].1
            } else if n > 0 {
                operators[n - 1].1
            } else {
                0
            };
            if !(resume <= body_range.end && body_range.end <= function_stream.len()) {
                return None;
            }
        }
        match self.splice(rnd, operator_index, operators, body_range, function_stream) {
            Ok(b) => Some(Ok(MutatedBody { locals, prefix: b.prefix, instrs: b.instrs, suffix: b.suffix })),
            Err(e) => Some(Err(e)),
        }
    }

    /// Unfolds the constant at `operator_index` of the function body `body`
    /// (at offset `body_offset` of the binary) once: the new body has the
    /// locals of `body`, then the bytes of `function_stream` up to that
    /// constant, the unfolding, and the bytes from the next operator to the
    /// end of `body_range`.
    pub fn mutate(
        &self,
        rnd: &mut SmallRng,
        operator_index: usize,
        operators: Vec<TupleType>,
        body: &[u8],
        body_offset: usize,
        body_range: Range,
        function_stream: &[u8],
    ) -> (r: Result<MutatedBody, Error>)
        requires
            body_offset + body@.len() <= usize::MAX,
            spec_read_locals(body@) is Some,
            spec_read_locals(body@) matches Some(LocalsOutcome::Locals(_))
                ==> splice_bounds_ok(
                operators@,
                operator_index as int,
                body_range,
                function_stream@.len() as int,
            ),
        ensures
            spec_read_locals(body@) matches Some(o) && mutated(
                o,
                operators@,
                operator_index as int,
                body_range,
                function_stream@,
                r,
            ),
            !(spec_read_locals(body@) matches Some(LocalsOutcome::Locals(_))
                && unfolds_at(operators@, operator_index as int)) ==> *final(rnd) == *old(rnd),
    {
        match self.try_mutate(
            rnd,
            operator_index,
            operators,
            body,
            body_offset,
            body_range,
            function_stream,
        ) {
            Some(r) => r,
            None => {
                // The precondition rules this case out.
                proof {
                    assert(false);
                }
                Err(Error::NoMutationsApplicable)
            },
        }
    }

    /// Whether the operator at `at` can be unfolded.
    pub fn can_mutate(&self, operators: &Vec<TupleType>, at: usize) -> (r: Result<bool, Error>)
        requires
            at < operators@.len(),
        ensures
            r == Ok::<bool, Error>(spec_is_constant(operators@[at as int].0)),
    {
        let (operator, _) = &operators[at];
        Ok(self.is_constant(operator))
    }
}


/// Unfolding a constant keeps the value and the surrounding bytes: the new
/// instructions are two constants of the operator's width whose wrapping sum
/// is the constant, then an add; the bytes before the constant are kept up to
/// its offset, and those after it from the offset of the next operator (of
/// the constant itself where it is the last) to the end of the body.
pub proof fn lemma_unfolding_keeps_value_and_bytes(
    operators: Seq<TupleType>,
    k: int,
    range: Range,
    stream: Seq<u8>,
    r: Result<MutatedBody, Error>,
)
    requires
        spliced(operators, k, range, stream, r),
        0 <= k < operators.len(),
        spec_is_constant(operators[k].0),
    ensures
        r matches Ok(b) && {
            &&& b.prefix@ == stream.subrange(range.start as int, operators[k].1 as int)
            &&& b.suffix@ == stream.subrange(
                if k + 1 < operators.len() {
                    operators[k + 1].1 as int
                } else {
                    operators[k].1 as int
                },
                range.end as int,
            )
            &&& b.instrs@.len() == 3
            &&& operators[k].0 matches Operator::I32Const { value } ==> b.instrs@[0] matches Instr::I32Const(x)
                && b.instrs@[1] matches Instr::I32Const(y) && x.wrapping_add(y) == value
                && b.instrs@[2] == Instr::I32Add
            &&& operators[k].0 matches Operator::I64Const { value } ==> b.instrs@[0] matches Instr::I64Const(x)
                && b.instrs@[1] matches Instr::I64Const(y) && x.wrapping_add(y) == value
                && b.instrs@[2] == Instr::I64Add
        },
{
    if let Ok(b) = r {
        match operators[k].0 {
            Operator::I32Const { value } => {
                lemma_unfolded_i32_sums_to_value(value, b.instrs@);
            },
            Operator::I64Const { value } => {
                lemma_unfolded_i64_sums_to_value(value, b.instrs@);
            },
            _ => {},
        }
    }
}

} // verus!
