use rand::rngs::SmallRng;
use rand::{Rng, SeedableRng};
use wasm_mutate::analysis::PeepholeMutationAnalysis;
use wasm_mutate::encoder::{expr2wasm, push_unfolding_i32, push_unfolding_i64, Instr, MemArg, PlanEnd, Step};
use wasm_mutate::error::{EitherType, Error};
use wasm_mutate::lang::{is_well_formed, Lang};
use wasm_mutate::types::{FuncInfo, PrimitiveTypeInfo, TypeInfo};

fn analysis() -> PeepholeMutationAnalysis {
    PeepholeMutationAnalysis::new(
        vec![PrimitiveTypeInfo::I64],
        vec![PrimitiveTypeInfo::I32, PrimitiveTypeInfo::I64],
        vec![TypeInfo::Func(FuncInfo {
            params: vec![PrimitiveTypeInfo::I32, PrimitiveTypeInfo::I64],
            returns: vec![PrimitiveTypeInfo::I32],
        })],
        vec![0],
    )
}

fn encode(nodes: &[Lang]) -> (Result<(), Error>, Vec<Instr>) {
    let a = analysis();
    let mut rnd = SmallRng::seed_from_u64(7);
    let mut out = Vec::new();
    assert!(is_well_formed(nodes));
    assert_ne!(a.plan_encoding(nodes).end, PlanEnd::Stuck);
    let r = expr2wasm(&a, &mut rnd, nodes, &mut out);
    (r, out)
}

#[test]
fn well_formedness() {
    assert!(is_well_formed(&[Lang::Const(1), Lang::Const(2), Lang::I32Add([0, 1])]));
    assert!(!is_well_formed(&[Lang::I32Add([0, 1]), Lang::Const(2)]));
    assert!(!is_well_formed(&[Lang::Const(1), Lang::Call(vec![0, 1])]));
    assert!(is_well_formed(&[]));
}

#[test]
fn binary_operation_in_postorder() {
    let nodes = vec![Lang::Const(1), Lang::Const(2), Lang::I32Add([0, 1])];
    let (r, out) = encode(&nodes);
    assert_eq!(r, Ok(()));
    assert_eq!(out, vec![Instr::I32Const(1), Instr::I32Const(2), Instr::I32Add]);
}

#[test]
fn constants_take_the_expected_type() {
    let nodes = vec![
        Lang::Const(-1),
        Lang::Const(5),
        Lang::I64Shl([0, 1]),
        Lang::Wrap([2]),
    ];
    let (r, out) = encode(&nodes);
    assert_eq!(r, Ok(()));
    assert_eq!(
        out,
        vec![Instr::I64Const(-1), Instr::I64Const(5), Instr::I64Shl, Instr::I32WrapI64]
    );
    let nodes = vec![Lang::Const(0x3f80_0000), Lang::F32Neg([0])];
    let (r, out) = encode(&nodes);
    assert_eq!(r, Ok(()));
    assert_eq!(out, vec![Instr::F32Const(0x3f80_0000), Instr::F32Neg]);
}

#[test]
fn encodes_local_and_global_access() {
    let nodes = vec![
        Lang::Arg(1),
        Lang::LocalGet([0]),
        Lang::Arg(0),
        Lang::GlobalSet([2, 1]),
    ];
    let (r, out) = encode(&nodes);
    assert_eq!(r, Ok(()));
    assert_eq!(out, vec![Instr::LocalGet(1), Instr::GlobalSet(0)]);
}

#[test]
fn calls_take_parameter_types() {
    let nodes = vec![
        Lang::Arg(0),
        Lang::Const(7),
        Lang::Const(8),
        Lang::Call(vec![0, 1, 2]),
    ];
    let (r, out) = encode(&nodes);
    assert_eq!(r, Ok(()));
    assert_eq!(out, vec![Instr::I32Const(7), Instr::I64Const(8), Instr::Call(0)]);
}

#[test]
fn loads_and_stores() {
    let nodes = vec![
        Lang::Const(16),
        Lang::Arg(4),
        Lang::Arg(2),
        Lang::Arg(0),
        Lang::I32Load([0, 1, 2, 3]),
        Lang::Drop([4]),
    ];
    let (r, out) = encode(&nodes);
    assert_eq!(r, Ok(()));
    let m = MemArg { offset: 4, align: 2, memory_index: 0 };
    assert_eq!(out, vec![Instr::I32Const(16), Instr::I32Load(m), Instr::Drop]);
    let nodes = vec![
        Lang::Const(9),
        Lang::Const(16),
        Lang::Arg(8),
        Lang::Const(3),
        Lang::Arg(0),
        Lang::I64Store([0, 1, 2, 3, 4]),
    ];
    let (r, out) = encode(&nodes);
    assert_eq!(r, Ok(()));
    let m = MemArg { offset: 8, align: 3, memory_index: 0 };
    // The address operand is visited first.
    assert_eq!(out, vec![Instr::I32Const(16), Instr::I64Const(9), Instr::I64Store(m)]);
}

#[test]
fn unfolding_keeps_the_value() {
    let nodes = vec![Lang::I32(42), Lang::UnfoldI32(0)];
    let (r, out) = encode(&nodes);
    assert_eq!(r, Ok(()));
    assert_eq!(out.len(), 3);
    match (out[0], out[1], out[2]) {
        (Instr::I32Const(a), Instr::I32Const(b), Instr::I32Add) => {
            assert_eq!(a.wrapping_add(b), 42)
        }
        _ => panic!("not an unfolding"),
    }
    let nodes = vec![Lang::I64(-3), Lang::UnfoldI64(0)];
    let (r, out) = encode(&nodes);
    assert_eq!(r, Ok(()));
    match (out[0], out[1], out[2]) {
        (Instr::I64Const(a), Instr::I64Const(b), Instr::I64Add) => {
            assert_eq!(a.wrapping_add(b), -3)
        }
        _ => panic!("not an unfolding"),
    }
}

#[test]
fn random_constants_follow_the_generator() {
    let a = analysis();
    let nodes = vec![Lang::RandI32, Lang::RandI32, Lang::I32Xor([0, 1])];
    let mut out1 = Vec::new();
    let mut out2 = Vec::new();
    let mut rnd1 = SmallRng::seed_from_u64(1);
    let mut rnd2 = SmallRng::seed_from_u64(1);
    assert_eq!(expr2wasm(&a, &mut rnd1, &nodes, &mut out1), Ok(()));
    assert_eq!(expr2wasm(&a, &mut rnd2, &nodes, &mut out2), Ok(()));
    assert_eq!(out1, out2);
    assert!(matches!(out1[0], Instr::I32Const(_)));
    assert!(matches!(out1[1], Instr::I32Const(_)));
    assert_eq!(out1[2], Instr::I32Xor);
}

#[test]
fn unfolding_a_non_constant_fails() {
    let nodes = vec![Lang::Const(1), Lang::UnfoldI32(0)];
    let a = analysis();
    let plan = a.plan_encoding(&nodes);
    assert!(plan.steps.is_empty());
    match plan.end {
        PlanEnd::Failed(Error::UnsupportedType(EitherType::EggError(m))) => {
            assert!(m.contains("cannot be unfolded"));
            assert!(m.contains("Const(1)"));
        }
        _ => panic!("expected an unfolding error"),
    }
    let (r, out) = encode(&nodes);
    assert!(matches!(r, Err(Error::UnsupportedType(EitherType::EggError(_)))));
    assert!(out.is_empty());
}

#[test]
fn steps_before_a_failure_are_emitted() {
    // The second operand fails; the first was already encoded.
    let nodes = vec![Lang::Const(1), Lang::I64(2), Lang::UnfoldI32(1), Lang::I32Sub([0, 2])];
    let a = analysis();
    let plan = a.plan_encoding(&nodes);
    assert_eq!(plan.steps, vec![Step::Emit(Instr::I32Const(1))]);
    let (r, out) = encode(&nodes);
    assert!(r.is_err());
    assert_eq!(out, vec![Instr::I32Const(1)]);
}

#[test]
fn unencodable_expressions_are_stuck() {
    let a = analysis();
    assert_eq!(a.plan_encoding(&[]).end, PlanEnd::Stuck);
    // select has no type
    let nodes = vec![Lang::Const(1), Lang::Const(2), Lang::Const(3), Lang::Select([0, 1, 2])];
    assert_eq!(a.plan_encoding(&nodes).end, PlanEnd::Stuck);
    // the local index must be an Arg
    let nodes = vec![Lang::Const(0), Lang::LocalGet([0])];
    assert_eq!(a.plan_encoding(&nodes).end, PlanEnd::Stuck);
    // an Arg operand takes two expected types off the stack
    let nodes = vec![Lang::Arg(3), Lang::Arg(4), Lang::I32Add([0, 1])];
    assert_eq!(a.plan_encoding(&nodes).end, PlanEnd::Stuck);
    // no encoding for clz
    let nodes = vec![Lang::Const(0), Lang::I32Clz([0])];
    assert_eq!(a.plan_encoding(&nodes).end, PlanEnd::Stuck);
}

#[test]
fn analysis_errors_stop_planning() {
    let a = PeepholeMutationAnalysis::new(
        vec![],
        vec![],
        vec![TypeInfo::Func(FuncInfo {
            params: vec![],
            returns: vec![PrimitiveTypeInfo::I32, PrimitiveTypeInfo::I32],
        })],
        vec![0],
    );
    let nodes = vec![Lang::Arg(0), Lang::Call(vec![0])];
    assert_eq!(a.plan_encoding(&nodes).end, PlanEnd::Failed(Error::NoMutationsApplicable));
}

#[test]
fn a_rand_node_used_twice_is_one_number() {
    let a = PeepholeMutationAnalysis::new(vec![], vec![], vec![], vec![]);
    let nodes = vec![Lang::RandI32, Lang::I32Add([0, 0])];
    let plan = a.plan_encoding(&nodes);
    assert_eq!(plan.end, PlanEnd::Done);
    assert_eq!(plan.steps, vec![Step::RandI32(0), Step::RandI32(0), Step::Emit(Instr::I32Add)]);
    let mut rnd = SmallRng::seed_from_u64(5);
    let mut out = Vec::new();
    assert_eq!(expr2wasm(&a, &mut rnd, &nodes, &mut out), Ok(()));
    assert_eq!(out.len(), 3);
    match (out[0], out[1], out[2]) {
        (Instr::I32Const(x), Instr::I32Const(y), Instr::I32Add) => assert_eq!(x, y),
        _ => panic!("expected two equal constants and an add"),
    }
    // one draw only: the generator is one number ahead of a fresh one
    let mut fresh = SmallRng::seed_from_u64(5);
    let _: i32 = fresh.gen();
    assert_eq!(rnd.gen::<u64>(), fresh.gen::<u64>());
}

#[test]
fn encoding_without_random_nodes_leaves_the_generator() {
    let a = analysis();
    let nodes = vec![Lang::Const(1), Lang::Const(2), Lang::I32Add([0, 1])];
    let mut rnd = SmallRng::seed_from_u64(11);
    let mut out = Vec::new();
    assert_eq!(expr2wasm(&a, &mut rnd, &nodes, &mut out), Ok(()));
    let mut fresh = SmallRng::seed_from_u64(11);
    assert_eq!(rnd.gen::<u64>(), fresh.gen::<u64>());
}

#[test]
fn failed_encodings_leave_the_generator() {
    let a = PeepholeMutationAnalysis::new(vec![], vec![], vec![], vec![]);
    // an i64 constant cannot be unfolded as an i32
    let nodes = vec![Lang::I64(1), Lang::UnfoldI32(0)];
    let mut rnd = SmallRng::seed_from_u64(12);
    let mut out = vec![Instr::Drop];
    let r = expr2wasm(&a, &mut rnd, &nodes, &mut out);
    match r {
        Err(Error::UnsupportedType(EitherType::EggError(m))) => {
            assert_eq!(m, format!("The current eterm cannot be unfolded {:?}", Lang::I64(1)));
        }
        _ => panic!("expected an unfolding error"),
    }
    assert_eq!(out, vec![Instr::Drop]);
    let mut fresh = SmallRng::seed_from_u64(12);
    assert_eq!(rnd.gen::<u64>(), fresh.gen::<u64>());
    // the type of the root cannot be had
    let a = PeepholeMutationAnalysis::new(
        vec![],
        vec![],
        vec![TypeInfo::Func(FuncInfo {
            params: vec![],
            returns: vec![PrimitiveTypeInfo::I32, PrimitiveTypeInfo::I32],
        })],
        vec![0],
    );
    let nodes = vec![Lang::Arg(0), Lang::Call(vec![0])];
    let mut rnd = SmallRng::seed_from_u64(13);
    let mut out = Vec::new();
    assert_eq!(expr2wasm(&a, &mut rnd, &nodes, &mut out), Err(Error::NoMutationsApplicable));
    assert!(out.is_empty());
    let mut fresh = SmallRng::seed_from_u64(13);
    assert_eq!(rnd.gen::<u64>(), fresh.gen::<u64>());
}

#[test]
fn pushing_an_unfolding_with_a_given_part() {
    let mut out = vec![Instr::Drop];
    push_unfolding_i32(42, 100, &mut out);
    assert_eq!(out, vec![Instr::Drop, Instr::I32Const(100), Instr::I32Const(-58), Instr::I32Add]);
    let mut out = Vec::new();
    push_unfolding_i32(i32::MIN, 1, &mut out);
    assert_eq!(out, vec![Instr::I32Const(1), Instr::I32Const(i32::MAX), Instr::I32Add]);
    let mut out = Vec::new();
    push_unfolding_i64(-3, -5, &mut out);
    assert_eq!(out, vec![Instr::I64Const(-5), Instr::I64Const(2), Instr::I64Add]);
}

#[test]
fn nested_operands_are_encoded_before_their_parent() {
    let a = analysis();
    let nodes = vec![
        Lang::I32(1),
        Lang::I32(2),
        Lang::I32Add([0, 1]),
        Lang::I32(3),
        Lang::I32Mul([3, 2]),
    ];
    let plan = a.plan_encoding(&nodes);
    assert_eq!(plan.end, PlanEnd::Done);
    assert_eq!(
        plan.steps,
        vec![
            Step::Emit(Instr::I32Const(3)),
            Step::Emit(Instr::I32Const(1)),
            Step::Emit(Instr::I32Const(2)),
            Step::Emit(Instr::I32Add),
            Step::Emit(Instr::I32Mul),
        ]
    );
}
